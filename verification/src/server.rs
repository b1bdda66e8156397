//! Line-oriented command server.
//!
//! Commands arrive as bytes on a stream, in pieces of any size, and end in a newline. The server
//! collects a line, hands it over for parsing and says what to answer. A line that is too long
//! for the buffer is dropped as a whole.

use crate::buffer::{command_bytes, reply_text, string_push, vec_capacity, vec_clear,
    vec_extend_from_slice, vec_len, vec_new, vec_pop, COMMAND_CAPACITY, REPLY_CAPACITY};
use vstd::prelude::*;
use vstd::utf8::encode_utf8;

verus! {

/// The byte that ends a command.
pub const NEWLINE: u8 = 10;

/// The code of the answer to a command that was carried out.
pub const CODE_OK: i32 = 200;

/// The code of the answer to a line that does not fit the command buffer.
pub const CODE_OVERFLOW: i32 = 520;

/// The code of the answer to a line that does not parse.
pub const CODE_PARSE_ERROR: i32 = 550;

/// An answer to a command.
#[derive(Clone, Copy, Debug)]
pub struct Response<'a> {
    /// Result code.
    pub code: i32,
    /// Result in words.
    pub message: &'a str,
}

/// Collects the bytes of a command.
pub struct Server {
    data: heapless::Vec<u8, 256>,
    discard: bool,
}

/// What to do after [`Server::poll`].
pub enum Step {
    /// Nothing can be received: stop.
    Idle,
    /// The window held no end of a line; all of it was taken.
    Partial { consumed: usize },
    /// A line that does not fit ended after `consumed` bytes: send the response.
    Overflow { consumed: usize, response: Response<'static> },
    /// A line ended after `consumed` bytes: parse it.
    Command { consumed: usize, line: heapless::Vec<u8, 256> },
}

/// What to do after a command has been parsed.
pub struct Answer {
    /// The response to send.
    pub response: Response<'static>,
    /// Whether a command was carried out, so that the current round of polling is over.
    pub handled: bool,
}

/// A line so far, with a further piece. A line that would fill the buffer is given up (`None`),
/// and stays given up.
pub open spec fn absorb(line: Option<Seq<u8>>, piece: Seq<u8>) -> Option<Seq<u8>> {
    match line {
        Some(bytes) if bytes.len() + piece.len() < COMMAND_CAPACITY => Some(bytes + piece),
        _ => None,
    }
}

/// What becomes of a finished line.
pub enum Verdict {
    /// It is answered with an overflow response.
    TooLong,
    /// It is handed over for parsing, without its newline.
    Line(Seq<u8>),
}

/// The line that is left after a further piece, and what becomes of the line that the piece ends,
/// if it ends one.
pub open spec fn advance(line: Option<Seq<u8>>, piece: Seq<u8>) -> (
    Option<Seq<u8>>,
    Option<Verdict>,
) {
    if piece.len() > 0 && piece.last() == NEWLINE {
        match absorb(line, piece) {
            Some(bytes) => (Some(Seq::empty()), Some(Verdict::Line(bytes.drop_last()))),
            None => (Some(Seq::empty()), Some(Verdict::TooLong)),
        }
    } else {
        (absorb(line, piece), None)
    }
}

/// Whether the first newline in `window` is the one before position `end`.
pub open spec fn line_ends_at(window: Seq<u8>, end: int) -> bool {
    &&& 0 < end <= window.len()
    &&& window[end - 1] == NEWLINE
    &&& !window.take(end - 1).contains(NEWLINE)
}

/// Whether the first `n` bytes of `window` are the piece that the server takes of it: up to and
/// with the first newline if there is one, else all of it.
pub open spec fn is_first_piece(window: Seq<u8>, n: int) -> bool {
    if window.contains(NEWLINE) {
        line_ends_at(window, n)
    } else {
        n == window.len()
    }
}

impl Response<'_> {
    /// Whether this is the response with the given code and message.
    pub open spec fn says(self, code: int, message: Seq<char>) -> bool {
        self.code == code && self.message@ == message
    }
}

impl View for Server {
    type V = Option<Seq<u8>>;

    /// The line so far, or `None` if it has been given up.
    closed spec fn view(&self) -> Option<Seq<u8>> {
        if self.discard {
            None
        } else {
            Some(command_bytes(self.data))
        }
    }
}

impl Server {
    /// A given-up line is not stored, and a line so far leaves room in the buffer.
    pub closed spec fn wf(&self) -> bool {
        &&& command_bytes(self.data).len() < COMMAND_CAPACITY
        &&& self.discard ==> command_bytes(self.data).len() == 0
    }

    /// A server that has received nothing.
    pub fn new() -> (server: Self)
        ensures
            server.wf(),
            server@ == Some(Seq::<u8>::empty()),
    {
        Server { data: vec_new(), discard: false }
    }

    /// Takes the first piece of a receive window: up to and with its first newline if it has one,
    /// else all of it. Returns the length of the piece and whether it ends a line.
    fn receive(&mut self, buf: &[u8]) -> (r: (usize, bool))
        requires
            old(self).wf(),
        ensures
            final(self).wf(),
            is_first_piece(buf@, r.0 as int),
            r.1 == buf@.contains(NEWLINE),
            final(self)@ == absorb(old(self)@, buf@.take(r.0 as int)),
    {
        let available: usize = buf.len();
        let (len, found) = match find_newline(buf) {
            Some(end) => (end + 1, true),
            None => (available, false),
        };
        if len >= vec_capacity(&self.data) - vec_len(&self.data) {
            self.discard = true;
            vec_clear(&mut self.data);
        } else if !self.discard && len > 0 {
            let _ = vec_extend_from_slice(&mut self.data, vstd::slice::slice_subrange(buf, 0, len));
        }
        (len, found)
    }

    /// Takes the finished line out, without its newline, and starts a new one. Returns `None` if
    /// the line was given up.
    fn take_line(&mut self) -> (r: Option<heapless::Vec<u8, 256>>)
        requires
            old(self).wf(),
            old(self)@ matches Some(bytes) ==> bytes.len() > 0,
        ensures
            final(self).wf(),
            final(self)@ == Some(Seq::<u8>::empty()),
            match r {
                Some(line) => old(self)@ is Some && command_bytes(line)
                    == old(self)@->Some_0.drop_last(),
                None => old(self)@ is None,
            },
    {
        if self.discard {
            self.discard = false;
            vec_clear(&mut self.data);
            None
        } else {
            let mut line = vec_new();
            core::mem::swap(&mut line, &mut self.data);
            let _ = vec_pop(&mut line);
            Some(line)
        }
    }

    /// One round of polling the stream. `window` is what can be received, or `None` if nothing
    /// can be.
    pub fn poll(&mut self, window: Option<&[u8]>) -> (r: Step)
        requires
            old(self).wf(),
        ensures
            final(self).wf(),
            match window {
                None => r is Idle && final(self)@ == old(self)@,
                Some(buf) => match r {
                    Step::Idle => false,
                    Step::Partial { consumed } => {
                        &&& is_first_piece(buf@, consumed as int)
                        &&& (final(self)@, None::<Verdict>) == advance(
                            old(self)@,
                            buf@.take(consumed as int),
                        )
                    },
                    Step::Overflow { consumed, response } => {
                        &&& is_first_piece(buf@, consumed as int)
                        &&& (final(self)@, Some(Verdict::TooLong)) == advance(
                            old(self)@,
                            buf@.take(consumed as int),
                        )
                        &&& response.says(CODE_OVERFLOW as int, "command buffer overflow"@)
                        &&& response.code == 520
                        &&& response.message@ == "command buffer overflow"@
                    },
                    Step::Command { consumed, line } => {
                        &&& is_first_piece(buf@, consumed as int)
                        &&& (final(self)@, Some(Verdict::Line(command_bytes(line)))) == advance(
                            old(self)@,
                            buf@.take(consumed as int),
                        )
                    },
                },
            },
            r matches Step::Command { consumed, line } ==> window is Some && old(self)@ is Some
                && command_bytes(line).push(10) == old(self)@->Some_0
                + window->Some_0@.take(consumed as int),
    {
        match window {
            None => Step::Idle,
            Some(buf) => {
                let (consumed, found) = self.receive(buf);
                if !found {
                    assert(!buf@.contains(NEWLINE) && buf@.take(consumed as int) =~= buf@);
                    return Step::Partial { consumed };
                }
                assert(buf@.take(consumed as int).last() == NEWLINE);
                match self.take_line() {
                    None => Step::Overflow {
                        consumed,
                        response: Response {
                            code: CODE_OVERFLOW,
                            message: "command buffer overflow",
                        },
                    },
                    Some(line) => {
                        assert(command_bytes(line).push(10) =~= old(self)@->Some_0
                            + buf@.take(consumed as int));
                        Step::Command { consumed, line }
                    },
                }
            },
        }
    }
}

/// The answer to a line that was handed over for parsing: polling goes on after a line that did
/// not parse, and stops after one that did.
pub fn answer(parsed: bool) -> (r: Answer)
    ensures
        r.handled == parsed,
        parsed ==> r.response.says(CODE_OK as int, "ok"@),
        parsed ==> r.response.code == 200 && r.response.message@ == "ok"@,
        !parsed ==> r.response.code == 550 && r.response.message@ == "parse error"@,
        !parsed ==> r.response.says(CODE_PARSE_ERROR as int, "parse error"@),
{
    if parsed {
        Answer { response: Response { code: CODE_OK, message: "ok" }, handled: true }
    } else {
        Answer { response: Response { code: CODE_PARSE_ERROR, message: "parse error" }, handled: false }
    }
}

/// The line to send for a response: its JSON text and a newline. Fails if that is more than a
/// reply can hold.
pub fn reply_line(json: heapless::String<128>) -> (r: Result<heapless::String<128>, ()>)
    ensures
        match r {
            Ok(line) => reply_text(line) == reply_text(json).push('\n') && encode_utf8(
                reply_text(line),
            ).len() <= REPLY_CAPACITY,
            Err(()) => encode_utf8(reply_text(json).push('\n')).len() > REPLY_CAPACITY,
        },
{
    let mut line = json;
    match string_push(&mut line, '\n') {
        Ok(()) => Ok(line),
        Err(()) => Err(()),
    }
}

/// The position of the first newline.
fn find_newline(buf: &[u8]) -> (r: Option<usize>)
    ensures
        match r {
            Some(end) => end < buf@.len() && line_ends_at(buf@, end + 1),
            None => !buf@.contains(NEWLINE),
        },
{
    let mut i: usize = 0;
    while i < buf.len()
        invariant
            i <= buf@.len(),
            forall|j: int| 0 <= j < i ==> buf@[j] != NEWLINE,
        decreases buf@.len() - i,
    {
        if buf[i] == NEWLINE {
            return Some(i);
        }
        i = i + 1;
    }
    None
}

} // verus!
