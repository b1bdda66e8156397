//! How the command server cuts a stream of bytes into lines.
//!
//! [`crate::server::Server::poll`] sees the stream in pieces. The laws here say what it makes of
//! the stream as a whole: each line is either handed over unchanged or refused for its length,
//! whatever the pieces were.

use crate::buffer::COMMAND_CAPACITY;
use crate::server::{advance, is_first_piece, Verdict, NEWLINE};
use vstd::prelude::*;

verus! {

/// A finished line is refused if, with its newline, it would fill the command buffer.
pub open spec fn judge(line: Seq<u8>) -> Verdict {
    if line.len() + 1 < COMMAND_CAPACITY {
        Verdict::Line(line)
    } else {
        Verdict::TooLong
    }
}

/// The bytes of a stream after its last newline.
pub open spec fn unfinished(stream: Seq<u8>) -> Seq<u8>
    decreases stream.len(),
{
    if stream.len() == 0 || stream.last() == NEWLINE {
        Seq::empty()
    } else {
        unfinished(stream.drop_last()).push(stream.last())
    }
}

/// What becomes of each finished line of a stream, in order.
pub open spec fn verdicts(stream: Seq<u8>) -> Seq<Verdict>
    decreases stream.len(),
{
    if stream.len() == 0 {
        Seq::empty()
    } else if stream.last() == NEWLINE {
        verdicts(stream.drop_last()).push(judge(unfinished(stream.drop_last())))
    } else {
        verdicts(stream.drop_last())
    }
}

/// The number of newlines in a stream.
pub open spec fn newlines(stream: Seq<u8>) -> nat
    decreases stream.len(),
{
    if stream.len() == 0 {
        0
    } else {
        newlines(stream.drop_last()) + if stream.last() == NEWLINE {
            1nat
        } else {
            0nat
        }
    }
}

/// The state of a server that has received these bytes since the last newline.
pub open spec fn stored(line: Seq<u8>) -> Option<Seq<u8>> {
    if line.len() < COMMAND_CAPACITY {
        Some(line)
    } else {
        None
    }
}

/// A piece of a stream as the server takes it: not empty, and a newline only at its end.
pub open spec fn is_piece(piece: Seq<u8>) -> bool {
    &&& piece.len() > 0
    &&& !piece.drop_last().contains(NEWLINE)
}

/// The stream that the pieces make up.
pub open spec fn joined(pieces: Seq<Seq<u8>>) -> Seq<u8>
    decreases pieces.len(),
{
    if pieces.len() == 0 {
        Seq::empty()
    } else {
        joined(pieces.drop_last()) + pieces.last()
    }
}

/// The state of a new server after it has taken the pieces one by one, and what it made of each
/// line that ended.
pub open spec fn feed(pieces: Seq<Seq<u8>>) -> (Option<Seq<u8>>, Seq<Verdict>)
    decreases pieces.len(),
{
    if pieces.len() == 0 {
        (Some(Seq::empty()), Seq::empty())
    } else {
        let (before, seen) = feed(pieces.drop_last());
        match advance(before, pieces.last()) {
            (line, Some(verdict)) => (line, seen.push(verdict)),
            (line, None) => (line, seen),
        }
    }
}

/// What the server takes of a window that is not empty is a piece of the stream.
pub proof fn law_poll_takes_a_piece(window: Seq<u8>, n: int)
    requires
        window.len() > 0,
        is_first_piece(window, n),
    ensures
        0 < n <= window.len(),
        is_piece(window.take(n)),
{
    assert(window.take(n).drop_last() =~= window.take(n - 1));
    if !window.contains(NEWLINE) {
        let body = window.take(n - 1);
        assert forall|i: int| 0 <= i < body.len() implies body[i] != NEWLINE by {
            assert(window.contains(window[i]));
        }
    }
}

/// What the server takes of a window is fixed: it goes up to and with the first newline, and
/// leaves nothing behind if there is none.
pub proof fn law_what_is_taken(window: Seq<u8>, n: int)
    requires
        is_first_piece(window, n),
    ensures
        0 <= n <= window.len(),
        n == 0 ==> window.len() == 0,
        forall|i: int| 0 <= i < n - 1 ==> window[i] != 10,
        n < window.len() ==> window[n - 1] == 10,
{
    if window.contains(NEWLINE) {
        assert forall|i: int| 0 <= i < n - 1 implies window[i] != 10 by {
            assert(window.take(n - 1)[i] == window[i]);
            assert(window.take(n - 1).contains(window.take(n - 1)[i]));
        }
    } else {
        assert forall|i: int| 0 <= i < n - 1 implies window[i] != 10 by {
            assert(window.contains(window[i]));
        }
    }
}

/// As long as no newline comes, the server knows the line so far by all of its bytes, until there
/// are 256 of them; from then on the line is given up.
pub proof fn law_line_grows(line: Seq<u8>, piece: Seq<u8>)
    requires
        forall|i: int| 0 <= i < piece.len() ==> piece[i] != 10,
    ensures
        line.len() + piece.len() < 256 ==> advance(Some(line), piece) == (
            Some(line + piece),
            None::<Verdict>,
        ),
        line.len() + piece.len() >= 256 ==> advance(Some(line), piece) == (
            None::<Seq<u8>>,
            None::<Verdict>,
        ),
        advance(None, piece) == (None::<Seq<u8>>, None::<Verdict>),
{
}

/// When the newline comes, the line is handed over with all of its bytes, and without the newline,
/// if it has fewer than 256 bytes with the newline. It is refused if it has more, or was given up.
/// Either way the next line starts empty.
pub proof fn law_line_ends(line: Seq<u8>, piece: Seq<u8>)
    ensures
        line.len() + piece.len() + 1 < 256 ==> advance(Some(line), piece.push(10)) == (
            Some(Seq::<u8>::empty()),
            Some(Verdict::Line(line + piece)),
        ),
        line.len() + piece.len() + 1 >= 256 ==> advance(Some(line), piece.push(10)) == (
            Some(Seq::<u8>::empty()),
            Some(Verdict::TooLong),
        ),
        advance(None, piece.push(10)) == (Some(Seq::<u8>::empty()), Some(Verdict::TooLong)),
{
    assert((line + piece.push(10)).drop_last() =~= line + piece);
}

/// Bytes without a newline extend the unfinished line and finish none.
proof fn lemma_extend(stream: Seq<u8>, bytes: Seq<u8>)
    requires
        !bytes.contains(NEWLINE),
    ensures
        unfinished(stream + bytes) == unfinished(stream) + bytes,
        verdicts(stream + bytes) == verdicts(stream),
    decreases bytes.len(),
{
    if bytes.len() == 0 {
        assert(stream + bytes =~= stream);
        assert(unfinished(stream) + bytes =~= unfinished(stream));
    } else {
        let shorter = bytes.drop_last();
        assert forall|i: int| 0 <= i < shorter.len() implies shorter[i] != NEWLINE by {
            assert(bytes[i] != NEWLINE);
        }
        lemma_extend(stream, shorter);
        assert(bytes.last() != NEWLINE) by {
            assert(bytes.contains(bytes.last()));
        }
        assert((stream + bytes).drop_last() =~= stream + shorter);
        assert((unfinished(stream) + shorter).push(bytes.last()) =~= unfinished(stream) + bytes);
    }
}

/// A server keeps what it has of the unfinished line, and finished lines fare as the stream says,
/// however the stream was cut into pieces.
pub proof fn law_framing(pieces: Seq<Seq<u8>>)
    requires
        forall|i: int| 0 <= i < pieces.len() ==> is_piece(#[trigger] pieces[i]),
    ensures
        feed(pieces).0 == stored(unfinished(joined(pieces))),
        feed(pieces).1 == verdicts(joined(pieces)),
    decreases pieces.len(),
{
    if pieces.len() > 0 {
        let earlier = pieces.drop_last();
        let piece = pieces.last();
        law_framing(earlier);
        assert(is_piece(pieces[pieces.len() - 1]));
        let stream = joined(earlier);
        let body = piece.drop_last();
        assert(piece =~= body.push(piece.last()));
        lemma_extend(stream, body);
        assert((stream + piece).drop_last() =~= stream + body);
        assert(unfinished(stream) + piece =~= (unfinished(stream) + body).push(piece.last()));
        assert((unfinished(stream) + piece).drop_last() =~= unfinished(stream) + body);
    }
}

/// The same stream, cut differently, leads to the same lines and the same state.
pub proof fn law_pieces_do_not_matter(a: Seq<Seq<u8>>, b: Seq<Seq<u8>>)
    requires
        forall|i: int| 0 <= i < a.len() ==> is_piece(#[trigger] a[i]),
        forall|i: int| 0 <= i < b.len() ==> is_piece(#[trigger] b[i]),
        joined(a) == joined(b),
    ensures
        feed(a) == feed(b),
{
    law_framing(a);
    law_framing(b);
}

/// Lines are independent: after a newline the server treats what follows as a new stream. In
/// particular a line that was refused does not affect the next one.
pub proof fn law_lines_are_independent(first: Seq<u8>, second: Seq<u8>)
    requires
        first.len() == 0 || first.last() == NEWLINE,
    ensures
        unfinished(first + second) == unfinished(second),
        verdicts(first + second) == verdicts(first) + verdicts(second),
    decreases second.len(),
{
    if second.len() == 0 {
        assert(first + second =~= first);
        assert(verdicts(first) + verdicts(second) =~= verdicts(first));
    } else {
        law_lines_are_independent(first, second.drop_last());
        assert((first + second).drop_last() =~= first + second.drop_last());
        assert(verdicts(first) + verdicts(second.drop_last()).push(
            judge(unfinished(second.drop_last())),
        ) =~= (verdicts(first) + verdicts(second.drop_last())).push(
            judge(unfinished(second.drop_last())),
        ));
    }
}

/// A line by itself is handed over as it is if it leaves room in the buffer, and refused
/// otherwise.
pub proof fn law_single_line(line: Seq<u8>)
    requires
        !line.contains(NEWLINE),
    ensures
        unfinished(line.push(NEWLINE)) == Seq::<u8>::empty(),
        verdicts(line.push(NEWLINE)) == seq![judge(line)],
        line.len() + 1 < COMMAND_CAPACITY ==> verdicts(line.push(NEWLINE)) == seq![
            Verdict::Line(line),
        ],
        verdicts(line.push(NEWLINE)).len() == 1,
        verdicts(line.push(NEWLINE))[0] is TooLong <==> line.len() + 1 >= COMMAND_CAPACITY,
{
    lemma_extend(Seq::empty(), line);
    assert(Seq::<u8>::empty() + line =~= line);
    assert(line.push(NEWLINE).drop_last() =~= line);
    assert(verdicts(line) == verdicts(Seq::<u8>::empty()));
}

/// The pieces make up the stream that they are when put one after the other.
proof fn lemma_joined(pieces: Seq<Seq<u8>>)
    ensures
        joined(pieces) == pieces.flatten(),
    decreases pieces.len(),
{
    if pieces.len() == 0 {
        assert(pieces.flatten() =~= Seq::<u8>::empty());
    } else {
        lemma_joined(pieces.drop_last());
        pieces.lemma_flatten_and_flatten_alt_are_equivalent();
        pieces.drop_last().lemma_flatten_and_flatten_alt_are_equivalent();
    }
}

/// A line that arrives in pieces of any size is handed over whole if it has fewer than 256 bytes
/// with its newline, and refused otherwise, and then the server is as good as new.
pub proof fn law_line_in_pieces(pieces: Seq<Seq<u8>>, line: Seq<u8>)
    requires
        forall|i: int| 0 <= i < pieces.len() ==> (#[trigger] pieces[i]).len() > 0,
        pieces.flatten() == line.push(10),
        forall|i: int| 0 <= i < line.len() ==> line[i] != 10,
    ensures
        feed(pieces).0 == Some(Seq::<u8>::empty()),
        line.len() + 1 < 256 ==> feed(pieces).1 == seq![Verdict::Line(line)],
        line.len() + 1 >= 256 ==> feed(pieces).1 == seq![Verdict::TooLong],
{
    lemma_joined(pieces);
    assert(!line.contains(NEWLINE));
    lemma_cuts_of_a_line(pieces, line);
    law_framing(pieces);
    law_single_line(line);
}

/// However a line is cut, its newline is at the end of the last piece.
proof fn lemma_cuts_of_a_line(pieces: Seq<Seq<u8>>, line: Seq<u8>)
    requires
        forall|i: int| 0 <= i < pieces.len() ==> (#[trigger] pieces[i]).len() > 0,
        joined(pieces) == line.push(10),
        !line.contains(NEWLINE),
    ensures
        forall|i: int| 0 <= i < pieces.len() ==> is_piece(#[trigger] pieces[i]),
{
    let stream = line.push(10);
    if pieces.len() == 0 {
        assert(stream.len() == 0);
    }
    let earlier = pieces.drop_last();
    let last = pieces.last();
    assert(last == pieces[pieces.len() - 1]);
    let n = joined(earlier).len() as int;
    assert(stream == joined(earlier) + last);
    assert(stream.len() == n + last.len());
    let before = joined(earlier);
    assert forall|i: int| 0 <= i < before.len() implies before[i] != NEWLINE by {
        assert(before[i] == stream[i]);
        assert(line.contains(line[i]));
    }
    lemma_pieces_without_newline(earlier);
    assert(is_piece(last)) by {
        let body = last.drop_last();
        assert forall|i: int| 0 <= i < body.len() implies body[i] != NEWLINE by {
            assert(body[i] == stream[n + i]);
            assert(stream[n + i] == line[n + i]);
            assert(line.contains(line[n + i]));
        }
    }
    assert forall|i: int| 0 <= i < pieces.len() implies is_piece(#[trigger] pieces[i]) by {
        if i < earlier.len() {
            assert(is_piece(earlier[i]));
        }
    }
}

/// Pieces of a stream without a newline hold none.
proof fn lemma_pieces_without_newline(pieces: Seq<Seq<u8>>)
    requires
        forall|i: int| 0 <= i < pieces.len() ==> (#[trigger] pieces[i]).len() > 0,
        !joined(pieces).contains(NEWLINE),
    ensures
        forall|i: int| 0 <= i < pieces.len() ==> is_piece(#[trigger] pieces[i]),
    decreases pieces.len(),
{
    if pieces.len() > 0 {
        let earlier = pieces.drop_last();
        let last = pieces.last();
        let stream = joined(pieces);
        assert(last == pieces[pieces.len() - 1]);
        assert forall|i: int| 0 <= i < joined(earlier).len() implies joined(earlier)[i]
            != NEWLINE by {
            assert(stream[i] == joined(earlier)[i]);
            assert(stream.contains(stream[i]));
        }
        lemma_pieces_without_newline(earlier);
        let body = last.drop_last();
        assert forall|i: int| 0 <= i < body.len() implies body[i] != NEWLINE by {
            assert(stream[joined(earlier).len() + i] == body[i]);
            assert(stream.contains(stream[joined(earlier).len() + i]));
        }
        assert forall|i: int| 0 <= i < pieces.len() implies is_piece(#[trigger] pieces[i]) by {
            if i < earlier.len() {
                assert(is_piece(earlier[i]));
            }
        }
    }
}

/// Every finished line is dealt with exactly once.
pub proof fn law_one_verdict_per_line(stream: Seq<u8>)
    ensures
        verdicts(stream).len() == newlines(stream),
    decreases stream.len(),
{
    if stream.len() > 0 {
        law_one_verdict_per_line(stream.drop_last());
    }
}

/// No line that is handed over holds a newline, and each leaves room in the command buffer.
pub proof fn law_commands_are_lines(stream: Seq<u8>, i: int)
    requires
        0 <= i < verdicts(stream).len(),
    ensures
        verdicts(stream)[i] matches Verdict::Line(line) ==> !line.contains(NEWLINE) && line.len()
            + 1 < COMMAND_CAPACITY,
    decreases stream.len(),
{
    if stream.len() > 0 {
        let earlier = stream.drop_last();
        if i < verdicts(earlier).len() {
            law_commands_are_lines(earlier, i);
        } else {
            lemma_unfinished_has_no_newline(earlier);
        }
    }
}

/// The unfinished line holds no newline.
proof fn lemma_unfinished_has_no_newline(stream: Seq<u8>)
    ensures
        !unfinished(stream).contains(NEWLINE),
    decreases stream.len(),
{
    if stream.len() > 0 && stream.last() != NEWLINE {
        lemma_unfinished_has_no_newline(stream.drop_last());
        let before = unfinished(stream.drop_last());
        assert forall|j: int| 0 <= j < unfinished(stream).len() implies unfinished(stream)[j]
            != NEWLINE by {
            if j < before.len() {
                assert(before.contains(before[j]));
            }
        }
    }
}

} // verus!
