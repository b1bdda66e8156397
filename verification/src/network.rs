//! Decisions of the network loop.
//!
//! The loop serves two connections: one on which the board reports its status every millisecond,
//! and one on which it takes commands. The network stack and the filters' floating-point values
//! are the caller's; `T` stands for the latter.

use crate::board::{clock_tree, IIR};
use vstd::prelude::*;

verus! {

/// The port on which status is reported.
pub const STATUS_PORT: u16 = 1234;

/// The port on which commands are taken.
pub const COMMAND_PORT: u16 = 1235;

/// The number of core clock cycles in a millisecond.
pub const TICK_CYCLES: i32 = 400_000;

/// A command: use this filter on this channel.
#[derive(Clone, Copy, Debug)]
pub struct Request<T> {
    pub channel: u8,
    pub iir: IIR<T>,
}

/// A status report: the time in milliseconds, and the newest input and output of both channels.
#[derive(Clone, Copy, Debug)]
pub struct Status<T> {
    pub t: u32,
    pub x0: T,
    pub y0: T,
    pub x1: T,
    pub y1: T,
}

/// What the network stack says of a connection.
#[derive(Clone, Copy, Debug)]
pub struct Socket {
    /// The peer has closed its side.
    pub close_wait: bool,
    pub open: bool,
    pub listening: bool,
    pub can_send: bool,
}

/// What to do with the status connection.
#[derive(Clone, Copy, Debug, PartialEq, Eq, Structural)]
pub enum StatusStep {
    Close,
    Listen(u16),
    Report,
    Nothing,
}

/// What to do with the command connection.
#[derive(Clone, Copy, Debug, PartialEq, Eq, Structural)]
pub enum CommandStep {
    Close,
    Listen(u16),
    Poll,
}

/// What came of a round of work by the network stack.
#[derive(Clone, Copy, Debug, PartialEq, Eq, Structural)]
pub enum PollOutcome {
    /// It worked; something may have changed.
    Polled { changed: bool },
    /// A packet was not recognised.
    Unrecognized,
    /// Another error.
    Failed,
}

/// Counts milliseconds by a counter of core clock cycles that wraps around.
#[derive(Clone, Copy, Debug)]
pub struct Ticker {
    /// The count at which the next millisecond begins.
    pub next: i32,
    /// Milliseconds so far.
    pub time: u32,
}

/// The counter value congruent to `n`.
pub open spec fn wrapped(n: int) -> int {
    (n + 0x8000_0000) % 0x1_0000_0000 - 0x8000_0000
}

/// Whether counter value `a` is later than `b`: by less than half the counter's range.
pub open spec fn is_later(a: int, b: int) -> bool {
    wrapped(a - b) > 0
}

impl Ticker {
    /// Whether the next millisecond begins a whole number of ticks after count `start`, one more
    /// than were counted, up to wrap-around of the counter.
    pub open spec fn on_schedule(self, start: int) -> bool {
        self.next == wrapped(start + (self.time + 1) * TICK_CYCLES)
    }

    /// A ticker whose first millisecond begins at count `now`.
    pub fn new(now: i32) -> (ticker: Self)
        ensures
            ticker.next == wrapped(now + TICK_CYCLES),
            ticker.time == 0,
            ticker.on_schedule(now as int),
            (ticker.next - now - 400_000) % 0x1_0000_0000 == 0,
    {
        Ticker { next: now.wrapping_add(TICK_CYCLES), time: 0 }
    }

    /// Whether a millisecond has ended by count `now`; if so, goes on to the next. However late
    /// the end is noticed, the ticker does not drift.
    pub fn tick(&mut self, now: i32) -> (r: bool)
        requires
            is_later(now as int, old(self).next as int) ==> old(self).time < u32::MAX,
        ensures
            r == is_later(now as int, old(self).next as int),
            r == (0 < (now - old(self).next) % 0x1_0000_0000 < 0x8000_0000),
            r ==> (final(self).next - old(self).next - 400_000) % 0x1_0000_0000 == 0,
            r ==> final(self).time == old(self).time + 1 && final(self).next == wrapped(
                old(self).next + TICK_CYCLES,
            ),
            !r ==> *final(self) == *old(self),
            forall|start: int| old(self).on_schedule(start) ==> final(self).on_schedule(start),
    {
        let tick: bool = now.wrapping_sub(self.next) > 0;
        if tick {
            self.next = self.next.wrapping_add(TICK_CYCLES);
            self.time = self.time + 1;
        }
        tick
    }
}

/// What to do with the status connection, given whether a millisecond has ended.
pub fn status_step(socket: Socket, tick: bool) -> (r: StatusStep)
    ensures
        r == StatusStep::Close <==> socket.close_wait,
        r == StatusStep::Listen(STATUS_PORT) <==> !socket.close_wait && !socket.open
            && !socket.listening,
        r == StatusStep::Report <==> !socket.close_wait && (socket.open || socket.listening) && tick
            && socket.can_send,
        r == StatusStep::Nothing <==> !socket.close_wait && (socket.open || socket.listening) && !(
        tick && socket.can_send),
{
    if socket.close_wait {
        StatusStep::Close
    } else if !(socket.open || socket.listening) {
        StatusStep::Listen(STATUS_PORT)
    } else if tick && socket.can_send {
        StatusStep::Report
    } else {
        StatusStep::Nothing
    }
}

/// What to do with the command connection.
pub fn command_step(socket: Socket) -> (r: CommandStep)
    ensures
        r == CommandStep::Close <==> socket.close_wait,
        r == CommandStep::Listen(COMMAND_PORT) <==> !socket.close_wait && !socket.open
            && !socket.listening,
        r == CommandStep::Poll <==> !socket.close_wait && (socket.open || socket.listening),
{
    if socket.close_wait {
        CommandStep::Close
    } else if !(socket.open || socket.listening) {
        CommandStep::Listen(COMMAND_PORT)
    } else {
        CommandStep::Poll
    }
}

/// The status report at a time, from the state of both filters: entry 0 of a filter's state is
/// its newest input, and entry 2 its newest output.
pub fn status<T: Copy>(time: u32, iir_state: &[[T; 5]; 2]) -> (r: Status<T>)
    ensures
        r == (Status {
            t: time,
            x0: iir_state@[0]@[0],
            y0: iir_state@[0]@[2],
            x1: iir_state@[1]@[0],
            y1: iir_state@[1]@[2],
        }),
{
    Status {
        t: time,
        x0: iir_state[0][0],
        y0: iir_state[0][2],
        x1: iir_state[1][0],
        y1: iir_state[1][2],
    }
}

/// Carries out a command: replaces the filter of its channel. A command for a channel that there
/// is not has no effect.
pub fn apply<T: Copy>(iir_ch: &mut [IIR<T>; 2], request: &Request<T>)
    ensures
        final(iir_ch)@ == if request.channel < 2 {
            old(iir_ch)@.update(request.channel as int, request.iir)
        } else {
            old(iir_ch)@
        },
{
    if request.channel < 2 {
        iir_ch[request.channel as usize] = request.iir;
    }
}

/// The hardware address of the board: the one read from the memory chip, or a fixed one if it
/// could not be read.
pub fn hardware_addr<E>(read: Result<[u8; 6], E>) -> (r: [u8; 6])
    ensures
        match read {
            Ok(raw_mac) => r == raw_mac,
            Err(_) => r@ == seq![0x10u8, 0xE2, 0xD5, 0x00, 0x03, 0x00],
        },
{
    match read {
        Ok(raw_mac) => raw_mac,
        Err(_) => [0x10, 0xE2, 0xD5, 0x00, 0x03, 0x00],
    }
}

/// The board's own address.
pub fn local_addr() -> (r: [u8; 4])
    ensures
        r@ == seq![10u8, 0, 16, 99],
{
    [10, 0, 16, 99]
}

/// The number of leading bits of the address that name the network.
pub const PREFIX_LEN: u8 = 24;

/// Whether something may have changed after a round of work by the network stack. An error
/// counts as a change.
pub fn may_have_changed(outcome: PollOutcome) -> (r: bool)
    ensures
        !r <==> outcome == (PollOutcome::Polled { changed: false }),
{
    match outcome {
        PollOutcome::Polled { changed } => changed,
        PollOutcome::Unrecognized => true,
        PollOutcome::Failed => true,
    }
}

/// A tick is a millisecond of the core clock.
pub proof fn law_tick_is_a_millisecond()
    ensures
        TICK_CYCLES * 1000 == clock_tree().sysclk,
{
}

/// A wrapped count is the 32-bit signed number that differs from the count by a multiple of the
/// counter's range: there is only one.
pub proof fn law_wrapped(n: int)
    ensures
        -0x8000_0000 <= wrapped(n) < 0x8000_0000,
        (wrapped(n) - n) % 0x1_0000_0000 == 0,
        -0x8000_0000 <= n < 0x8000_0000 ==> wrapped(n) == n,
{
}

/// A count up to half the counter's range after another one is later, across wrap-around too.
pub proof fn law_later(b: int, elapsed: int)
    requires
        -0x8000_0000 <= elapsed < 0x8000_0000,
    ensures
        is_later(wrapped(b + elapsed), wrapped(b)) <==> elapsed > 0,
{
}

} // verus!
