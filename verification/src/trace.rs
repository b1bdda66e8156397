//! Laws of the service routine over whole runs.
//!
//! A run is given by the replies to its actions, in order.

use crate::conversion::{stages, Action, Channel, Reply, Run, Stage};
use crate::sample::{offset_binary, twos_complement};
use vstd::prelude::*;

verus! {

/// The state after the replies.
pub open spec fn after(replies: Seq<Reply>) -> Run
    decreases replies.len(),
{
    if replies.len() == 0 {
        Run::start()
    } else {
        after(replies.drop_last()).next(replies.last())
    }
}

/// Whether each reply is one that the action at that point can have.
pub open spec fn possible(replies: Seq<Reply>) -> bool
    decreases replies.len(),
{
    replies.len() > 0 ==> {
        &&& possible(replies.drop_last())
        &&& after(replies.drop_last()).action() matches Some(action) && action.can_reply(
            replies.last(),
        )
    }
}

/// The actions to which these are the replies.
pub open spec fn performed(replies: Seq<Reply>) -> Seq<Action>
    decreases replies.len(),
{
    if replies.len() == 0 {
        Seq::empty()
    } else {
        performed(replies.drop_last()).push(after(replies.drop_last()).action()->Some_0)
    }
}

/// The stages that were completed, in the order in which that happened.
pub open spec fn completed(replies: Seq<Reply>) -> Seq<Stage>
    decreases replies.len(),
{
    if replies.len() == 0 {
        Seq::empty()
    } else if replies.last() is WouldBlock || replies.last() is Failed {
        completed(replies.drop_last())
    } else {
        completed(replies.drop_last()).push(
            after(replies.drop_last()).action()->Some_0.stage(),
        )
    }
}

/// Stages are completed in their order, none is left out, and none is completed twice. When the
/// routine has finished, all are.
pub proof fn law_stages_in_order(replies: Seq<Reply>)
    requires
        possible(replies),
    ensures
        0 <= after(replies).done <= stages().len(),
        completed(replies) == stages().take(after(replies).done),
        after(replies).is_finished() ==> completed(replies) == stages(),
    decreases replies.len(),
{
    if replies.len() > 0 {
        let earlier = replies.drop_last();
        law_stages_in_order(earlier);
        let run = after(earlier);
        assert(run.action() is Some);
        assert(run.action()->Some_0.stage() == stages()[run.done]);
        assert(stages().take(run.done + 1) =~= stages().take(run.done).push(stages()[run.done]));
    }
    assert(stages().take(stages().len() as int) =~= stages());
}

/// A peripheral that is not ready stops the routine, except for the second ADC, which is asked
/// again. Any error stops it. Once stopped, it has no further action.
pub proof fn law_failures(run: Run, reply: Reply)
    requires
        run.action() matches Some(action) && action.can_reply(reply),
    ensures
        reply is Failed ==> run.next(reply).failed,
        reply is WouldBlock && run.action() == Some(Action::Read(Channel::Second)) ==> run.next(
            reply,
        ) == run,
        reply is WouldBlock && run.action() != Some(Action::Read(Channel::Second)) ==> run.next(
            reply,
        ).failed,
        run.next(reply).failed ==> run.next(reply).action() is None,
        !(reply is Failed || reply is WouldBlock) ==> !run.next(reply).failed,
{
}

/// The replies that an action can have.
pub proof fn law_replies(channel: Channel, x: i16, code: u16, reply: Reply)
    ensures
        Action::RaisePin.can_reply(reply) <==> reply is Done || reply is Failed,
        Action::LowerPin.can_reply(reply) <==> reply is Done || reply is Failed,
        Action::Read(channel).can_reply(reply) <==> reply is Sample || reply is WouldBlock
            || reply is Failed,
        (Action::Filter { channel, x }).can_reply(reply) <==> reply is Filtered,
        Action::Clear(channel).can_reply(reply) <==> reply is Done,
        (Action::Send { channel, code }).can_reply(reply) <==> reply is Done || reply is WouldBlock
            || reply is Failed,
{
}

/// Everything that a run can do, reply by reply, for all words from the ADCs and all outputs of
/// the filters. Each filter gets the two's-complement value of its own ADC's word, and each DAC
/// gets its own filter's output plus `0x8000`. Only for the second ADC does a run wait; then
/// nothing changes.
pub proof fn law_run_reply_by_reply(a1: u16, y1: i16, a2: u16, y2: i16)
    ensures
        ({
            let r0 = Run::start();
            let r1 = r0.next(Reply::Done);
            let r2 = r1.next(Reply::Sample(a1));
            let r3 = r2.next(Reply::Filtered(y1));
            let r4 = r3.next(Reply::Done);
            let r5 = r4.next(Reply::Sample(a2));
            let r6 = r5.next(Reply::Filtered(y2));
            let r7 = r6.next(Reply::Done);
            let r8 = r7.next(Reply::Done);
            let r9 = r8.next(Reply::Done);
            let r10 = r9.next(Reply::Done);
            &&& r0.action() == Some(Action::RaisePin)
            &&& r1.action() == Some(Action::Read(Channel::First))
            &&& r2.action() is Some
            &&& r2.action()->Some_0 matches Action::Filter { channel, x } && channel
                == Channel::First && x == if a1 < 0x8000 {
                a1 as int
            } else {
                a1 - 0x1_0000
            }
            &&& r3.action() == Some(Action::Clear(Channel::First))
            &&& r4.action() == Some(Action::Read(Channel::Second))
            &&& r4.next(Reply::WouldBlock) == r4
            &&& r5.action() is Some
            &&& r5.action()->Some_0 matches Action::Filter { channel, x } && channel
                == Channel::Second && x == if a2 < 0x8000 {
                a2 as int
            } else {
                a2 - 0x1_0000
            }
            &&& r6.action() == Some(Action::Clear(Channel::Second))
            &&& r7.action() is Some
            &&& r7.action()->Some_0 matches Action::Send { channel, code } && channel
                == Channel::First && code == y1 + 0x8000
            &&& r8.action() is Some
            &&& r8.action()->Some_0 matches Action::Send { channel, code } && channel
                == Channel::Second && code == y2 + 0x8000
            &&& r9.action() == Some(Action::LowerPin)
            &&& r10.action() is None
            &&& !r0.failed && !r1.failed && !r2.failed && !r3.failed && !r4.failed && !r5.failed
            &&& !r6.failed && !r7.failed && !r8.failed && !r9.failed && !r10.failed
        }),
{
}

/// The replies of a run without errors, in which the second ADC is not ready `waits` times.
pub open spec fn good_replies(a1: u16, y1: i16, waits: nat, a2: u16, y2: i16) -> Seq<Reply> {
    seq![Reply::Done, Reply::Sample(a1), Reply::Filtered(y1), Reply::Done] + Seq::new(
        waits,
        |i: int| Reply::WouldBlock,
    ) + seq![
        Reply::Sample(a2),
        Reply::Filtered(y2),
        Reply::Done,
        Reply::Done,
        Reply::Done,
        Reply::Done,
    ]
}

/// The actions of such a run.
pub open spec fn good_actions(a1: u16, y1: i16, waits: nat, a2: u16, y2: i16) -> Seq<Action> {
    seq![
        Action::RaisePin,
        Action::Read(Channel::First),
        Action::Filter { channel: Channel::First, x: twos_complement(a1) as i16 },
        Action::Clear(Channel::First),
    ] + Seq::new(waits, |i: int| Action::Read(Channel::Second)) + seq![
        Action::Read(Channel::Second),
        Action::Filter { channel: Channel::Second, x: twos_complement(a2) as i16 },
        Action::Clear(Channel::Second),
        Action::Send { channel: Channel::First, code: offset_binary(y1 as int) as u16 },
        Action::Send { channel: Channel::Second, code: offset_binary(y2 as int) as u16 },
        Action::LowerPin,
    ]
}

/// The state when the second ADC is to be read.
spec fn waiting(a1: u16, y1: i16) -> Run {
    Run {
        done: 4,
        failed: false,
        x: twos_complement(a1) as i16,
        first: offset_binary(y1 as int) as u16,
        second: 0,
    }
}

/// One further reply.
proof fn lemma_push(replies: Seq<Reply>, reply: Reply)
    ensures
        after(replies.push(reply)) == after(replies).next(reply),
        possible(replies.push(reply)) == (possible(replies) && (after(replies).action() matches Some(
            action,
        ) && action.can_reply(reply))),
        performed(replies.push(reply)) == performed(replies).push(after(replies).action()->Some_0),
{
    assert(replies.push(reply).drop_last() =~= replies);
}

/// The run up to the point where the second ADC has been asked `waits` times in vain.
proof fn lemma_waiting(a1: u16, y1: i16, waits: nat) -> (replies: Seq<Reply>)
    ensures
        replies == seq![Reply::Done, Reply::Sample(a1), Reply::Filtered(y1), Reply::Done]
            + Seq::new(waits, |i: int| Reply::WouldBlock),
        possible(replies),
        after(replies) == waiting(a1, y1),
        performed(replies) == seq![
            Action::RaisePin,
            Action::Read(Channel::First),
            Action::Filter { channel: Channel::First, x: twos_complement(a1) as i16 },
            Action::Clear(Channel::First),
        ] + Seq::new(waits, |i: int| Action::Read(Channel::Second)),
    decreases waits,
{
    if waits == 0 {
        let r0 = Seq::<Reply>::empty();
        let r1 = r0.push(Reply::Done);
        let r2 = r1.push(Reply::Sample(a1));
        let r3 = r2.push(Reply::Filtered(y1));
        lemma_push(r0, Reply::Done);
        lemma_push(r1, Reply::Sample(a1));
        lemma_push(r2, Reply::Filtered(y1));
        lemma_push(r3, Reply::Done);
        r3.push(Reply::Done)
    } else {
        let earlier = lemma_waiting(a1, y1, (waits - 1) as nat);
        lemma_push(earlier, Reply::WouldBlock);
        earlier.push(Reply::WouldBlock)
    }
}

/// A run without errors: the pin goes high; the first ADC is read once and the second until it is
/// ready; each sample goes through its filter, and each end-of-transfer flag is cleared after its
/// sample was filtered; then each DAC is sent its filter's output in offset binary; the pin goes
/// low.
pub proof fn law_good_run(a1: u16, y1: i16, waits: nat, a2: u16, y2: i16)
    ensures
        possible(good_replies(a1, y1, waits, a2, y2)),
        after(good_replies(a1, y1, waits, a2, y2)).is_finished(),
        performed(good_replies(a1, y1, waits, a2, y2)) == good_actions(a1, y1, waits, a2, y2),
        performed(good_replies(a1, y1, waits, a2, y2)).len() == waits + 10,
        performed(good_replies(a1, y1, waits, a2, y2))[2] matches Action::Filter { channel, x }
            && channel == Channel::First && x == if a1 < 0x8000 {
            a1 as int
        } else {
            a1 - 0x1_0000
        },
        performed(good_replies(a1, y1, waits, a2, y2))[(waits + 5) as int] matches Action::Filter {
            channel,
            x,
        } && channel == Channel::Second && x == if a2 < 0x8000 {
            a2 as int
        } else {
            a2 - 0x1_0000
        },
        performed(good_replies(a1, y1, waits, a2, y2))[(waits + 7) as int] matches Action::Send {
            channel,
            code,
        } && channel == Channel::First && code == y1 + 0x8000,
        performed(good_replies(a1, y1, waits, a2, y2))[(waits + 8) as int] matches Action::Send {
            channel,
            code,
        } && channel == Channel::Second && code == y2 + 0x8000,
{
    let r0 = lemma_waiting(a1, y1, waits);
    let r1 = r0.push(Reply::Sample(a2));
    let r2 = r1.push(Reply::Filtered(y2));
    let r3 = r2.push(Reply::Done);
    let r4 = r3.push(Reply::Done);
    let r5 = r4.push(Reply::Done);
    let r6 = r5.push(Reply::Done);
    lemma_push(r0, Reply::Sample(a2));
    lemma_push(r1, Reply::Filtered(y2));
    lemma_push(r2, Reply::Done);
    lemma_push(r3, Reply::Done);
    lemma_push(r4, Reply::Done);
    lemma_push(r5, Reply::Done);
    assert(r6 =~= good_replies(a1, y1, waits, a2, y2));
    assert(performed(r6) =~= good_actions(a1, y1, waits, a2, y2));
}

/// The number of replies in a run without errors when `done` stages are done and the second ADC
/// was not ready `waits` times.
spec fn replies_so_far(done: int, waits: nat) -> int {
    if done < 4 {
        done
    } else {
        done + waits
    }
}

/// The words, samples and number of waits of a run that has not failed.
proof fn lemma_run_so_far(replies: Seq<Reply>) -> (r: (u16, i16, nat, u16, i16))
    requires
        possible(replies),
        !after(replies).failed,
    ensures
        0 <= after(replies).done <= stages().len(),
        replies == good_replies(r.0, r.1, r.2, r.3, r.4).take(
            replies_so_far(after(replies).done, r.2),
        ),
    decreases replies.len(),
{
    if replies.len() == 0 {
        let none = good_replies(0, 0, 0, 0, 0).take(0);
        assert(replies =~= none);
        (0, 0, 0, 0, 0)
    } else {
        let earlier = replies.drop_last();
        let run = after(earlier);
        let reply = replies.last();
        assert(run.action() is Some);
        assert(!run.failed);
        let (a1, y1, waits, a2, y2) = lemma_run_so_far(earlier);
        let r = match reply {
            Reply::Sample(a) => if run.done == 1 {
                (a, y1, waits, a2, y2)
            } else {
                (a1, y1, waits, a, y2)
            },
            Reply::Filtered(y) => if run.done == 2 {
                (a1, y, waits, a2, y2)
            } else {
                (a1, y1, waits, a2, y)
            },
            Reply::WouldBlock => (a1, y1, waits + 1, a2, y2),
            _ => if run.done == 3 {
                (a1, y1, 0, a2, y2)
            } else {
                (a1, y1, waits, a2, y2)
            },
        };
        let before = good_replies(a1, y1, waits, a2, y2);
        let good = good_replies(r.0, r.1, r.2, r.3, r.4);
        let n = replies_so_far(after(replies).done, r.2);
        assert(stages()[run.done] == run.action()->Some_0.stage());
        assert(n == replies.len());
        assert forall|i: int| 0 <= i < n implies replies[i] == good[i] by {
            if i < n - 1 {
                assert(replies[i] == earlier[i]);
                assert(earlier[i] == before[i]);
            }
        }
        assert(replies =~= good.take(n));
        r
    }
}

/// The actions up to a point depend only on the replies before it.
proof fn lemma_performed_prefix(replies: Seq<Reply>, n: int)
    requires
        0 <= n <= replies.len(),
    ensures
        performed(replies).len() == replies.len(),
        performed(replies.take(n)) == performed(replies).take(n),
    decreases replies.len(),
{
    if n == replies.len() {
        assert(replies.take(n) =~= replies);
        if n > 0 {
            lemma_performed_prefix(replies.drop_last(), n - 1);
        }
        assert(performed(replies).take(n) =~= performed(replies));
    } else {
        lemma_performed_prefix(replies.drop_last(), n);
        assert(replies.drop_last().take(n) =~= replies.take(n));
        assert(performed(replies).take(n) =~= performed(replies.drop_last()).take(n));
    }
}

/// Whatever the replies, the actions are those of a run without errors, up to where the routine
/// is or has stopped: what is sent to a DAC is its own filter's output, in offset binary, for the
/// sample of its own ADC, and it is sent only after both samples were filtered. A routine that
/// finishes has performed all of them.
pub proof fn law_only_good_runs(replies: Seq<Reply>)
    requires
        possible(replies),
    ensures
        exists|a1: u16, y1: i16, waits: nat, a2: u16, y2: i16|
            performed(replies).is_prefix_of(#[trigger] good_actions(a1, y1, waits, a2, y2)),
        !after(replies).failed ==> exists|a1: u16, y1: i16, waits: nat, a2: u16, y2: i16|
            replies.is_prefix_of(#[trigger] good_replies(a1, y1, waits, a2, y2))
                && performed(replies).is_prefix_of(good_actions(a1, y1, waits, a2, y2)),
        after(replies).is_finished() ==> exists|a1: u16, y1: i16, waits: nat, a2: u16, y2: i16|
            replies == #[trigger] good_replies(a1, y1, waits, a2, y2) && performed(replies)
                == good_actions(a1, y1, waits, a2, y2),
{
    let failed = after(replies).failed;
    let sound = if failed {
        replies.drop_last()
    } else {
        replies
    };
    let (a1, y1, waits, a2, y2) = lemma_run_so_far(sound);
    let good = good_replies(a1, y1, waits, a2, y2);
    law_good_run(a1, y1, waits, a2, y2);
    let n = sound.len() as int;
    lemma_performed_prefix(good, n);
    assert(sound =~= good.take(n));
    if failed {
        assert(n < good.len());
        lemma_performed_prefix(good, n + 1);
        assert(good.take(n + 1).drop_last() =~= good.take(n));
        assert(performed(replies) == performed(good.take(n + 1)));
    }
    assert(performed(replies).is_prefix_of(good_actions(a1, y1, waits, a2, y2)));
    if !failed {
        assert(replies.is_prefix_of(good));
    }
    if after(replies).is_finished() {
        assert(replies =~= good);
    }
}

} // verus!
