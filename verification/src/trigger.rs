//! Starting a conversion.
//!
//! On each tick of the sample timer the routine here starts a transfer on both ADCs, while a pin
//! is held high. As with [`crate::conversion::Conversion`], it names the actions and the caller
//! performs them.

use crate::conversion::Channel;
use vstd::prelude::*;

verus! {

/// An action of the routine.
#[derive(Clone, Copy, Debug, PartialEq, Eq, Structural)]
pub enum TriggerAction {
    /// Clear the timer's update flag.
    ClearFlag,
    /// Set the debug pin high.
    RaisePin,
    /// Start a transfer on an ADC.
    Start(Channel),
    /// Set the debug pin low.
    LowerPin,
}

/// The state of the routine, in terms of its actions.
pub struct TriggerRun {
    /// The number of actions that are done.
    pub done: int,
    /// Whether an action failed.
    pub failed: bool,
}

/// The actions, in order.
pub open spec fn trigger_actions() -> Seq<TriggerAction> {
    seq![
        TriggerAction::ClearFlag,
        TriggerAction::RaisePin,
        TriggerAction::Start(Channel::First),
        TriggerAction::Start(Channel::Second),
        TriggerAction::LowerPin,
    ]
}

impl TriggerRun {
    /// Nothing is done yet.
    pub open spec fn start() -> TriggerRun {
        TriggerRun { done: 0, failed: false }
    }

    /// What is to be done now; nothing once the routine has finished or failed.
    pub open spec fn action(self) -> Option<TriggerAction> {
        if self.failed || !(0 <= self.done < trigger_actions().len()) {
            None
        } else {
            Some(trigger_actions()[self.done])
        }
    }

    /// The state after an action that succeeded or not.
    pub open spec fn next(self, ok: bool) -> TriggerRun {
        if ok {
            TriggerRun { done: self.done + 1, ..self }
        } else {
            TriggerRun { failed: true, ..self }
        }
    }

    /// The state after `n` actions that succeeded.
    pub open spec fn after(n: nat) -> TriggerRun
        decreases n,
    {
        if n == 0 {
            TriggerRun::start()
        } else {
            TriggerRun::after((n - 1) as nat).next(true)
        }
    }
}

/// The routine that starts a conversion.
#[derive(Clone, Copy, Debug)]
pub struct Trigger {
    current: Option<TriggerAction>,
    failed: bool,
}

/// The position of an action among [`trigger_actions`].
spec fn place(action: TriggerAction) -> int {
    match action {
        TriggerAction::ClearFlag => 0,
        TriggerAction::RaisePin => 1,
        TriggerAction::Start(Channel::First) => 2,
        TriggerAction::Start(Channel::Second) => 3,
        TriggerAction::LowerPin => 4,
    }
}

impl View for Trigger {
    type V = TriggerRun;

    closed spec fn view(&self) -> TriggerRun {
        TriggerRun {
            done: match self.current {
                Some(action) => place(action),
                None => trigger_actions().len() as int,
            },
            failed: self.failed,
        }
    }
}

impl Trigger {
    /// The routine at its start.
    pub fn new() -> (trigger: Self)
        ensures
            trigger@ == TriggerRun::start(),
    {
        Trigger { current: Some(TriggerAction::ClearFlag), failed: false }
    }

    /// What is to be done now; `None` once the routine has finished or failed.
    pub fn action(&self) -> (r: Option<TriggerAction>)
        ensures
            r == self@.action(),
    {
        if self.failed {
            None
        } else {
            self.current
        }
    }

    /// Whether an action failed, so that the routine stopped before its end.
    pub fn failed(&self) -> (r: bool)
        ensures
            r == self@.failed,
    {
        self.failed
    }

    /// Takes note of whether the current action succeeded.
    pub fn reply(&mut self, ok: bool)
        requires
            old(self)@.action() is Some,
        ensures
            final(self)@ == old(self)@.next(ok),
    {
        if !ok {
            self.failed = true;
            return;
        }
        self.current = match self.current {
            Some(TriggerAction::ClearFlag) => Some(TriggerAction::RaisePin),
            Some(TriggerAction::RaisePin) => Some(TriggerAction::Start(Channel::First)),
            Some(TriggerAction::Start(Channel::First)) => Some(
                TriggerAction::Start(Channel::Second),
            ),
            Some(TriggerAction::Start(Channel::Second)) => Some(TriggerAction::LowerPin),
            _ => None,
        };
    }
}

/// What the routine does from start to end: the timer's flag is cleared, the pin goes high, both
/// ADCs are started, the first one first, and the pin goes low.
pub proof fn law_trigger_run()
    ensures
        ({
            let r0 = TriggerRun::start();
            let r1 = r0.next(true);
            let r2 = r1.next(true);
            let r3 = r2.next(true);
            let r4 = r3.next(true);
            let r5 = r4.next(true);
            &&& r0.action() == Some(TriggerAction::ClearFlag)
            &&& r1.action() == Some(TriggerAction::RaisePin)
            &&& r2.action() == Some(TriggerAction::Start(Channel::First))
            &&& r3.action() == Some(TriggerAction::Start(Channel::Second))
            &&& r4.action() == Some(TriggerAction::LowerPin)
            &&& r5.action() is None
            &&& !r0.failed && !r1.failed && !r2.failed && !r3.failed && !r4.failed && !r5.failed
        }),
{
}

/// As long as nothing fails, the actions come in their order, each once, and then the routine is
/// finished.
pub proof fn law_trigger_order(n: nat)
    requires
        n <= trigger_actions().len(),
    ensures
        TriggerRun::after(n).action() == if n < trigger_actions().len() {
            Some(trigger_actions()[n as int])
        } else {
            None
        },
{
    lemma_after(n);
}

/// After `n` actions that succeeded, that many are done.
proof fn lemma_after(n: nat)
    ensures
        TriggerRun::after(n).done == n,
        !TriggerRun::after(n).failed,
    decreases n,
{
    if n > 0 {
        lemma_after((n - 1) as nat);
    }
}

/// After a failure nothing more is done.
pub proof fn law_trigger_failure(run: TriggerRun)
    ensures
        run.next(false).action() is None,
        run.next(false).failed,
{
}

} // verus!
