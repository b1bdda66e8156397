//! Servicing a finished conversion.
//!
//! When the first ADC has delivered a word, the service routine reads both ADCs, runs each sample
//! through its channel's filter and sends the results to both DACs, while a pin is held high. The
//! routine itself is a [`Conversion`]: it says which action comes next and is told how that went.
//! The peripherals and the filters, which work on floating-point numbers, are the caller's.

use crate::sample::{adc_sample, dac_code, offset_binary, twos_complement};
use vstd::prelude::*;

verus! {

/// One of the two signal channels: an ADC, a filter and a DAC.
#[derive(Clone, Copy, Debug, PartialEq, Eq, Structural)]
pub enum Channel {
    First,
    Second,
}

/// A stage of the routine.
#[derive(Clone, Copy, Debug, PartialEq, Eq, Structural)]
pub enum Stage {
    /// Set the DAC pin high.
    RaisePin,
    /// Read a word from the ADC.
    Read(Channel),
    /// Run the sample through the filter.
    Filter(Channel),
    /// Clear the ADC's end-of-transfer flag.
    Clear(Channel),
    /// Send a word to the DAC.
    Send(Channel),
    /// Set the DAC pin low.
    LowerPin,
}

/// A stage with what it needs.
#[derive(Clone, Copy, Debug, PartialEq, Eq, Structural)]
pub enum Action {
    RaisePin,
    Read(Channel),
    Filter { channel: Channel, x: i16 },
    Clear(Channel),
    Send { channel: Channel, code: u16 },
    LowerPin,
}

/// How an action went.
#[derive(Clone, Copy, Debug, PartialEq, Eq, Structural)]
pub enum Reply {
    /// It was carried out.
    Done,
    /// The ADC delivered this word.
    Sample(u16),
    /// The filter's output, as a sample.
    Filtered(i16),
    /// The peripheral was not ready.
    WouldBlock,
    /// The peripheral reported an error.
    Failed,
}

/// The state of the routine, in terms of its stages.
pub struct Run {
    /// The number of stages that are done.
    pub done: int,
    /// Whether an action failed.
    pub failed: bool,
    /// The sample that was read last.
    pub x: i16,
    /// The word for the first DAC.
    pub first: u16,
    /// The word for the second DAC.
    pub second: u16,
}

/// The stages, in order.
pub open spec fn stages() -> Seq<Stage> {
    seq![
        Stage::RaisePin,
        Stage::Read(Channel::First),
        Stage::Filter(Channel::First),
        Stage::Clear(Channel::First),
        Stage::Read(Channel::Second),
        Stage::Filter(Channel::Second),
        Stage::Clear(Channel::Second),
        Stage::Send(Channel::First),
        Stage::Send(Channel::Second),
        Stage::LowerPin,
    ]
}

impl Action {
    /// The stage that an action carries out.
    pub open spec fn stage(self) -> Stage {
        match self {
            Action::RaisePin => Stage::RaisePin,
            Action::Read(channel) => Stage::Read(channel),
            Action::Filter { channel, x: _ } => Stage::Filter(channel),
            Action::Clear(channel) => Stage::Clear(channel),
            Action::Send { channel, code: _ } => Stage::Send(channel),
            Action::LowerPin => Stage::LowerPin,
        }
    }

    /// Whether an action can have this reply. A filter cannot fail, nor can the write that clears
    /// a flag.
    pub open spec fn can_reply(self, reply: Reply) -> bool {
        match self {
            Action::RaisePin | Action::LowerPin => reply is Done || reply is Failed,
            Action::Read(_) => reply is Sample || reply is WouldBlock || reply is Failed,
            Action::Filter { channel: _, x: _ } => reply is Filtered,
            Action::Clear(_) => reply is Done,
            Action::Send { channel: _, code: _ } => {
                reply is Done || reply is WouldBlock || reply is Failed
            },
        }
    }
}

impl Run {
    /// Nothing is done yet.
    pub open spec fn start() -> Run {
        Run { done: 0, failed: false, x: 0, first: 0, second: 0 }
    }

    /// All stages are done.
    pub open spec fn is_finished(self) -> bool {
        self.done == stages().len() && !self.failed
    }

    /// What is to be done now; nothing once the routine has finished or failed.
    pub open spec fn action(self) -> Option<Action> {
        if self.failed || !(0 <= self.done < stages().len()) {
            None
        } else {
            Some(
                match stages()[self.done] {
                    Stage::RaisePin => Action::RaisePin,
                    Stage::Read(channel) => Action::Read(channel),
                    Stage::Filter(channel) => Action::Filter { channel, x: self.x },
                    Stage::Clear(channel) => Action::Clear(channel),
                    Stage::Send(channel) => Action::Send { channel, code: self.code(channel) },
                    Stage::LowerPin => Action::LowerPin,
                },
            )
        }
    }

    /// The word for a channel's DAC.
    pub open spec fn code(self, channel: Channel) -> u16 {
        match channel {
            Channel::First => self.first,
            Channel::Second => self.second,
        }
    }

    /// Whether the action is to be repeated: the second ADC is waited for, and nothing else.
    pub open spec fn retries(self, reply: Reply) -> bool {
        self.action() == Some(Action::Read(Channel::Second)) && reply is WouldBlock
    }

    /// The state after a reply.
    pub open spec fn next(self, reply: Reply) -> Run {
        let stage = stages()[self.done];
        if self.retries(reply) {
            self
        } else {
            match reply {
                Reply::WouldBlock | Reply::Failed => Run { failed: true, ..self },
                Reply::Done => Run { done: self.done + 1, ..self },
                Reply::Sample(code) => Run {
                    done: self.done + 1,
                    x: twos_complement(code) as i16,
                    ..self
                },
                Reply::Filtered(y) => if stage == Stage::Filter(Channel::First) {
                    Run { done: self.done + 1, first: offset_binary(y as int) as u16, ..self }
                } else {
                    Run { done: self.done + 1, second: offset_binary(y as int) as u16, ..self }
                },
            }
        }
    }
}

/// The service routine for a finished conversion.
#[derive(Clone, Copy, Debug)]
pub struct Conversion {
    /// The stage that is to be done now, if any.
    stage: Option<Stage>,
    failed: bool,
    x: i16,
    first: u16,
    second: u16,
}

/// The position of a stage among [`stages`].
spec fn position(stage: Stage) -> int {
    match stage {
        Stage::RaisePin => 0,
        Stage::Read(Channel::First) => 1,
        Stage::Filter(Channel::First) => 2,
        Stage::Clear(Channel::First) => 3,
        Stage::Read(Channel::Second) => 4,
        Stage::Filter(Channel::Second) => 5,
        Stage::Clear(Channel::Second) => 6,
        Stage::Send(Channel::First) => 7,
        Stage::Send(Channel::Second) => 8,
        Stage::LowerPin => 9,
    }
}

/// The stage after this one.
fn following(stage: Stage) -> (r: Option<Stage>)
    ensures
        stages()[position(stage)] == stage,
        match r {
            Some(s) => position(s) == position(stage) + 1,
            None => position(stage) + 1 == stages().len(),
        },
{
    match stage {
        Stage::RaisePin => Some(Stage::Read(Channel::First)),
        Stage::Read(channel) => Some(Stage::Filter(channel)),
        Stage::Filter(channel) => Some(Stage::Clear(channel)),
        Stage::Clear(Channel::First) => Some(Stage::Read(Channel::Second)),
        Stage::Clear(Channel::Second) => Some(Stage::Send(Channel::First)),
        Stage::Send(Channel::First) => Some(Stage::Send(Channel::Second)),
        Stage::Send(Channel::Second) => Some(Stage::LowerPin),
        Stage::LowerPin => None,
    }
}

impl View for Conversion {
    type V = Run;

    closed spec fn view(&self) -> Run {
        Run {
            done: match self.stage {
                Some(stage) => position(stage),
                None => stages().len() as int,
            },
            failed: self.failed,
            x: self.x,
            first: self.first,
            second: self.second,
        }
    }
}

impl Conversion {
    /// The routine at its start.
    pub fn new() -> (conversion: Self)
        ensures
            conversion@ == Run::start(),
    {
        Conversion { stage: Some(Stage::RaisePin), failed: false, x: 0, first: 0, second: 0 }
    }

    /// What is to be done now; `None` once the routine has finished or failed.
    pub fn action(&self) -> (r: Option<Action>)
        ensures
            r == self@.action(),
    {
        if self.failed {
            return None;
        }
        match self.stage {
            None => None,
            Some(stage) => Some(
                match stage {
                    Stage::RaisePin => Action::RaisePin,
                    Stage::Read(channel) => Action::Read(channel),
                    Stage::Filter(channel) => Action::Filter { channel, x: self.x },
                    Stage::Clear(channel) => Action::Clear(channel),
                    Stage::Send(Channel::First) => Action::Send {
                        channel: Channel::First,
                        code: self.first,
                    },
                    Stage::Send(Channel::Second) => Action::Send {
                        channel: Channel::Second,
                        code: self.second,
                    },
                    Stage::LowerPin => Action::LowerPin,
                },
            ),
        }
    }

    /// Whether an action failed, so that the routine stopped before its end.
    pub fn failed(&self) -> (r: bool)
        ensures
            r == self@.failed,
    {
        self.failed
    }

    /// Takes note of how the current action went.
    pub fn reply(&mut self, reply: Reply)
        requires
            old(self)@.action() matches Some(action) && action.can_reply(reply),
        ensures
            final(self)@ == old(self)@.next(reply),
    {
        let Some(stage) = self.stage else {
            return;
        };
        match reply {
            Reply::WouldBlock => {
                if stage != Stage::Read(Channel::Second) {
                    self.failed = true;
                }
                return;
            },
            Reply::Failed => {
                self.failed = true;
                return;
            },
            Reply::Done => {},
            Reply::Sample(code) => {
                self.x = adc_sample(code);
            },
            Reply::Filtered(y) => {
                if stage == Stage::Filter(Channel::First) {
                    self.first = dac_code(y);
                } else {
                    self.second = dac_code(y);
                }
            },
        }
        self.stage = following(stage);
    }
}

} // verus!
