//! Delivery guarantee levels of the messaging protocol.

use vstd::prelude::*;

verus! {

/// How hard the broker and the client try to deliver a message.
#[derive(Clone, Copy, Debug, PartialEq, Eq, Structural)]
pub enum QosLevel {
    AtMostOnce,
    AtLeastOnce,
    ExactlyOnce,
}

/// The level that a number given on the command line selects: 0, 1 and 2
/// name the three levels, and every other number falls back to at-least-once.
pub open spec fn level_of(number: u8) -> QosLevel {
    if number == 0 {
        QosLevel::AtMostOnce
    } else if number == 2 {
        QosLevel::ExactlyOnce
    } else {
        QosLevel::AtLeastOnce
    }
}

impl QosLevel {
    /// The number that the protocol uses for this level.
    pub open spec fn spec_number(self) -> u8 {
        match self {
            QosLevel::AtMostOnce => 0,
            QosLevel::AtLeastOnce => 1,
            QosLevel::ExactlyOnce => 2,
        }
    }

    /// Selects the level for a number, falling back to at-least-once.
    pub fn from_number(number: u8) -> (level: QosLevel)
        ensures
            level == level_of(number),
    {
        match number {
            0 => QosLevel::AtMostOnce,
            1 => QosLevel::AtLeastOnce,
            2 => QosLevel::ExactlyOnce,
            _ => QosLevel::AtLeastOnce,
        }
    }

    /// The number that the protocol uses for this level.
    pub fn number(self) -> (number: u8)
        ensures
            number == self.spec_number(),
            number <= 2,
            level_of(number) == self,
    {
        match self {
            QosLevel::AtMostOnce => 0,
            QosLevel::AtLeastOnce => 1,
            QosLevel::ExactlyOnce => 2,
        }
    }
}

/// Every level is selected by its own number, and a number above 2 selects
/// the same level as 1.
pub proof fn lemma_level_round_trip(level: QosLevel, number: u8)
    ensures
        level_of(level.spec_number()) == level,
        number <= 2 ==> level_of(number).spec_number() == number,
        number > 2 ==> level_of(number) == level_of(1),
{
}

} // verus!
