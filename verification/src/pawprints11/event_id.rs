//! Event identifiers.

use crate::error::Error;
use vstd::prelude::*;

verus! {

/// A valid PawPrints event identifier (`1..=24`).
#[derive(Clone, Copy, Debug, PartialEq, Eq, Hash, Structural)]
pub struct EventId(u8);

impl EventId {
    #[verifier::type_invariant]
    spec fn in_range(self) -> bool {
        1 <= self.0 <= 24
    }

    /// The number of this event.
    pub closed spec fn number(self) -> u8 {
        self.0
    }

    /// The event with this number, if there is one.
    pub closed spec fn of_number(value: u8) -> Option<Self> {
        if 1 <= value <= 24 {
            Some(EventId(value))
        } else {
            None
        }
    }

    /// Validate and construct an event identifier.
    pub fn new(value: u8) -> (result: Result<Self, Error>)
        ensures
            match result {
                Ok(id) => 1 <= value <= 24 && id.number() == value && EventId::of_number(value)
                    == Some(id),
                Err(error) => !(1 <= value <= 24) && EventId::of_number(value) is None && error
                    == Error::InvalidPawPrintsSettings("event id must be in 1..=24"),
            },
    {
        if 1 <= value && value <= 24 {
            Ok(EventId(value))
        } else {
            Err(Error::InvalidPawPrintsSettings("event id must be in 1..=24"))
        }
    }

    /// Return the raw identifier.
    pub fn get(self) -> (value: u8)
        ensures
            value == self.number(),
            1 <= value <= 24,
    {
        proof {
            use_type_invariant(&self);
        }
        self.0
    }
}

/// An event is found by its number, only the numbers `1..=24` stand for events, and no two events
/// have the same number.
pub proof fn event_numbers(value: u8, first: EventId, second: EventId)
    ensures
        EventId::of_number(value) is Some <==> 1 <= value <= 24,
        EventId::of_number(value) matches Some(id) ==> id.number() == value,
        1 <= first.number() <= 24 ==> EventId::of_number(first.number()) == Some(first),
        first.number() == second.number() ==> first == second,
{
}

} // verus!
