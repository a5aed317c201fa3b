use vstd::prelude::*;

verus! {

/// The kind of event that an action reports.
#[derive(Clone, Copy, Debug, PartialEq, Eq, Structural)]
pub enum EventType {
    Attack,
    Move,
}

/// Something that happened: an immutable value handed to every reducer of a store.
#[derive(Clone, Copy, Debug, PartialEq, Eq, Structural)]
pub struct Action {
    pub event: EventType,
}

} // verus!
