use vstd::prelude::*;

use crate::action::{Action, EventType};
use crate::store::Reducer;

verus! {

/// The sample application state.
#[derive(Clone, Copy, Debug, PartialEq, Eq, Structural)]
pub struct StoreData {
    pub a: i32,
    pub b: i32,
}

/// How much an event of kind `event` adds to field `a`.
pub open spec fn event_step(event: EventType) -> int {
    match event {
        EventType::Attack => 2,
        EventType::Move => 4,
    }
}

/// Whether the sample reducer can apply `action` to `state` without leaving
/// the range of `i32`.
pub open spec fn reducer_admits(action: Action, state: StoreData) -> bool {
    state.a + event_step(action.event) <= i32::MAX
}

/// The sample reducer's result: `a` grows by the event's step, every other
/// field is copied.
pub open spec fn spec_reducer(action: Action, state: StoreData) -> StoreData {
    StoreData { a: (state.a + event_step(action.event)) as i32, ..state }
}

/// The sample reducer: an attack adds 2 to `a`, a move adds 4, and every
/// other field keeps its value.
pub fn reducer(action: Action, state: StoreData) -> (r: StoreData)
    requires
        reducer_admits(action, state),
    ensures
        r == spec_reducer(action, state),
        action.event == EventType::Attack ==> r.a == state.a + 2,
        action.event == EventType::Move ==> r.a == state.a + 4,
        r.b == state.b,
{
    match action.event {
        EventType::Attack => StoreData { a: state.a + 2, ..state },
        EventType::Move => StoreData { a: state.a + 4, ..state },
    }
}

/// The sample reducer as a value that a store can hold.
#[derive(Clone, Copy, Debug, PartialEq, Eq, Structural)]
pub struct SampleReducer;

impl Reducer<StoreData> for SampleReducer {
    open spec fn admits(&self, action: Action, state: StoreData) -> bool {
        reducer_admits(action, state)
    }

    open spec fn spec_reduce(&self, action: Action, state: StoreData) -> StoreData {
        spec_reducer(action, state)
    }

    fn reduce(&self, action: Action, state: StoreData) -> (r: StoreData) {
        reducer(action, state)
    }
}

} // verus!
