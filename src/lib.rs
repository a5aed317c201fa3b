pub mod action;
pub mod adder;
pub mod game;
pub mod store;

pub use action::{Action, EventType};
pub use adder::{add, add_boxed};
pub use game::{reducer, SampleReducer, StoreData};
pub use store::{Reducer, Store};
