use reducer_store::{reducer, Action, EventType, SampleReducer, Store, StoreData};

fn attack() -> Action {
    Action { event: EventType::Attack }
}

fn move_action() -> Action {
    Action { event: EventType::Move }
}

#[test]
fn empty_store_keeps_state_on_any_action() {
    let mut store: Store<StoreData, SampleReducer> = Store::init(StoreData { a: 1, b: 2 });
    store.dispatch(attack());
    assert_eq!(store.state(), StoreData { a: 1, b: 2 });
    store.dispatch(move_action());
    assert_eq!(store.state(), StoreData { a: 1, b: 2 });
}

#[test]
fn init_holds_initial_state() {
    let store: Store<StoreData, SampleReducer> = Store::init(StoreData { a: -7, b: 40 });
    assert_eq!(store.state(), StoreData { a: -7, b: 40 });
}

#[test]
fn attack_adds_two_to_a() {
    assert_eq!(reducer(attack(), StoreData { a: 1, b: 2 }), StoreData { a: 3, b: 2 });
    assert_eq!(reducer(attack(), StoreData { a: -10, b: 9 }), StoreData { a: -8, b: 9 });
}

#[test]
fn move_adds_four_to_a() {
    assert_eq!(reducer(move_action(), StoreData { a: 1, b: 2 }), StoreData { a: 5, b: 2 });
    assert_eq!(reducer(move_action(), StoreData { a: -4, b: -1 }), StoreData { a: 0, b: -1 });
}

#[test]
fn reducer_reaches_largest_a() {
    let top = StoreData { a: i32::MAX - 2, b: 0 };
    assert_eq!(reducer(attack(), top), StoreData { a: i32::MAX, b: 0 });
    let top = StoreData { a: i32::MAX - 4, b: i32::MIN };
    assert_eq!(reducer(move_action(), top), StoreData { a: i32::MAX, b: i32::MIN });
}

#[test]
fn reducer_registered_twice_runs_twice() {
    let mut store = Store::init(StoreData { a: 1, b: 2 });
    store.add_reducer(SampleReducer);
    store.add_reducer(SampleReducer);
    store.dispatch(attack());
    assert_eq!(store.state(), StoreData { a: 5, b: 2 });
}

#[test]
fn attack_then_move_trace() {
    let mut store = Store::init(StoreData { a: 1, b: 2 });
    assert_eq!(store.state().a, 1);
    store.add_reducer(SampleReducer);
    store.dispatch(attack());
    assert_eq!(store.state(), StoreData { a: 3, b: 2 });
    store.dispatch(move_action());
    assert_eq!(store.state(), StoreData { a: 7, b: 2 });
}

#[test]
fn later_reducers_see_earlier_output() {
    let mut store = Store::init(StoreData { a: 0, b: 5 });
    store.add_reducer(SampleReducer);
    store.add_reducer(SampleReducer);
    store.add_reducer(SampleReducer);
    store.dispatch(move_action());
    assert_eq!(store.state(), StoreData { a: 12, b: 5 });
    store.dispatch(attack());
    assert_eq!(store.state(), StoreData { a: 18, b: 5 });
}
