use reducer_store::{add, add_boxed};

#[test]
fn add_returns_adder() {
    let x = add(5);
    assert_eq!(x(5), 10);
    assert_eq!(x(0), 5);
    assert_eq!(reducer_store::add(0)(u32::MAX), u32::MAX);
}

#[test]
fn add_boxed_returns_adder() {
    let x_boxed = add_boxed(5);
    assert_eq!(x_boxed(5), 10);
    assert_eq!(x_boxed(u32::MAX - 5), u32::MAX);
}
