use vstd::prelude::*;

verus! {

/// A function that adds `a` to its argument; it is defined where the sum
/// fits in `u32`.
pub fn add(a: u32) -> (f: impl Fn(u32) -> u32)
    ensures
        forall|b: u32| a + b <= u32::MAX ==> #[trigger] f.requires((b,)),
        forall|b: u32, c: u32| #[trigger] f.ensures((b,), c) ==> c == a + b,
{
    move |b: u32| -> (c: u32)
        requires
            a + b <= u32::MAX,
        ensures
            c == a + b,
        { a + b }
}

/// The same function as `add`, on the heap.
pub fn add_boxed(a: u32) -> Box<impl Fn(u32) -> u32> {
    let f = move |b: u32| -> (c: u32)
        requires
            a + b <= u32::MAX,
        ensures
            c == a + b,
        { a + b };
    Box::new(f)
}

} // verus!
