//! Handing out the items of a slice one by one.

use vstd::prelude::*;

verus! {

/// A mutable reference to each item of a slice, in the order of the slice.
///
/// What is written through the reference at some place is what the slice
/// holds at that place once the references are gone.
pub fn each_mut<'a, T>(items: &'a mut [T]) -> (each: Vec<&'a mut T>)
    ensures
        each@.len() == old(items)@.len(),
        forall|i: int| 0 <= i < each@.len() ==> *(#[trigger] each@[i]) == old(items)@[i],
        final(items)@.len() == each@.len(),
        forall|i: int| 0 <= i < each@.len() ==> final(items)@[i] == *final(#[trigger] each@[i]),
{
    let ghost before = items@;
    let ghost end = final(items)@;
    let mut each: Vec<&'a mut T> = Vec::new();
    let mut rest: &'a mut [T] = items;
    loop
        invariant
            each@.len() + rest@.len() == before.len(),
            forall|i: int| 0 <= i < each@.len() ==> *(#[trigger] each@[i]) == before[i],
            forall|i: int| 0 <= i < rest@.len() ==> rest@[i] == before[each@.len() + i],
            end.len() == each@.len() + final(rest)@.len(),
            forall|i: int| 0 <= i < each@.len() ==> end[i] == *final(#[trigger] each@[i]),
            forall|i: int|
                0 <= i < final(rest)@.len() ==> end[each@.len() + i] == final(rest)@[i],
        ensures
            each@.len() == before.len(),
            forall|i: int| 0 <= i < each@.len() ==> *(#[trigger] each@[i]) == before[i],
            end.len() == each@.len(),
            forall|i: int| 0 <= i < each@.len() ==> end[i] == *final(#[trigger] each@[i]),
        decreases rest@.len(),
    {
        if rest.len() == 0 {
            break ;
        }
        let current = rest;
        let ghost split = final(current)@;
        let (head, tail) = current.split_at_mut(1);
        let first = &mut head[0];
        proof {
            let count = each@.len() as int;
            assert(split[0] == *final(first));
            let ahead = final(tail)@;
            assert forall|i: int| 0 <= i < ahead.len() implies end[count + 1 + i] == ahead[i] by {
                assert(split[1 + i] == final(tail)@[i]);
                assert(end[count + (1 + i)] == split[1 + i]);
            }
            assert(end[count + 0] == split[0]);
        }
        each.push(first);
        rest = tail;
    }
    each
}

} // verus!
