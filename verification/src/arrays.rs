//! Helpers over vectors of integers: the largest element, and splitting at an
//! index.

use vstd::prelude::*;

verus! {

/// Returns the largest element of a non-empty list.
pub fn largest(list: &Vec<i32>) -> (r: i32)
    requires
        list@.len() > 0,
    ensures
        list@.contains(r),
        forall|i: int| 0 <= i < list@.len() ==> list@[i] <= r,
{
    let mut largest = list[0];
    let mut j: usize = 1;
    while j < list.len()
        invariant
            1 <= j <= list@.len(),
            list@.contains(largest),
            forall|i: int| 0 <= i < j ==> list@[i] <= largest,
        decreases list@.len() - j,
    {
        if list[j] > largest {
            largest = list[j];
        }
        j = j + 1;
    }
    largest
}

/// Splits a list in two at `mid`: the first `mid` elements, and the rest.
pub fn split_at_mut(slice: &Vec<i32>, mid: usize) -> (r: (Vec<i32>, Vec<i32>))
    requires
        mid <= slice@.len(),
    ensures
        r.0@ == slice@.subrange(0, mid as int),
        r.1@ == slice@.subrange(mid as int, slice@.len() as int),
{
    let mut front: Vec<i32> = Vec::new();
    let mut back: Vec<i32> = Vec::new();
    let mut j: usize = 0;
    while j < mid
        invariant
            mid <= slice@.len(),
            j <= mid,
            front@ == slice@.subrange(0, j as int),
        decreases mid - j,
    {
        front.push(slice[j]);
        proof {
            assert(front@ =~= slice@.subrange(0, j + 1));
        }
        j = j + 1;
    }
    let mut k: usize = mid;
    while k < slice.len()
        invariant
            mid <= k <= slice@.len(),
            back@ == slice@.subrange(mid as int, k as int),
        decreases slice@.len() - k,
    {
        back.push(slice[k]);
        proof {
            assert(back@ =~= slice@.subrange(mid as int, k + 1));
        }
        k = k + 1;
    }
    (front, back)
}

} // verus!
