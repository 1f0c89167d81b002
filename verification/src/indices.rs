//! A set of column positions, kept as a list.

use vstd::prelude::*;

verus! {

/// Whether `index` is in the list.
pub fn contains_index(indices: &Vec<usize>, index: usize) -> (found: bool)
    ensures
        found == indices@.to_set().contains(index),
{
    let mut i: usize = 0;
    while i < indices.len()
        invariant
            i <= indices.len(),
            forall|j: int| 0 <= j < i ==> indices@[j] != index,
        decreases indices.len() - i,
    {
        if indices[i] == index {
            assert(indices@.contains(index));
            return true;
        }
        i += 1;
    }
    assert(!indices@.contains(index));
    false
}

/// Adds `index` to the set that the list stands for.
pub fn insert_index(indices: &mut Vec<usize>, index: usize)
    ensures
        final(indices)@.to_set() == old(indices)@.to_set().insert(index),
{
    if !contains_index(indices, index) {
        indices.push(index);
        assert forall|x: usize| final(indices)@.contains(x) <==> (old(indices)@.contains(x) || x
            == index) by {
            if final(indices)@.contains(x) {
                let k = choose|k: int| 0 <= k < final(indices)@.len() && final(indices)@[k] == x;
                if k < old(indices)@.len() {
                    assert(old(indices)@[k] == x);
                }
            }
            if old(indices)@.contains(x) {
                let k = choose|k: int| 0 <= k < old(indices)@.len() && old(indices)@[k] == x;
                assert(final(indices)@[k] == x);
            }
            if x == index {
                assert(final(indices)@[old(indices)@.len() as int] == x);
            }
        }
    }
    assert(final(indices)@.to_set() =~= old(indices)@.to_set().insert(index));
}

/// Takes `index` out of the set that the list stands for.
pub fn remove_index(indices: &mut Vec<usize>, index: usize)
    ensures
        final(indices)@.to_set() == old(indices)@.to_set().remove(index),
{
    let ghost before = indices@;
    let mut i: usize = 0;
    while i < indices.len()
        invariant
            i <= indices.len(),
            forall|j: int| 0 <= j < i ==> indices@[j] != index,
            forall|x: usize| x != index ==> (indices@.contains(x) <==> before.contains(x)),
        decreases indices.len() - i,
    {
        if indices[i] == index {
            let ghost current = indices@;
            indices.remove(i);
            assert forall|x: usize| x != index implies (indices@.contains(x) <==> before.contains(
                x,
            )) by {
                if indices@.contains(x) {
                    let k = choose|k: int| 0 <= k < indices@.len() && indices@[k] == x;
                    if k < i {
                        assert(current[k] == x);
                    } else {
                        assert(current[k + 1] == x);
                    }
                }
                if current.contains(x) {
                    let k = choose|k: int| 0 <= k < current.len() && current[k] == x;
                    if k < i {
                        assert(indices@[k] == x);
                    } else {
                        assert(indices@[k - 1] == x);
                    }
                }
            }
        } else {
            i += 1;
        }
    }
    assert(!indices@.contains(index));
    assert(final(indices)@.to_set() =~= old(indices)@.to_set().remove(index));
}

} // verus!
