//! Searching one slice for another.

use vstd::prelude::*;
use vstd::std_specs::cmp::PartialEqSpec;

verus! {

/// `left` and `right` agree on every index that both have.
pub open spec fn agree_on_common<T: PartialEq>(left: Seq<T>, right: Seq<T>) -> bool {
    forall|i: int| 0 <= i < left.len() && i < right.len() ==>
        (#[trigger] left[i]).eq_spec(&right[i])
}

/// `needle` stands in `haystack` at the index `at`.
pub open spec fn occurs_at<T: PartialEq>(haystack: Seq<T>, needle: Seq<T>, at: int) -> bool {
    &&& 0 <= at
    &&& at + needle.len() <= haystack.len()
    &&& forall|j: int| 0 <= j < needle.len() ==> (#[trigger] haystack[at + j]).eq_spec(&needle[j])
}

/// Whether `left` and `right` hold equal items as far as both reach.
pub fn starts_with<T: PartialEq>(left: &[T], right: &[T]) -> (result: bool)
    ensures
        T::obeys_eq_spec() ==> result == agree_on_common(left@, right@),
{
    let mut i: usize = 0;
    while i < left.len() && i < right.len()
        invariant
            T::obeys_eq_spec() ==> forall|k: int| 0 <= k < i ==>
                (#[trigger] left@[k]).eq_spec(&right@[k]),
        decreases left@.len() - i,
    {
        if left[i] != right[i] {
            return false;
        }
        i += 1;
    }
    true
}

/// The first index at which `needle` stands in `haystack`, `0` for an empty
/// needle, and `-1` where the needle does not occur.
pub fn search_pattern<T: PartialEq>(haystack: &[T], needle: &[T]) -> (result: i32)
    requires
        haystack@.len() <= i32::MAX,
    ensures
        needle@.len() == 0 ==> result == 0,
        T::obeys_eq_spec() && needle@.len() > 0 && result >= 0 ==> occurs_at(
            haystack@,
            needle@,
            result as int,
        ) && forall|k: int| 0 <= k < result ==> !occurs_at(haystack@, needle@, k),
        T::obeys_eq_spec() && needle@.len() > 0 && result < 0 ==> result == -1 && forall|k: int|
            !occurs_at(haystack@, needle@, k),
{
    if needle.len() == 0 {
        return 0;
    }
    let mut start: usize = 0;
    let mut i: i32 = 0;
    while start < haystack.len()
        invariant
            start <= haystack@.len() <= i32::MAX,
            i == start,
            needle@.len() > 0,
            T::obeys_eq_spec() ==> forall|k: int| 0 <= k < start ==>
                !occurs_at(haystack@, needle@, k),
        decreases haystack@.len() - start,
    {
        if needle.len() <= haystack.len() - start {
            let mut j: usize = 0;
            let mut matched: bool = true;
            while matched && j < needle.len()
                invariant
                    j <= needle@.len(),
                    start + needle@.len() <= haystack@.len() <= i32::MAX,
                    T::obeys_eq_spec() && matched ==> forall|n: int|
                        0 <= n < j ==> (#[trigger] haystack@[start + n]).eq_spec(&needle@[n]),
                    T::obeys_eq_spec() && !matched ==> !occurs_at(haystack@, needle@, start as int),
                decreases needle@.len() - j + (if matched { 1int } else { 0int }),
            {
                if haystack[start + j] != needle[j] {
                    matched = false;
                    assert(T::obeys_eq_spec() ==> !haystack@[start + j].eq_spec(&needle@[j as int]));
                } else {
                    j += 1;
                }
            }
            if matched {
                return i;
            }
        }
        i += 1;
        start += 1;
    }
    assert(T::obeys_eq_spec() ==> forall|k: int| !occurs_at(haystack@, needle@, k)) by {
        if T::obeys_eq_spec() {
            assert forall|k: int| !occurs_at(haystack@, needle@, k) by {
                if k >= haystack@.len() {
                }
            }
        }
    }
    -1
}

/// The number of items in `items`.
pub fn count_iter<T>(items: &[T]) -> (n: usize)
    ensures
        n == items@.len(),
{
    items.len()
}

} // verus!
