use vstd::prelude::*;

verus! {

/// `name` is one of `names`.
pub open spec fn contains_name(names: Seq<String>, name: Seq<char>) -> bool {
    exists|i: int| 0 <= i < names.len() && (#[trigger] names[i])@ == name
}

/// Every name of `required` is one of `available`.
pub open spec fn includes_all(available: Seq<String>, required: Seq<String>) -> bool {
    forall|k: int| 0 <= k < required.len() ==> contains_name(available, (#[trigger] required[k])@)
}

/// Whether `name` is in the list.
pub fn list_contains(names: &Vec<String>, name: &String) -> (r: bool)
    ensures
        r == contains_name(names@, name@),
{
    let mut i: usize = 0;
    while i < names.len()
        invariant
            0 <= i <= names@.len(),
            forall|j: int| 0 <= j < i ==> (#[trigger] names@[j])@ != name@,
        decreases names@.len() - i,
    {
        if names[i] == *name {
            return true;
        }
        i = i + 1;
    }
    false
}

/// Whether every required name is available: what is left of `required`
/// after intersecting it with `available` is `required` itself.
pub fn list_includes_all(available: &Vec<String>, required: &Vec<String>) -> (r: bool)
    ensures
        r == includes_all(available@, required@),
{
    let mut k: usize = 0;
    while k < required.len()
        invariant
            0 <= k <= required@.len(),
            forall|j: int|
                0 <= j < k ==> contains_name(available@, (#[trigger] required@[j])@),
        decreases required@.len() - k,
    {
        if !list_contains(available, &required[k]) {
            return false;
        }
        k = k + 1;
    }
    true
}

} // verus!
