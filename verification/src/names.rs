use vstd::prelude::*;
use vstd::string::*;

verus! {

/// The bytes of an ASCII string, one per character.
pub open spec fn ascii_bytes(s: Seq<char>) -> Seq<u8> {
    Seq::new(s.len(), |i: int| s[i] as u8)
}

/// Some entry of `names` spells `name`.
pub open spec fn names_contain(names: Seq<Vec<u8>>, name: Seq<u8>) -> bool {
    exists|i: int| 0 <= i < names.len() && #[trigger] names[i]@ == name
}

/// Every name of `required` is among `names`.
pub open spec fn names_contain_all(names: Seq<Vec<u8>>, required: Seq<Vec<u8>>) -> bool {
    forall|j: int| 0 <= j < required.len() ==> names_contain(names, #[trigger] required[j]@)
}

/// The bytes of an ASCII string (a layer or extension name).
pub fn name_bytes(s: &str) -> (bytes: Vec<u8>)
    requires
        is_ascii(s),
    ensures
        bytes@ == ascii_bytes(s@),
{
    proof {
        broadcast use is_ascii_spec_bytes;
    }
    let b = s.as_bytes();
    let mut bytes: Vec<u8> = Vec::new();
    let mut i: usize = 0;
    while i < b.len()
        invariant
            i <= b.len(),
            b@ == s.spec_bytes(),
            is_ascii(s),
            b@.len() == s@.len(),
            bytes@ == ascii_bytes(s@).take(i as int),
        decreases b.len() - i,
    {
        proof {
            broadcast use is_ascii_spec_bytes;
        }
        bytes.push(b[i]);
        i = i + 1;
    }
    bytes
}

/// Compares two names byte by byte.
pub fn same_name(a: &Vec<u8>, b: &Vec<u8>) -> (same: bool)
    ensures
        same == (a@ == b@),
{
    if a.len() != b.len() {
        return false;
    }
    let mut i: usize = 0;
    while i < a.len()
        invariant
            i <= a.len() == b.len(),
            forall|j: int| 0 <= j < i ==> a@[j] == b@[j],
        decreases a.len() - i,
    {
        if a[i] != b[i] {
            return false;
        }
        i = i + 1;
    }
    assert(a@ =~= b@);
    true
}

/// Looks `name` up in `names`.
pub fn contains_name(names: &Vec<Vec<u8>>, name: &Vec<u8>) -> (found: bool)
    ensures
        found == names_contain(names@, name@),
{
    let mut i: usize = 0;
    while i < names.len()
        invariant
            i <= names.len(),
            forall|j: int| 0 <= j < i ==> names@[j]@ != name@,
        decreases names.len() - i,
    {
        if same_name(&names[i], name) {
            assert(names@[i as int]@ == name@);
            return true;
        }
        i = i + 1;
    }
    false
}

/// Whether every name of `required` is among `names`.
pub fn contains_all_names(names: &Vec<Vec<u8>>, required: &Vec<Vec<u8>>) -> (found: bool)
    ensures
        found == names_contain_all(names@, required@),
{
    let mut j: usize = 0;
    while j < required.len()
        invariant
            j <= required.len(),
            forall|k: int| 0 <= k < j ==> names_contain(names@, #[trigger] required@[k]@),
        decreases required.len() - j,
    {
        if !contains_name(names, &required[j]) {
            return false;
        }
        j = j + 1;
    }
    true
}

} // verus!
