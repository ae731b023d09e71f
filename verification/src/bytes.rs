//! Prefix and suffix tests on raw byte strings.

use vstd::prelude::*;

verus! {

/// Whether `bytes` begins with `prefix`, byte for byte.
pub fn starts_with(bytes: &[u8], prefix: &[u8]) -> (found: bool)
    ensures
        found == prefix@.is_prefix_of(bytes@),
{
    if prefix.len() > bytes.len() {
        return false;
    }
    let mut i: usize = 0;
    while i < prefix.len()
        invariant
            prefix.len() <= bytes.len(),
            i <= prefix.len(),
            forall|k: int| 0 <= k < i ==> prefix@[k] == bytes@[k],
        decreases prefix.len() - i,
    {
        if prefix[i] != bytes[i] {
            assert(prefix@[i as int] != bytes@.subrange(0, prefix@.len() as int)[i as int]);
            return false;
        }
        i += 1;
    }
    assert(prefix@ =~= bytes@.subrange(0, prefix@.len() as int));
    true
}

/// Whether `bytes` ends with `suffix`, byte for byte.
pub fn ends_with(bytes: &[u8], suffix: &[u8]) -> (found: bool)
    ensures
        found == suffix@.is_suffix_of(bytes@),
{
    if suffix.len() > bytes.len() {
        return false;
    }
    let start: usize = bytes.len() - suffix.len();
    let mut i: usize = 0;
    while i < suffix.len()
        invariant
            suffix.len() <= bytes.len(),
            start == bytes.len() - suffix.len(),
            i <= suffix.len(),
            forall|k: int| 0 <= k < i ==> suffix@[k] == bytes@[start + k],
        decreases suffix.len() - i,
    {
        if suffix[i] != bytes[start + i] {
            assert(suffix@[i as int] != bytes@.subrange(
                start as int,
                bytes@.len() as int,
            )[i as int]);
            return false;
        }
        i += 1;
    }
    assert(suffix@ =~= bytes@.subrange(start as int, bytes@.len() as int));
    true
}

} // verus!
