//! Small string helpers shared by the rest of the library.

use vstd::prelude::*;

verus! {

broadcast use vstd::string::group_string_axioms;

/// Byte-for-byte equality of two strings, which coincides with equality of
/// their character sequences because UTF-8 encoding is injective.
pub fn str_eq(a: &str, b: &str) -> (r: bool)
    ensures
        r == (a@ == b@),
{
    let av = a.as_bytes_vec();
    let bv = b.as_bytes_vec();
    let r = bytes_eq(&av, &bv);
    proof {
        vstd::utf8::encode_utf8_decode_utf8(a@);
        vstd::utf8::encode_utf8_decode_utf8(b@);
    }
    r
}

/// Equality of two byte vectors.
pub fn bytes_eq(a: &Vec<u8>, b: &Vec<u8>) -> (r: bool)
    ensures
        r == (a@ == b@),
{
    if a.len() != b.len() {
        return false;
    }
    let mut i: usize = 0;
    while i < a.len()
        invariant
            i <= a.len(),
            a.len() == b.len(),
            forall|j: int| 0 <= j < i ==> a@[j] == b@[j],
        decreases a.len() - i,
    {
        if a[i] != b[i] {
            return false;
        }
        i += 1;
    }
    proof {
        assert(a@ =~= b@);
    }
    true
}

/// Whether `needle` occurs in `hay`, compared as strings.
pub fn contains_str(hay: &Vec<String>, needle: &str) -> (r: bool)
    ensures
        r == hay@.map_values(|s: String| s@).contains(needle@),
{
    let ghost views = hay@.map_values(|s: String| s@);
    let mut i: usize = 0;
    while i < hay.len()
        invariant
            i <= hay.len(),
            views == hay@.map_values(|s: String| s@),
            forall|j: int| 0 <= j < i ==> views[j] != needle@,
        decreases hay.len() - i,
    {
        if str_eq(hay[i].as_str(), needle) {
            proof {
                assert(views[i as int] == needle@);
            }
            return true;
        }
        i += 1;
    }
    proof {
        assert(forall|j: int| 0 <= j < views.len() ==> views[j] != needle@);
    }
    false
}

} // verus!
