//! Small operations on text that the rest of the crate shares.

use vstd::prelude::*;
use vstd::string::*;
use vstd::utf8::*;

verus! {

/// Whether two string slices hold the same text.
pub fn str_eq(a: &str, b: &str) -> (same: bool)
    ensures
        same == (a@ == b@),
{
    let x = a.as_bytes();
    let y = b.as_bytes();
    proof {
        encode_utf8_decode_utf8(a@);
        encode_utf8_decode_utf8(b@);
    }
    if x.len() != y.len() {
        return false;
    }
    let mut i: usize = 0;
    while i < x.len()
        invariant
            i <= x.len(),
            x.len() == y.len(),
            x@ == encode_utf8(a@),
            y@ == encode_utf8(b@),
            forall|j: int| 0 <= j < i ==> x@[j] == y@[j],
        decreases x.len() - i,
    {
        if x[i] != y[i] {
            return false;
        }
        i += 1;
    }
    assert(x@ =~= y@);
    true
}

/// An owned copy of a string slice.
pub fn owned(s: &str) -> (copy: String)
    ensures
        copy@ == s@,
{
    s.to_owned()
}

/// `smol_str::SmolStr`, a text that is cheap to copy. Nothing is known of it
/// but what the functions below say.
#[verifier::external_type_specification]
#[verifier::external_body]
pub struct ExSmolStr(smol_str::SmolStr);

/// The text that a `SmolStr` holds.
pub uninterp spec fn smol_str_text(s: smol_str::SmolStr) -> Seq<char>;

/// `SmolStr::new`: the new value holds exactly the text it was made from.
#[verifier::external_body]
pub(crate) fn smol_str_new(text: &str) -> (s: smol_str::SmolStr)
    ensures
        smol_str_text(s) == text@,
{
    smol_str::SmolStr::new(text)
}

/// `SmolStr::clone`: the copy holds the same text as the value copied.
pub assume_specification[ <smol_str::SmolStr as Clone>::clone ](s: &smol_str::SmolStr) -> (copy:
    smol_str::SmolStr)
    ensures
        smol_str_text(copy) == smol_str_text(*s),
;

/// `SmolStr::as_str`: the slice is the text that the value holds.
#[verifier::external_body]
pub(crate) fn smol_str_as_str(s: &smol_str::SmolStr) -> (text: &str)
    ensures
        text@ == smol_str_text(*s),
{
    s.as_str()
}

} // verus!
