//! Extraction and ranking of candidate icon images from a repository's
//! rendered README document.

pub mod dom;
pub mod extract;
pub mod image;
pub mod metadata;
pub mod rank;
pub mod readme;
pub mod text;
pub mod urls;

use vstd::prelude::*;

verus! {

/// The byte form of an ASCII string literal's character sequence.
pub open spec fn lit_bytes(s: Seq<char>) -> Seq<u8> {
    Seq::new(s.len(), |i: int| s[i] as u8)
}

/// The bytes of an ASCII string literal, for the keyword and host
/// constants that the extraction rules compare against.
pub fn bytes_of(s: &str) -> (r: Vec<u8>)
    requires
        vstd::string::is_ascii(s),
    ensures
        r@ == lit_bytes(s@),
{
    broadcast use vstd::string::is_ascii_spec_bytes;

    let b = s.as_bytes();
    let r = vstd::slice::slice_to_vec(b);
    proof {
        assert(r@ =~= lit_bytes(s@));
    }
    r
}

} // verus!
