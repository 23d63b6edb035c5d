use bytesize::ByteSize;
use vstd::prelude::*;

verus! {

/// The human-readable rendering of a byte count `n` that `bytesize` gives
/// (decimal units, one decimal place: "3.2 MB").
pub uninterp spec fn size_text(n: u64) -> Seq<char>;

/// Relies on `Display` for `bytesize::ByteSize`: the text depends on the
/// count alone, and is never empty (it always ends in a unit).
#[verifier::external_body]
pub(crate) fn human_size(n: u64) -> (r: String)
    ensures
        r@ == size_text(n),
        r@.len() > 0,
{
    ByteSize::b(n).to_string()
}

} // verus!
