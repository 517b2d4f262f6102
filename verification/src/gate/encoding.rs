use base64::Engine;
use vstd::prelude::*;

verus! {

/// The padded base64 text, over the standard alphabet, of a sequence of bytes.
pub uninterp spec fn base64_standard(data: Seq<u8>) -> Seq<char>;

/// Encodes `data` with `base64::engine::general_purpose::STANDARD.encode`.
///
/// Trusted: the text returned is a function of the bytes alone. The encoder
/// panics only when the encoded length does not fit in `usize`, which needs an
/// input longer than a slice can be.
#[verifier::external_body]
pub(crate) fn encode_standard(data: &[u8]) -> (out: String)
    ensures
        out@ == base64_standard(data@),
{
    base64::engine::general_purpose::STANDARD.encode(data)
}

} // verus!
