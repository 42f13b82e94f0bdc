//! Byte-to-text conversion of captured process output. Output bytes are read
//! as UTF-8; invalid sequences become the replacement character instead of
//! failing, so garbled output is still returned to the client.

use vstd::prelude::*;

verus! {

/// The text that the lossy UTF-8 reading of `bytes` yields.
pub uninterp spec fn lossy_utf8(bytes: Seq<u8>) -> Seq<char>;

/// Relies on `String::from_utf8_lossy`: valid UTF-8 input decodes to its
/// characters, and invalid sequences are replaced rather than rejected, so
/// the call returns for every input and depends on the bytes alone.
#[verifier::external_body]
pub(crate) fn decode_lossy(bytes: &Vec<u8>) -> (s: String)
    ensures
        s@ == lossy_utf8(bytes@),
        vstd::utf8::valid_utf8(bytes@) ==> s@ == vstd::utf8::decode_utf8(bytes@),
        bytes@.len() == 0 ==> s@.len() == 0,
{
    String::from_utf8_lossy(bytes).into_owned()
}

} // verus!
