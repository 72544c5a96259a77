//! The verified parts of report formatting: the labelled sections for a
//! process's two output streams.  The surrounding report text is display
//! work of the embedding program and carries no invariants.

use vstd::prelude::*;

verus! {

/// The text that `String::from_utf8_lossy` decodes these bytes to.
pub uninterp spec fn lossy_utf8_of(bytes: Seq<u8>) -> Seq<char>;

/// Relies on String::from_utf8_lossy: the decoding depends on the bytes
/// alone, invalid sequences become replacement characters, and valid
/// UTF-8 decodes to exactly its text.
#[verifier::external_body]
fn utf8_lossy(bytes: &[u8]) -> (r: String)
    ensures
        r@ == lossy_utf8_of(bytes@),
        vstd::utf8::valid_utf8(bytes@) ==> r@ == vstd::utf8::decode_utf8(bytes@),
{
    String::from_utf8_lossy(bytes).into_owned()
}

/// The labelled standard-output section of a process report.
pub fn process_stdout(stdout: &[u8]) -> (r: String)
    ensures
        r@ == " = Std Out =\n"@ + lossy_utf8_of(stdout@),
        vstd::utf8::valid_utf8(stdout@) ==> r@ == " = Std Out =\n"@ + vstd::utf8::decode_utf8(
            stdout@,
        ),
{
    let mut s = String::from_str(" = Std Out =\n");
    let decoded = utf8_lossy(stdout);
    s.append(decoded.as_str());
    s
}

/// The labelled standard-error section of a process report.
pub fn process_stderr(stderr: &[u8]) -> (r: String)
    ensures
        r@ == " = Std Err =\n"@ + lossy_utf8_of(stderr@),
        vstd::utf8::valid_utf8(stderr@) ==> r@ == " = Std Err =\n"@ + vstd::utf8::decode_utf8(
            stderr@,
        ),
{
    let mut s = String::from_str(" = Std Err =\n");
    let decoded = utf8_lossy(stderr);
    s.append(decoded.as_str());
    s
}

} // verus!
