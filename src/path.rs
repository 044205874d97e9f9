use vstd::prelude::*;

verus! {

/// The text that lossy UTF-8 decoding gives for `b`.
pub uninterp spec fn lossy_utf8(b: Seq<u8>) -> Seq<char>;

/// Relies on `String::from_utf8_lossy`: decodes the bytes as UTF-8, with
/// each invalid sequence replaced; the text depends on the bytes alone.
#[verifier::external_body]
fn utf8_lossy(b: &[u8]) -> (r: String)
    ensures
        r@ == lossy_utf8(b@),
{
    String::from_utf8_lossy(b).into_owned()
}

/// A filesystem path, held as the bytes the platform encodes it with.
pub struct OsPath {
    bytes: Vec<u8>,
}

impl View for OsPath {
    type V = Seq<u8>;

    closed spec fn view(&self) -> Seq<u8> {
        self.bytes@
    }
}

impl OsPath {
    /// The path whose encoded form is `bytes`.
    pub fn from_bytes(bytes: Vec<u8>) -> (r: OsPath)
        ensures
            r@ == bytes@,
    {
        OsPath { bytes }
    }

    /// The encoded form of the path.
    pub fn as_bytes(&self) -> (r: &[u8])
        ensures
            r@ == self@,
    {
        self.bytes.as_slice()
    }

    /// The text of the path, invalid encoding sequences replaced.
    pub fn to_string_lossy(&self) -> (r: String)
        ensures
            r@ == lossy_utf8(self@),
    {
        utf8_lossy(self.bytes.as_slice())
    }
}

} // verus!
