//! Byte buffers and text that cross the boundary to the graphics driver.
use vstd::prelude::*;

verus! {

/// The byte that fills a fresh buffer: an ASCII space.
pub const FILLER: u8 = 0x20;

/// `len` filler bytes.
pub open spec fn whitespace(len: nat) -> Seq<u8> {
    Seq::new(len, |i: int| FILLER)
}

/// A buffer of exactly `len` bytes, each of them a space, for the driver to
/// write a diagnostic of known length into. No byte of it is zero.
pub fn create_whitespace_cstring_of_len(len: usize) -> (buffer: Vec<u8>)
    ensures
        buffer@ == whitespace(len as nat),
        nul_free(buffer@),
{
    let mut buffer: Vec<u8> = Vec::new();
    let mut filled: usize = 0;
    while filled < len
        invariant
            filled <= len,
            buffer@ =~= whitespace(filled as nat),
        decreases len - filled,
    {
        buffer.push(FILLER);
        filled += 1;
    }
    buffer
}

/// Whether no byte of `bytes` is zero.
pub open spec fn nul_free(bytes: Seq<u8>) -> bool {
    forall|i: int| 0 <= i < bytes.len() ==> bytes[i] != 0
}

/// Text for the driver: bytes of which none is zero, so that a zero byte
/// behind them ends the text and nothing else does.
#[derive(Debug, PartialEq, Eq)]
pub struct CText {
    bytes: Vec<u8>,
}

impl View for CText {
    type V = Seq<u8>;

    closed spec fn view(&self) -> Seq<u8> {
        self.bytes@
    }
}

impl CText {
    #[verifier::type_invariant]
    spec fn holds_no_nul(&self) -> bool {
        nul_free(self.bytes@)
    }

    /// The text that `bytes` are, unless one of them is zero.
    pub fn new(bytes: Vec<u8>) -> (text: Option<CText>)
        ensures
            text is Some <==> nul_free(bytes@),
            text matches Some(t) ==> t@ == bytes@,
    {
        let mut seen: usize = 0;
        while seen < bytes.len()
            invariant
                seen <= bytes.len(),
                nul_free(bytes@.take(seen as int)),
            decreases bytes.len() - seen,
        {
            if bytes[seen] == 0 {
                return None;
            }
            seen += 1;
        }
        assert(bytes@.take(seen as int) =~= bytes@);
        Some(CText { bytes })
    }

    /// The bytes of the text, none of them zero.
    pub fn into_bytes(self) -> (bytes: Vec<u8>)
        ensures
            bytes@ == self@,
            nul_free(bytes@),
    {
        proof {
            use_type_invariant(&self);
        }
        self.bytes
    }
}

/// The text that `String::from_utf8_lossy` makes of given bytes: their
/// decoding as UTF-8, with U+FFFD in place of what is no UTF-8.
pub uninterp spec fn lossy_text(bytes: Seq<u8>) -> Seq<char>;

/// `String::from_utf8_lossy`, owned: the text that the bytes decode to, which
/// depends on the bytes alone.
#[verifier::external_body]
pub(crate) fn decode_lossy(bytes: Vec<u8>) -> (text: String)
    ensures
        text@ == lossy_text(bytes@),
{
    String::from_utf8_lossy(&bytes).into_owned()
}

} // verus!
