//! Null-terminated byte buffers handed to the engine as configuration text.
use vstd::prelude::*;
use vstd::string::StringSliceAdditionalSpecFns;
use vstd::utf8::*;

verus! {

/// A byte buffer that ends in a single zero byte and holds no other.
pub struct CBuffer {
    bytes: Vec<u8>,
}

/// Whether `bytes` can be sent as a null-terminated buffer: it holds no zero.
pub open spec fn nul_free(bytes: Seq<u8>) -> bool {
    forall|i: int| 0 <= i < bytes.len() ==> bytes[i] != 0
}

/// `core::str::from_utf8`: the string that `bytes` encodes, which exists
/// exactly when `bytes` is valid UTF-8.
#[verifier::external_body]
pub(crate) fn str_from_utf8(bytes: &[u8]) -> (res: Option<&str>)
    ensures
        res is Some <==> valid_utf8(bytes@),
        res matches Some(s) ==> s@ == decode_utf8(bytes@) && s.spec_bytes() == bytes@,
{
    core::str::from_utf8(bytes).ok()
}

impl CBuffer {
    #[verifier::type_invariant]
    spec fn terminated(self) -> bool {
        &&& self.bytes@.len() > 0
        &&& self.bytes@.last() == 0
        &&& nul_free(self.bytes@.drop_last())
    }

    /// The bytes before the terminator.
    pub closed spec fn payload(&self) -> Seq<u8> {
        self.bytes@.drop_last()
    }

    /// Converts a string, which succeeds exactly when its UTF-8 encoding
    /// holds no zero byte.
    pub fn new(s: &str) -> (res: Option<CBuffer>)
        ensures
            res is Some <==> nul_free(s.spec_bytes()),
            res matches Some(c) ==> c.payload() == s.spec_bytes(),
    {
        let src = s.as_bytes();
        let mut bytes: Vec<u8> = Vec::with_capacity(src.len());
        let mut i: usize = 0;
        while i < src.len()
            invariant
                i <= src.len(),
                src@ == s.spec_bytes(),
                bytes@ == src@.take(i as int),
                nul_free(bytes@),
            decreases src.len() - i,
        {
            let b: u8 = src[i];
            if b == 0 {
                return None;
            }
            bytes.push(b);
            i += 1;
            assert(bytes@ =~= src@.take(i as int));
        }
        assert(src@.take(src.len() as int) =~= src@);
        let ghost body = bytes@;
        bytes.push(0);
        assert(bytes@.drop_last() =~= body);
        Some(CBuffer { bytes })
    }

    /// The buffer as the engine reads it, terminator included.
    pub fn as_bytes_with_nul(&self) -> (out: &[u8])
        ensures
            out@ == self.payload().push(0u8),
            nul_free(self.payload()),
    {
        proof {
            use_type_invariant(self);
            assert(self.bytes@ =~= self.bytes@.drop_last().push(0u8));
        }
        self.bytes.as_slice()
    }
}

} // verus!
