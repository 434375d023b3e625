//! Length-prefixed strings as the asset wire format stores them: a 32-bit
//! little-endian byte count followed by that many payload bytes, often
//! with a trailing NUL that the text itself does not include.

use crate::VmError;
use vstd::bytes::{spec_u32_from_le_bytes, spec_u32_to_le_bytes, u32_from_le_bytes, u32_to_le_bytes};
use vstd::prelude::*;
use vstd::slice::slice_subrange;
use vstd::utf8::{encode_utf8, valid_utf8};

verus! {

#[verifier::external_type_specification]
#[verifier::external_body]
pub struct ExUtf8Error(core::str::Utf8Error);

/// Relies on `core::str::from_utf8`: succeeds exactly on UTF-8 encoded
/// bytes, and the returned text is the one the bytes encode.
#[verifier::external_body]
fn bytes_to_str<'a>(v: &'a [u8]) -> (r: Result<&'a str, core::str::Utf8Error>)
    ensures
        r is Ok <==> valid_utf8(v@),
        r matches Ok(s) ==> encode_utf8(s@) == v@,
{
    core::str::from_utf8(v)
}

/// `b` without its trailing NUL, if it carries one.
pub open spec fn trim_trailing_nul(b: Seq<u8>) -> Seq<u8> {
    if b.len() > 0 && b.last() == 0 {
        b.drop_last()
    } else {
        b
    }
}

/// A string stored with an explicit byte count.
pub struct SizedString {
    string: Vec<u8>,
}

impl SizedString {
    /// The payload bytes.
    pub closed spec fn bytes(self) -> Seq<u8> {
        self.string@
    }

    pub fn new(string: Vec<u8>) -> (r: Self)
        ensures
            r.bytes() == string@,
    {
        Self { string }
    }

    /// The raw payload bytes, trailing NUL included.
    pub fn data(&self) -> (r: &[u8])
        ensures
            r@ == self.bytes(),
    {
        self.string.as_slice()
    }

    /// The payload as text: the bytes minus a trailing NUL, when they are
    /// valid UTF-8.
    pub fn as_str(&self) -> (r: Result<&str, core::str::Utf8Error>)
        ensures
            r is Ok <==> valid_utf8(trim_trailing_nul(self.bytes())),
            r matches Ok(s) ==> encode_utf8(s@) == trim_trailing_nul(self.bytes()),
    {
        let n = self.string.len();
        let slice = if n > 0 && self.string[n - 1] == 0 {
            let s = slice_subrange(self.string.as_slice(), 0, n - 1);
            proof {
                assert(s@ =~= trim_trailing_nul(self.bytes()));
            }
            s
        } else {
            self.string.as_slice()
        };
        bytes_to_str(slice)
    }

    /// Decodes one length-prefixed string starting at `offset` of `data`,
    /// returning it with the offset just past its payload.
    pub fn read_from(data: &[u8], offset: usize) -> (r: Result<(Self, usize), VmError>)
        ensures
            r is Ok <==> offset + 4 <= data@.len() && offset + 4 + spec_u32_from_le_bytes(
                data@.subrange(offset as int, offset + 4),
            ) <= data@.len(),
            r matches Ok(v) ==> {
                let count = spec_u32_from_le_bytes(data@.subrange(offset as int, offset + 4));
                &&& v.0.bytes() == data@.subrange(offset + 4, offset + 4 + count)
                &&& v.1 == offset + 4 + count
            },
            r is Err ==> r == Err::<(Self, usize), VmError>(VmError::CodeOutOfBounds),
    {
        let n = data.len();
        if offset >= n || n - offset < 4 {
            return Err(VmError::CodeOutOfBounds);
        }
        let count = u32_from_le_bytes(slice_subrange(data, offset, offset + 4)) as usize;
        if count > n - (offset + 4) {
            return Err(VmError::CodeOutOfBounds);
        }
        let payload = slice_subrange(data, offset + 4, offset + 4 + count);
        let mut string: Vec<u8> = Vec::new();
        let mut i: usize = 0;
        while i < count
            invariant
                i <= count,
                count == payload@.len(),
                string@ == payload@.subrange(0, i as int),
            decreases count - i,
        {
            string.push(payload[i]);
            proof {
                assert(string@ =~= payload@.subrange(0, i + 1));
            }
            i = i + 1;
        }
        proof {
            assert(string@ =~= payload@);
        }
        Ok((Self { string }, offset + 4 + count))
    }

    /// Encodes the string in its wire form: the 32-bit little-endian byte
    /// count, then the payload. The count is the payload length truncated
    /// to 32 bits, which loses nothing for any payload the format can
    /// describe.
    pub fn to_bytes(&self) -> (r: Vec<u8>)
        ensures
            r@ == spec_u32_to_le_bytes(crate::ops::crop32(self.bytes().len() as usize as int))
                + self.bytes(),
    {
        proof {
            crate::vm::lemma_trunc_usize(self.string.len());
        }
        let count = #[verifier::truncate] (self.string.len() as u32);
        let mut out = u32_to_le_bytes(count);
        let n = self.string.len();
        let mut i: usize = 0;
        while i < n
            invariant
                i <= n,
                n == self.string@.len(),
                out@ == spec_u32_to_le_bytes(count) + self.string@.subrange(0, i as int),
            decreases n - i,
        {
            out.push(self.string[i]);
            proof {
                assert(out@ =~= spec_u32_to_le_bytes(count) + self.string@.subrange(0, i + 1));
            }
            i = i + 1;
        }
        proof {
            assert(self.string@.subrange(0, n as int) =~= self.string@);
            assert(out@ == spec_u32_to_le_bytes(count) + self.string@);
        }
        out
    }
}

} // verus!
