//! Fixed-capacity, NUL-terminated strings returned by the sensor.
use vstd::prelude::*;
use vstd::string::StringSliceAdditionalSpecFns;
use vstd::utf8::valid_utf8;

verus! {

/// Declares `core::str::Utf8Error`, carried through unchanged.
#[verifier::external_type_specification]
#[verifier::external_body]
pub struct ExUtf8Error(core::str::Utf8Error);

/// The error `core::str::from_utf8` returns for bytes that are not valid
/// UTF-8 (where valid UTF-8 ends, and the length of the invalid sequence).
pub uninterp spec fn utf8_error(bytes: Seq<u8>) -> core::str::Utf8Error;

/// Calls `core::str::from_utf8`. Trusted: per its documentation the call
/// succeeds exactly when the bytes are valid UTF-8, the string it returns is
/// those same bytes, and otherwise the error depends on the bytes alone.
#[verifier::external_body]
fn str_from_utf8(bytes: &[u8]) -> (r: Result<&str, core::str::Utf8Error>)
    ensures
        r is Ok <==> valid_utf8(bytes@),
        r matches Ok(s) ==> s.spec_bytes() == bytes@,
        r matches Err(e) ==> e == utf8_error(bytes@),
{
    core::str::from_utf8(bytes)
}

/// Whether `n` is the length of the NUL-terminated string at the start of
/// `bytes`: no NUL before `n`, and a NUL at `n` unless `n` is the end.
pub open spec fn terminated_at(bytes: Seq<u8>, n: int) -> bool {
    &&& 0 <= n <= bytes.len()
    &&& forall|i: int| 0 <= i < n ==> bytes[i] != 0
    &&& n < bytes.len() ==> bytes[n] == 0
}

/// A fixed-capacity string returned by the SEN5x.
///
/// The sensor returns up to 32 bytes, NUL-terminated and padded. The
/// terminator and padding are removed without allocating.
#[derive(Debug, Copy, Clone, PartialEq, Eq)]
pub struct SensorString {
    bytes: [u8; 32],
    len: usize,
}

impl View for SensorString {
    type V = Seq<u8>;

    /// The string's bytes, terminator and padding excluded.
    closed spec fn view(&self) -> Seq<u8> {
        self.bytes@.take(self.len as int)
    }
}

impl SensorString {
    #[verifier::type_invariant]
    closed spec fn well_formed(self) -> bool {
        terminated_at(self.bytes@, self.len as int)
    }

    /// Takes the 32 bytes the sensor returned; the string ends at the first
    /// NUL byte, or after all 32 bytes when there is none.
    pub fn from_bytes(bytes: [u8; 32]) -> (r: Self)
        ensures
            terminated_at(bytes@, r@.len() as int),
            r@ == bytes@.take(r@.len() as int),
    {
        let mut len: usize = 0;
        while len < 32 && bytes[len] != 0
            invariant
                len <= 32,
                forall|i: int| 0 <= i < len ==> bytes@[i] != 0,
            decreases 32 - len,
        {
            len = len + 1;
        }
        SensorString { bytes, len }
    }

    /// Returns the string's raw bytes, excluding the terminating NUL and
    /// padding. This is the lossless accessor when a device returns non-UTF-8
    /// bytes.
    pub fn as_bytes(&self) -> (r: &[u8])
        ensures
            r@ == self@,
            r@.len() <= 32,
            forall|i: int| 0 <= i < r@.len() ==> r@[i] != 0,
    {
        proof {
            use_type_invariant(self);
        }
        vstd::slice::slice_subrange(self.bytes.as_slice(), 0, self.len)
    }

    /// Returns the string as UTF-8, excluding the terminating NUL and padding;
    /// fails when those bytes are not valid UTF-8.
    pub fn as_str(&self) -> (r: Result<&str, core::str::Utf8Error>)
        ensures
            r is Ok <==> valid_utf8(self@),
            r matches Ok(s) ==> s.spec_bytes() == self@,
            r matches Err(e) ==> e == utf8_error(self@),
    {
        str_from_utf8(self.as_bytes())
    }

    /// Returns the string length excluding the terminating NUL and padding.
    pub fn len(&self) -> (r: usize)
        ensures
            r == self@.len(),
            r <= 32,
    {
        proof {
            use_type_invariant(self);
        }
        self.len
    }

    /// Returns whether the string contains no bytes before its terminating NUL.
    pub fn is_empty(&self) -> (r: bool)
        ensures
            r <==> self@.len() == 0,
    {
        proof {
            use_type_invariant(self);
        }
        self.len == 0
    }
}

} // verus!
