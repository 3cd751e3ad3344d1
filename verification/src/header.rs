//! HTTP header values, made by the http crate's parser only.

use vstd::prelude::*;
use vstd::string::StringSliceAdditionalSpecFns;

verus! {

#[verifier::external_type_specification]
#[verifier::external_body]
pub struct ExHeaderValue(reqwest::header::HeaderValue);

#[verifier::external_type_specification]
#[verifier::external_body]
pub struct ExInvalidHeaderValue(reqwest::header::InvalidHeaderValue);

/// Whether a byte may stand in an HTTP header value: visible ASCII, a
/// space, a tab, or any byte above 127.
pub open spec fn header_byte_valid(b: u8) -> bool {
    (b >= 32 && b != 127) || b == 9
}

/// Whether every byte of `b` may stand in an HTTP header value.
pub open spec fn header_bytes_valid(b: Seq<u8>) -> bool {
    forall|i: int| 0 <= i < b.len() ==> header_byte_valid(#[trigger] b[i])
}

/// A header value together with the bytes it holds. Only `header_value`
/// makes one, so the two always belong together.
pub struct HeaderText {
    value: reqwest::header::HeaderValue,
    bytes: Vec<u8>,
}

impl HeaderText {
    /// The bytes the header value holds.
    pub closed spec fn held(self) -> Seq<u8> {
        self.bytes@
    }

    /// The header value, as it is sent.
    pub fn value(&self) -> &reqwest::header::HeaderValue {
        &self.value
    }

    /// The bytes the header value holds.
    pub fn bytes(&self) -> (b: &[u8])
        ensures
            b@ == self.held(),
    {
        self.bytes.as_slice()
    }
}

/// Calls `HeaderValue::from_str`, and pairs the value with the bytes it
/// holds (`HeaderValue::as_bytes`). Trusted, as the source shows: it fails
/// exactly when a byte of the text may not stand in a header value;
/// otherwise the value holds a copy of the text's bytes.
#[verifier::external_body]
pub(crate) fn header_value(s: &str) -> (r: Result<HeaderText, reqwest::header::InvalidHeaderValue>)
    ensures
        r is Ok <==> header_bytes_valid(s.spec_bytes()),
        r matches Ok(h) ==> h.held() == s.spec_bytes(),
{
    match reqwest::header::HeaderValue::from_str(s) {
        Ok(value) => {
            let bytes = value.as_bytes().to_vec();
            Ok(HeaderText { value, bytes })
        },
        Err(e) => Err(e),
    }
}

} // verus!
