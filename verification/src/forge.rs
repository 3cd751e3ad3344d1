//! What the forges (GitHub, GitLab) have in common: HTTP statuses, the
//! errors a request can end in, and the authorization header.

use vstd::prelude::*;
use vstd::string::StringSliceAdditionalSpecFns;
#[allow(unused_imports)]
use vstd::utf8::{char_is_scalar, encode_scalar, encode_utf8, is_scalar};

use crate::git::{concat, owned};
use crate::header::{header_byte_valid, header_bytes_valid, header_value, HeaderText};
use crate::text::{decimal, decimal_string};

verus! {

/// Whether an HTTP status is a success, as `StatusCode::is_success`.
pub open spec fn is_success(status: u16) -> bool {
    200 <= status < 300
}

/// Whether an HTTP status is a success (200 to 299).
pub fn status_is_success(status: u16) -> (b: bool)
    ensures
        b == is_success(status),
{
    200 <= status && status < 300
}

/// The reason phrase that `StatusCode::canonical_reason` gives for a status.
pub uninterp spec fn canonical_reason(status: u16) -> Option<Seq<char>>;

/// Calls `StatusCode::canonical_reason` on the status `status`. Trusted:
/// the phrase is `canonical_reason` of the status; `from_u16` accepts every
/// status from 100 to 999.
#[verifier::external_body]
fn reason_phrase(status: u16) -> (r: Option<String>)
    requires
        100 <= status <= 999,
    ensures
        r matches Some(p) ==> canonical_reason(status) == Some(p@),
        r is None ==> canonical_reason(status) is None,
{
    match reqwest::StatusCode::from_u16(status) {
        Ok(code) => code.canonical_reason().map(String::from),
        Err(_) => None,
    }
}

/// A status counts as a success exactly from 200 to 299: every
/// informational, redirection, client-error (such as 409 Conflict) and
/// server-error status is a refusal.
pub proof fn law_success_is_2xx(status: u16)
    ensures
        is_success(status) <==> (200 <= status && status <= 299),
        status == 409 ==> !is_success(status),
{
}

/// A status as it is displayed: the number, then its reason phrase.
pub open spec fn status_display(status: u16) -> Seq<char> {
    decimal(status as nat) + " "@ + match canonical_reason(status) {
        Some(p) => p,
        None => "<unknown status code>"@,
    }
}

/// A status as `StatusCode`'s `Display` writes it.
pub fn status_string(status: u16) -> (s: String)
    requires
        100 <= status <= 999,
    ensures
        s@ == status_display(status),
{
    let mut s = decimal_string(status as u64);
    s.append(" ");
    match reason_phrase(status) {
        Some(p) => s.append(p.as_str()),
        None => s.append("<unknown status code>"),
    }
    s
}

/// Why a request to a forge failed.
pub enum ForgeError {
    /// A request was answered with a status other than success: what was
    /// being done, at which URL, the status, and the response body when it
    /// is reported.
    Refused { action: String, url: String, status: u16, body: Option<String> },
    /// The token cannot be sent in an HTTP header.
    InvalidToken,
    /// A required environment variable is not set.
    MissingVariable { name: String },
}

pub enum ForgeErrorView {
    Refused { action: Seq<char>, url: Seq<char>, status: u16, body: Option<Seq<char>> },
    InvalidToken,
    MissingVariable { name: Seq<char> },
}

impl View for ForgeError {
    type V = ForgeErrorView;

    open spec fn view(&self) -> ForgeErrorView {
        match self {
            ForgeError::Refused { action, url, status, body } => ForgeErrorView::Refused {
                action: action@,
                url: url@,
                status: *status,
                body: match body {
                    Some(b) => Some(b@),
                    None => None,
                },
            },
            ForgeError::InvalidToken => ForgeErrorView::InvalidToken,
            ForgeError::MissingVariable { name } => ForgeErrorView::MissingVariable { name: name@ },
        }
    }
}

/// The text by which an error is reported.
pub open spec fn forge_error_message(e: ForgeErrorView) -> Seq<char> {
    match e {
        ForgeErrorView::Refused { action, url, status, body } => action + url + ": "@
            + status_display(status) + match body {
            Some(b) => ":\n"@ + b,
            None => Seq::empty(),
        },
        ForgeErrorView::InvalidToken => "Failed to parse token as header value"@,
        ForgeErrorView::MissingVariable { name } => "Failed to read the environment variable "@
            + name,
    }
}

impl ForgeError {
    /// The text by which the error is reported.
    pub fn message(&self) -> (m: String)
        requires
            self@ matches ForgeErrorView::Refused { status, .. } ==> 100 <= status <= 999,
        ensures
            m@ == forge_error_message(self@),
    {
        match self {
            ForgeError::Refused { action, url, status, body } => {
                let mut m = concat(action.as_str(), url.as_str());
                m.append(": ");
                m.append(status_string(*status).as_str());
                match body {
                    Some(b) => {
                        m.append(":\n");
                        m.append(b.as_str());
                    },
                    None => {},
                }
                m
            },
            ForgeError::InvalidToken => owned("Failed to parse token as header value"),
            ForgeError::MissingVariable { name } => concat(
                "Failed to read the environment variable ",
                name.as_str(),
            ),
        }
    }
}

/// Whether the character `c` may stand in an HTTP header value: whatever
/// its UTF-8 bytes are, they may.
pub open spec fn header_char_valid(c: char) -> bool {
    (c as u32 >= 32 && c as u32 != 127) || c as u32 == 9
}

/// Whether every character of `t` may stand in an HTTP header value.
pub open spec fn header_text_valid(t: Seq<char>) -> bool {
    forall|i: int| 0 <= i < t.len() ==> header_char_valid(#[trigger] t[i])
}

proof fn lemma_header_scalar(v: u32)
    requires
        is_scalar(v),
    ensures
        header_bytes_valid(encode_scalar(v)) <==> ((v >= 32 && v != 127) || v == 9),
{
    let e = encode_scalar(v);
    if v <= 0x7F {
        assert((v & 0x7F) as u8 == v) by (bit_vector)
            requires
                v <= 0x7F,
        ;
        assert(e[0] == v);
    } else {
        assert forall|i: int| 0 <= i < e.len() implies header_byte_valid(#[trigger] e[i]) by {
            assert((0xC0u8 | ((v >> 6) & 0x1F) as u8) >= 0x80 && (0x80u8 | (v & 0x3F) as u8)
                >= 0x80 && (0x80u8 | ((v >> 6) & 0x3F) as u8) >= 0x80 && (0xE0u8 | ((v >> 12)
                & 0x0F) as u8) >= 0x80 && (0x80u8 | ((v >> 12) & 0x3F) as u8) >= 0x80 && (0xF0u8
                | ((v >> 18) & 0x7) as u8) >= 0x80) by (bit_vector);
        }
    }
}

proof fn lemma_header_chars(t: Seq<char>)
    ensures
        header_bytes_valid(encode_utf8(t)) <==> header_text_valid(t),
    decreases t.len(),
{
    if t.len() > 0 {
        let rest = t.drop_first();
        lemma_header_chars(rest);
        char_is_scalar(t[0]);
        let head = encode_scalar(t[0] as u32);
        lemma_header_scalar(t[0] as u32);
        let whole = encode_utf8(t);
        assert(whole == head + encode_utf8(rest));
        if header_text_valid(t) {
            assert forall|i: int| 0 <= i < whole.len() implies header_byte_valid(#[trigger] whole[i]) by {
                if i >= head.len() {
                    assert(whole[i] == encode_utf8(rest)[i - head.len()]);
                    assert(header_char_valid(t[0]));
                    assert forall|j: int| 0 <= j < rest.len() implies header_char_valid(#[trigger] rest[j]) by {
                        assert(rest[j] == t[j + 1]);
                    }
                } else {
                    assert(header_char_valid(t[0]));
                    assert(whole[i] == head[i]);
                }
            }
        }
        if header_bytes_valid(whole) {
            assert forall|i: int| 0 <= i < t.len() implies header_char_valid(#[trigger] t[i]) by {
                if i == 0 {
                    assert forall|k: int| 0 <= k < head.len() implies header_byte_valid(#[trigger] head[k]) by {
                        assert(whole[k] == head[k]);
                    }
                } else {
                    assert forall|k: int| 0 <= k < encode_utf8(rest).len() implies header_byte_valid(
                        #[trigger] encode_utf8(rest)[k],
                    ) by {
                        assert(whole[k + head.len()] == encode_utf8(rest)[k]);
                    }
                    assert(t[i] == rest[i - 1]);
                }
            }
        }
    }
}

/// The value of the `Authorization` header that carries `token`:
/// `Bearer `, then the token.
pub fn authorization_header(token: &str) -> (r: Result<HeaderText, ForgeError>)
    ensures
        r is Ok <==> header_text_valid("Bearer "@ + token@),
        r matches Ok(h) ==> h.held() == encode_utf8("Bearer "@ + token@),
        r matches Err(e) ==> e@ == ForgeErrorView::InvalidToken,
{
    let value = concat("Bearer ", token);
    let parsed = header_value(value.as_str());
    proof {
        lemma_header_chars(value@);
    }
    match parsed {
        Ok(h) => Ok(h),
        Err(_) => Err(ForgeError::InvalidToken),
    }
}

} // verus!
