//! The checks that guard the routes of the first API version.
pub mod auth_controller;
pub mod metrics_controller;
pub mod settings_controller;

use vstd::prelude::*;
use crate::config::vars::push_char;
use crate::http::{Reply, ReplyView, unauthorized_reply};
use crate::models::v1::users::UserToken;

verus! {

/// Whether a byte may stand in a header value read as text: a visible
/// ASCII character, a space or a tab.
pub open spec fn is_visible_ascii(b: u8) -> bool {
    (32 <= b && b < 127) || b == 9
}

/// A header value read as text, as `HeaderValue::to_str` reads it: the
/// bytes as characters when each is visible ASCII, else nothing.
pub open spec fn header_text(bytes: Seq<u8>) -> Option<Seq<char>> {
    if forall|i: int| 0 <= i < bytes.len() ==> is_visible_ascii(#[trigger] bytes[i]) {
        Some(bytes.map_values(|b: u8| b as char))
    } else {
        None
    }
}

/// Whether every byte is a visible ASCII character, a space or a tab.
pub open spec fn readable_bytes(b: Seq<u8>) -> bool {
    forall|i: int| 0 <= i < b.len() ==> ((32 <= #[trigger] b[i] && b[i] < 127) || b[i] == 9)
}

/// Whether `text` holds the bytes of `b`, each as the character of the same code.
pub open spec fn same_text(text: Seq<char>, b: Seq<u8>) -> bool {
    &&& text.len() == b.len()
    &&& forall|i: int| 0 <= i < b.len() ==> (#[trigger] text[i]) as int == b[i] as int
}

/// The message for a platform request that carries no token.
pub open spec fn missing_token_message() -> Seq<char> {
    "You must be logged in to update your settings"@
}

/// The message for a platform request whose token is not the secret.
pub open spec fn invalid_token_message() -> Seq<char> {
    "Invalid token"@
}

/// What is wrong with the `X-Authorization` header of a platform request,
/// if anything: it is missing, or it is not the platform secret.
pub open spec fn token_complaint(header: Option<Seq<u8>>, secret: Seq<char>) -> Option<Seq<char>> {
    match header {
        None => Some(missing_token_message()),
        Some(bytes) => if header_text(bytes) == Some(secret) {
            None
        } else {
            Some(invalid_token_message())
        },
    }
}

/// The bytes of an optional header value.
pub open spec fn header_bytes(header: Option<&[u8]>) -> Option<Seq<u8>> {
    match header {
        Some(b) => Some(b@),
        None => None,
    }
}

/// Whether an optional header value, when present, reads as text.
pub open spec fn readable_header(header: Option<&[u8]>) -> bool {
    match header {
        Some(b) => header_text(b@) is Some,
        None => true,
    }
}

/// Reads a header value as text; see `header_text`.
pub fn header_str(bytes: &[u8]) -> (r: Option<String>)
    ensures
        match r {
            Some(s) => header_text(bytes@) == Some(s@),
            None => header_text(bytes@) is None,
        },
        r is Some <==> readable_bytes(bytes@),
        r matches Some(s) ==> same_text(s@, bytes@),
{
    let mut out = String::new();
    let n = bytes.len();
    let mut i: usize = 0;
    while i < n
        invariant
            i <= n,
            n == bytes@.len(),
            out@ == bytes@.take(i as int).map_values(|b: u8| b as char),
            forall|j: int| 0 <= j < i ==> is_visible_ascii(#[trigger] bytes@[j]),
        decreases n - i,
    {
        let b = bytes[i];
        if !((32 <= b && b < 127) || b == 9) {
            assert(!is_visible_ascii(bytes@[i as int]));
            return None;
        }
        push_char(&mut out, b as char);
        assert(bytes@.take(i + 1).map_values(|b: u8| b as char) =~= bytes@.take(i as int).map_values(
            |b: u8| b as char,
        ).push(b as char));
        i = i + 1;
    }
    assert(bytes@.take(n as int) =~= bytes@);
    Some(out)
}

/// Checks the `X-Authorization` header of a platform request against the
/// platform secret: `None` when it holds the secret, else the complaint.
pub fn validate_token(header: Option<&[u8]>, platform_secret: String) -> (r: Option<String>)
    requires
        readable_header(header),
    ensures
        match r {
            Some(m) => token_complaint(header_bytes(header), platform_secret@) == Some(m@),
            None => token_complaint(header_bytes(header), platform_secret@) is None,
        },
        match header {
            None => r matches Some(m) && m@ == "You must be logged in to update your settings"@,
            Some(b) => (r is None <==> same_text(platform_secret@, b@)) && (r matches Some(m) ==> m@
                == "Invalid token"@),
        },
{
    match header {
        None => Some("You must be logged in to update your settings".to_owned()),
        Some(bytes) => {
            let token = match header_str(bytes) {
                Some(t) => t,
                None => String::new(),
            };
            proof {
                if same_text(platform_secret@, bytes@) {
                    assert(token@ =~= platform_secret@);
                }
            }
            if token != platform_secret {
                Some("Invalid token".to_owned())
            } else {
                None
            }
        },
    }
}


/// Guards a platform route: `None` lets the request through, else the
/// `401` answer with the complaint.
pub fn platform_guard(header: Option<&[u8]>, platform_secret: String) -> (r: Option<Reply>)
    requires
        readable_header(header),
    ensures
        match token_complaint(header_bytes(header), platform_secret@) {
            None => r is None,
            Some(m) => r matches Some(reply) && reply@ == unauthorized_reply(m),
        },
        match header {
            None => r matches Some(Reply::Problem { status, error, message }) && status == 401
                && error@ == "Unauthorized"@ && message@
                == "You must be logged in to update your settings"@,
            Some(b) => if same_text(platform_secret@, b@) {
                r is None
            } else {
                r matches Some(Reply::Problem { status, error, message }) && status == 401
                    && error@ == "Unauthorized"@ && message@ == "Invalid token"@
            },
        },
{
    match validate_token(header, platform_secret) {
        None => None,
        Some(m) => Some(Reply::Problem { status: 401, error: "Unauthorized".to_owned(), message: m }),
    }
}

/// The `Authorization` header as an access token: `None` when the header is
/// missing or does not read as text.
pub fn access_token(header: Option<&[u8]>) -> (r: Option<String>)
    ensures
        match header {
            None => r is None,
            Some(b) => match r {
                Some(t) => header_text(b@) == Some(t@),
                None => header_text(b@) is None,
            },
        },
{
    match header {
        None => None,
        Some(bytes) => header_str(bytes),
    }
}

/// The user that a stored token belongs to; `None` when no token was found.
pub fn authenticated_user(row: Option<UserToken>) -> (r: Option<i32>)
    requires
        row matches Some(t) ==> t.user_id is Some,
    ensures
        match row {
            None => r is None,
            Some(t) => r == t.user_id,
        },
{
    match row {
        None => None,
        Some(t) => t.user_id,
    }
}

/// The answer to a request without a valid user token.
pub fn not_authenticated() -> (r: Reply)
    ensures
        r@ == (ReplyView::Empty { status: 401 }),
{
    Reply::Empty { status: 401 }
}

/// Law of the platform guard: a request is let through exactly when its
/// `X-Authorization` header is present and reads as the platform secret.
pub proof fn lemma_guard_admits_exactly_the_secret(header: Option<Seq<u8>>, secret: Seq<char>)
    ensures
        token_complaint(header, secret) is None <==> (header matches Some(b) && header_text(b)
            == Some(secret)),
        header is None ==> token_complaint(header, secret) == Some(missing_token_message()),
{
}

/// Whether a character is visible ASCII, a space or a tab.
pub open spec fn is_visible_char(c: char) -> bool {
    (32 <= (c as int) && (c as int) < 127) || (c as int) == 9
}

/// Whether every character of `s` may be sent in a header as it is.
pub open spec fn header_safe(s: Seq<char>) -> bool {
    forall|i: int| 0 <= i < s.len() ==> is_visible_char(#[trigger] s[i])
}

/// Law of the platform guard: a platform that sends a secret made of visible
/// ASCII characters, byte for byte, in the `X-Authorization` header is let through.
pub proof fn lemma_secret_is_admitted(secret: Seq<char>)
    requires
        header_safe(secret),
    ensures
        token_complaint(Some(secret.map_values(|c: char| c as u8)), secret) is None,
{
    let bytes = secret.map_values(|c: char| c as u8);
    assert forall|i: int| 0 <= i < bytes.len() implies is_visible_ascii(#[trigger] bytes[i]) by {
        let c = secret[i];
        assert((c as u8) as int == c as int);
        assert(bytes[i] == secret[i] as u8);
    }
    let text = bytes.map_values(|b: u8| b as char);
    assert forall|i: int| 0 <= i < text.len() implies #[trigger] text[i] == secret[i] by {
        let c = secret[i];
        assert(0 <= (c as int) < 128);
        assert((c as u8) as int == c as int);
        assert(bytes[i] as int == c as int);
    }
    assert(text =~= secret);
}

}
