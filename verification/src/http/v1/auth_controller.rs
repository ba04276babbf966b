//! The route through which the platform registers a user's access token.
use vstd::prelude::*;
use crate::http::{error_reply, unauthorized_reply, Reply, ReplyView, SomeError};
use crate::http::v1::{header_bytes, platform_guard, readable_header, same_text, token_complaint};
use crate::models::v1::users::{AuthenticateDTO, UserToken};

verus! {

/// What the authentication route does next.
#[derive(Clone, Debug, PartialEq, Eq)]
pub enum AuthenticationStep {
    /// Store this token record.
    Store(UserToken),
    /// Answer with this reply.
    Respond(Reply),
}

/// The first step of registering a token: a request whose
/// `X-Authorization` header holds the platform secret stores the token of
/// its body; the others are answered `401` with the complaint.
pub fn post_user_authentication_begin(
    header: Option<&[u8]>,
    platform_secret: String,
    payload: AuthenticateDTO,
) -> (s: AuthenticationStep)
    requires
        readable_header(header),
    ensures
        match token_complaint(header_bytes(header), platform_secret@) {
            None => s matches AuthenticationStep::Store(t) && t.access_token@ == payload.token@
                && t.user_id == Some(payload.user_id),
            Some(m) => s matches AuthenticationStep::Respond(r) && r@ == unauthorized_reply(m),
        },
        match header {
            Some(b) => if same_text(platform_secret@, b@) {
                s matches AuthenticationStep::Store(t) && t.access_token@ == payload.token@
                    && t.user_id == Some(payload.user_id)
            } else {
                s matches AuthenticationStep::Respond(Reply::Problem { status, .. }) && status == 401
            },
            None => s matches AuthenticationStep::Respond(Reply::Problem { status, .. }) && status
                == 401,
        },
{
    match platform_guard(header, platform_secret) {
        Some(r) => AuthenticationStep::Respond(r),
        None => AuthenticationStep::Store(UserToken::new(payload)),
    }
}

/// The answer once the token was stored (`201`, empty), or was not.
pub fn post_user_authentication_stored(stored: Result<(), SomeError>) -> (r: Reply)
    ensures
        r@ == match stored {
            Ok(_) => ReplyView::Empty { status: 201 },
            Err(e) => error_reply(e),
        },
{
    match stored {
        Ok(_) => Reply::Empty { status: 201 },
        Err(e) => e.error_response(),
    }
}

}
