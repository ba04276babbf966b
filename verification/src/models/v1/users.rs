//! Access tokens of users.
use vstd::prelude::*;

verus! {

/// The body of an authentication request: a user and the token issued to it.
#[derive(Clone, Debug, PartialEq, Eq)]
pub struct AuthenticateDTO {
    pub user_id: i32,
    pub token: String,
}

/// A stored access token and the user it belongs to.
#[derive(Clone, Debug, PartialEq, Eq)]
pub struct UserToken {
    pub access_token: String,
    pub user_id: Option<i32>,
}

impl UserToken {
    /// The token record of an authentication request.
    pub fn new(dto: AuthenticateDTO) -> (t: Self)
        ensures
            t.access_token@ == dto.token@,
            t.user_id == Some(dto.user_id),
    {
        UserToken { access_token: dto.token, user_id: Some(dto.user_id) }
    }
}

}
