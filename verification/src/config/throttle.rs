//! The time of each user's last request, kept to throttle requests.
use vstd::prelude::*;
use std::collections::HashMap;
use std::time::Instant;

verus! {

/// `std::time::Instant`, carried through as an opaque value.
#[verifier::external_type_specification]
#[verifier::external_body]
pub struct ExInstant(Instant);

/// When each pair of names last made a request.
#[derive(Debug)]
pub struct ThrottleState {
    pub last_request: HashMap<(String, String), Instant>,
}

impl ThrottleState {
    /// A state in which nobody has made a request yet.
    pub fn new() -> (s: Self)
        ensures
            s.last_request@ == Map::<(String, String), Instant>::empty(),
    {
        ThrottleState { last_request: HashMap::new() }
    }
}

impl Default for ThrottleState {
    fn default() -> (s: Self)
        ensures
            s.last_request@ == Map::<(String, String), Instant>::empty(),
    {
        Self::new()
    }
}

}
