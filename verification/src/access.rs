//! The sink's side of the boundary: which requests count against which
//! rate limit, and what a session is made from.

use crate::text::starts_with;
use vstd::prelude::*;

verus! {

/// Requests per minute and address that the sign-in endpoints accept.
pub const AUTH_REQUESTS_PER_MINUTE: u32 = 20;

/// Requests per minute and address that the other endpoints accept.
pub const API_REQUESTS_PER_MINUTE: u32 = 300;

/// The status that answers a request over its limit.
pub const TOO_MANY_REQUESTS: u16 = 429;

/// What a session is created from.
#[derive(Debug, Clone)]
pub struct CreateSessionParams {
    pub user_sub: String,
    pub email: String,
    pub name: String,
    pub id_token_hash: String,
    pub expires_in_secs: i64,
}

/// What the sink tells a signed-in user about themself.
#[derive(Debug, Clone)]
pub struct AuthMeResponse {
    pub user_sub: String,
    pub email: String,
    pub name: String,
}

/// The mark on a request that went over its rate limit.
#[derive(Debug, Clone, Copy, PartialEq, Eq, Structural)]
pub struct RateLimitExceeded(pub bool);

/// The proof that a request stayed within its rate limit.
#[derive(Debug, Clone, Copy, PartialEq, Eq, Structural)]
pub struct RateLimitGuard;

/// The limits that a request can count against.
#[derive(Debug, Clone, Copy, PartialEq, Eq, Structural)]
pub enum RateClass {
    /// The sign-in endpoints, with the tighter limit.
    Auth,
    /// Every other endpoint of the interface.
    Api,
    /// Anything else: not limited.
    Unlimited,
}

/// The path prefix of the sign-in endpoints.
pub open spec fn auth_prefix() -> Seq<char> {
    "/api/v1/auth/"@
}

/// The path prefix of the whole interface.
pub open spec fn api_prefix() -> Seq<char> {
    "/api/v1/"@
}

/// The limit that a request to `path` counts against.
pub open spec fn rate_class_of(path: Seq<char>) -> RateClass {
    if auth_prefix().is_prefix_of(path) {
        RateClass::Auth
    } else if api_prefix().is_prefix_of(path) {
        RateClass::Api
    } else {
        RateClass::Unlimited
    }
}

/// Whether a path belongs to the sign-in endpoints.
pub fn is_auth_path(path: &str) -> (yes: bool)
    ensures
        yes == auth_prefix().is_prefix_of(path@),
{
    starts_with(path, "/api/v1/auth/")
}

/// Whether a path belongs to the interface at all.
pub fn is_api_path(path: &str) -> (yes: bool)
    ensures
        yes == api_prefix().is_prefix_of(path@),
{
    starts_with(path, "/api/v1/")
}

/// The limit that a request to `path` counts against.
pub fn rate_class(path: &str) -> (class: RateClass)
    ensures
        class == rate_class_of(path@),
{
    if is_auth_path(path) {
        RateClass::Auth
    } else if is_api_path(path) {
        RateClass::Api
    } else {
        RateClass::Unlimited
    }
}

impl RateClass {
    /// How many requests per minute the class allows; `None` for no limit.
    pub fn requests_per_minute(&self) -> (limit: Option<u32>)
        ensures
            limit == (match self {
                RateClass::Auth => Some(AUTH_REQUESTS_PER_MINUTE),
                RateClass::Api => Some(API_REQUESTS_PER_MINUTE),
                RateClass::Unlimited => None,
            }),
    {
        match self {
            RateClass::Auth => Some(AUTH_REQUESTS_PER_MINUTE),
            RateClass::Api => Some(API_REQUESTS_PER_MINUTE),
            RateClass::Unlimited => None,
        }
    }
}

impl RateLimitGuard {
    /// Lets a request pass unless it is marked as over its limit; a marked
    /// request is answered with the status for too many requests.
    pub fn check(mark: RateLimitExceeded) -> (outcome: Result<RateLimitGuard, u16>)
        ensures
            outcome == (if mark.0 {
                Err::<RateLimitGuard, u16>(TOO_MANY_REQUESTS)
            } else {
                Ok::<RateLimitGuard, u16>(RateLimitGuard)
            }),
    {
        if mark.0 {
            Err(TOO_MANY_REQUESTS)
        } else {
            Ok(RateLimitGuard)
        }
    }
}

/// Every sign-in path is a path of the interface, so the tighter limit is
/// the one that counts for it.
pub proof fn lemma_auth_paths_are_api_paths(path: Seq<char>)
    requires
        auth_prefix().is_prefix_of(path),
    ensures
        api_prefix().is_prefix_of(path),
        rate_class_of(path) == RateClass::Auth,
{
    reveal_strlit("/api/v1/auth/");
    reveal_strlit("/api/v1/");
}

} // verus!
