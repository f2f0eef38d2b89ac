//! Authentication: the resolved principal, the per-request gateway that
//! decides how a caller authenticates, and the redirect-callback logic.

use vstd::prelude::*;

verus! {

/// Session-store key under which the authenticated principal lives for the
/// cookie flow.
pub const USER_SESSION_KEY: &'static str = "user";

} // verus!

pub mod middleware;
pub mod redirect_endpoint;
pub mod user;
