//! The route paths the gateway and the policy layer refer to.

use vstd::prelude::*;

verus! {

/// The liveness-check path, exempt from authentication.
pub const HEALTH_CHECK_ROUTE: &'static str = "/healthcheck";

/// The photo collection route.
pub const PHOTOS_ROUTE: &'static str = "/photos";

/// The single-photo route, as registered with the policy server.
pub const PHOTO_BY_ID_ROUTE: &'static str = "/photos/{id}";

/// The album collection route.
pub const ALBUMS_ROUTE: &'static str = "/albums";

/// The single-album route, as registered with the policy server.
pub const ALBUM_BY_ID_ROUTE: &'static str = "/albums/{id}";

/// The single-image route, as registered with the policy server.
pub const IMAGE_BY_ID_ROUTE: &'static str = "/images/{id}";

} // verus!
