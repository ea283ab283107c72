//! The password exchange: its endpoint and the client-side validity
//! window its token is granted.

use vstd::prelude::*;
use crate::auth::AuthData;
use crate::strutil::trim_slashes_spec;
use crate::strutil::server_url;
use crate::timeutil::{expiry_spec, expiry_instant};

verus! {

/// Seconds in one day: the client-assigned validity window of a JWT
/// credential, since the password exchange advertises no expiry of its own.
pub const JWT_VALIDITY_SECONDS: u64 = 86400;

/// The token endpoint of a server: its base URL without trailing slashes,
/// then `/auth/token`.
pub fn token_url(server: &str) -> (r: String)
    ensures
        r@ == trim_slashes_spec(server@) + "/auth/token"@,
{
    server_url(server, "/auth/token")
}

/// Packages the token text a successful password exchange returned at
/// instant `now` into a credential that stays trusted for one day.
pub fn fetch_token(token: String, now: i64) -> (r: AuthData)
    ensures
        r@ matches crate::auth::AuthDataView::Jwt { expires, token: t } && t == token@
            && expires == Some((expiry_spec(now, JWT_VALIDITY_SECONDS) as i64)),
{
    let expires = expiry_instant(now, JWT_VALIDITY_SECONDS);
    AuthData::Jwt { expires: Some(expires), token }
}

} // verus!
