//! Bearer-token authentication: the claims a token carries and the secret
//! its signature is checked with.

use vstd::prelude::*;

verus! {

/// The claims of an access token; `sub` is the user id.
#[derive(Debug)]
pub struct Claims {
    pub sub: String,
    pub email: Option<String>,
    pub role: Option<String>,
    pub exp: i64,
    pub iat: i64,
    pub iss: Option<String>,
}

/// Validates HS256-signed tokens with a shared secret.
pub struct JwtValidator {
    jwt_secret: String,
}

impl JwtValidator {
    pub fn new(jwt_secret: String) -> (r: Self)
        ensures
            r.spec_secret() == jwt_secret@,
    {
        JwtValidator { jwt_secret }
    }

    pub closed spec fn spec_secret(&self) -> Seq<char> {
        self.jwt_secret@
    }

    /// The signing secret.
    pub fn secret(&self) -> (r: &str)
        ensures
            r@ == self.spec_secret(),
    {
        self.jwt_secret.as_str()
    }
}

} // verus!
