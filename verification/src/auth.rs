//! Authentication: the bearer-token holder.
//!
//! The token wraps its secret and exposes it only through [`AuthToken::expose`],
//! meant solely for composing the `Authorization` header. The type carries
//! no `Debug` or display path; anything user-facing goes through
//! [`AuthToken::redacted`], which always yields a fixed marker.

use vstd::prelude::*;

verus! {

/// Wrapper around a Personal Access Token ensuring deliberate handling.
#[derive(Clone)]
pub struct AuthToken {
    secret: String,
}

impl AuthToken {
    /// The wrapped secret.
    pub closed spec fn spec_secret(&self) -> Seq<char> {
        self.secret@
    }

    /// Construct a new token wrapper.
    pub fn new(token: String) -> (r: AuthToken)
        ensures
            r.spec_secret() == token@,
    {
        AuthToken { secret: token }
    }

    /// Expose the token contents, for the `Authorization` header only.
    pub fn expose(&self) -> (r: &str)
        ensures
            r@ == self.spec_secret(),
    {
        self.secret.as_str()
    }

    /// The fixed placeholder shown wherever the token would be rendered.
    pub fn redacted(&self) -> (r: String)
        ensures
            r@ == "<redacted token>"@,
    {
        let v = crate::text::str_to_chars("<redacted token>");
        crate::text::chars_to_string(&v)
    }

    /// The full `Authorization` header value for this token.
    pub fn authorization_value(&self) -> (r: String)
        ensures
            r@ == "Bearer "@ + self.spec_secret(),
    {
        let mut out = crate::text::str_to_chars("Bearer ");
        let mut sec = crate::text::str_to_chars(self.secret.as_str());
        out.append(&mut sec);
        crate::text::chars_to_string(&out)
    }
}

/// Source of access tokens; lets callers plug in their own storage.
pub trait TokenProvider {
    /// Obtain a fresh Personal Access Token.
    fn personal_access_token(&self) -> String;
}

/// Token provider that always returns the same token.
#[derive(Clone)]
pub struct StaticTokenProvider {
    token: AuthToken,
}

impl StaticTokenProvider {
    /// The wrapped token's secret.
    pub closed spec fn spec_token_secret(&self) -> Seq<char> {
        self.token.spec_secret()
    }

    /// Create a new provider from a token.
    pub fn new(token: AuthToken) -> (r: StaticTokenProvider)
        ensures
            r.spec_token_secret() == token.spec_secret(),
    {
        StaticTokenProvider { token }
    }
}

impl TokenProvider for StaticTokenProvider {
    fn personal_access_token(&self) -> String {
        let v = crate::text::str_to_chars(self.token.expose());
        crate::text::chars_to_string(&v)
    }
}

} // verus!
