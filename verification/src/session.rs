//! The session authenticator: one ephemeral setup code per process, and at
//! most one session granted for it.

use vstd::prelude::*;

verus! {

/// Why an authentication attempt was refused.
#[derive(Clone, Copy, Debug, PartialEq, Eq, Structural)]
pub enum AuthError {
    /// A session is already active; the setup login is granted at most once
    /// per process lifetime.
    AlreadyAuthenticated,
    /// The presented code does not match the setup code.
    InvalidToken,
}

/// Relies on `uuid::Uuid::new_v4` (converted with `Uuid::as_u128`) to draw
/// a fresh random token. Nothing is promised of the drawn value.
#[verifier::external_body]
fn fresh_token() -> u128 {
    uuid::Uuid::new_v4().as_u128()
}

/// What `uuid::Uuid::parse_str` yields on a given text: the parse depends
/// on the characters alone.
pub uninterp spec fn uuid_parse(s: Seq<char>) -> Option<u128>;

/// The canonical text of a token: the lowercase hyphenated form in which
/// `uuid::Uuid` displays it, a function of the value alone.
pub uninterp spec fn uuid_text(t: u128) -> Seq<char>;

/// Relies on `uuid::Uuid::parse_str` to read a token from text (the result
/// converted with `Uuid::as_u128`).
#[verifier::external_body]
pub fn parse_token(s: &str) -> (r: Option<u128>)
    ensures
        r == uuid_parse(s@),
{
    match uuid::Uuid::parse_str(s) {
        Ok(u) => Some(u.as_u128()),
        Err(_) => None,
    }
}

/// Relies on `uuid::Uuid::to_string` (via `Uuid::from_u128`): the canonical
/// form is 36 characters of simple hyphenated hex, and `Uuid::parse_str`
/// accepts it and reads the same value back.
#[verifier::external_body]
pub fn token_to_string(t: u128) -> (r: String)
    ensures
        r@ == uuid_text(t),
        r@.len() == 36,
        uuid_parse(r@) == Some(t),
{
    uuid::Uuid::from_u128(t).to_string()
}

/// The process-wide session state of the setup wizard. It is created once
/// at startup and shared behind a lock by the host, because concurrent
/// requests may race to authenticate.
pub struct SessionState {
    /// The ephemeral setup code, shown only in the server console.
    pub setup_code: u128,
    /// The token of the single granted session, once one exists.
    pub session: Option<u128>,
}

impl SessionState {
    /// A fresh authentication with this code would be granted: no session
    /// is active yet and the code matches.
    pub open spec fn grants(self, presented: u128) -> bool {
        self.session is None && presented == self.setup_code
    }

    /// The error an authentication attempt is refused with.
    pub open spec fn refusal(self, presented: u128) -> AuthError {
        if self.session is Some {
            AuthError::AlreadyAuthenticated
        } else {
            AuthError::InvalidToken
        }
    }

    /// True exactly when a session exists and the presented token is it.
    pub open spec fn spec_verify(self, presented: u128) -> bool {
        self.session == Some(presented)
    }

    /// Create the process-wide state at startup: a freshly drawn setup code
    /// and no active session.
    pub fn boot() -> (r: SessionState)
        ensures
            r.session is None,
    {
        SessionState { setup_code: fresh_token(), session: None }
    }

    /// Attempt to log in with a presented code. Succeeds only if no session
    /// is active yet and the code equals the setup code; the granted token
    /// becomes the only accepted credential for the rest of the process
    /// lifetime. Fails with `AlreadyAuthenticated` if a session already
    /// exists, and with `InvalidToken` otherwise.
    pub fn authenticate(&mut self, presented: u128) -> (r: Result<u128, AuthError>)
        ensures
            r is Ok <==> old(self).grants(presented),
            r matches Ok(t) ==> final(self).session == Some(t) && final(self).setup_code == old(
                self,
            ).setup_code,
            r matches Err(e) ==> *final(self) == *old(self) && e == old(self).refusal(presented),
    {
        if self.session.is_some() {
            return Err(AuthError::AlreadyAuthenticated);
        }
        if presented != self.setup_code {
            return Err(AuthError::InvalidToken);
        }
        let t = fresh_token();
        self.session = Some(t);
        Ok(t)
    }

    /// Check a presented session token. Any mismatch or absence means "not
    /// logged in", never an error.
    pub fn verify(&self, presented: u128) -> (r: bool)
        ensures
            r == self.spec_verify(presented),
    {
        match self.session {
            Some(t) => t == presented,
            None => false,
        }
    }
}

/// Session singleton: once any session exists — as `authenticate` ensures
/// after the one granted attempt — every further attempt is refused with
/// `AlreadyAuthenticated`, whatever code it presents. Attempts serialize
/// behind the host's lock, so of two racing calls with the correct code
/// exactly one is granted.
pub proof fn lemma_session_singleton(s: SessionState, presented: u128)
    requires
        s.session is Some,
    ensures
        !s.grants(presented),
        s.refusal(presented) == AuthError::AlreadyAuthenticated,
{
}

} // verus!
