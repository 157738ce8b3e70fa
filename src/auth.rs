use vstd::prelude::*;

use crate::identity::Identity;

verus! {

/// The challenge that `request_challenge` hands out; a fixed placeholder.
pub const CHALLENGE: &'static str = "AAAA......MOCK_SEP10_CHALLENGE_XDR......";

/// The session token that `verify_challenge` issues; a fixed placeholder.
pub const SESSION_TOKEN: &'static str = "eyJhbGciOiJIUzI1Ni...VALID_SESSION_TOKEN";

/// A challenge-response login in the style of SEP-10. The user's proof of
/// identity is the host's signature check; the challenge itself is a
/// placeholder and is not decoded.
pub struct Sep10Authenticator;

impl Sep10Authenticator {
    /// The challenge for `user` to sign.
    pub fn request_challenge(_user: &Identity) -> (r: String)
        ensures
            r@ == CHALLENGE@,
    {
        CHALLENGE.to_owned()
    }

    /// The session token for `user`, issued only when the caller proved
    /// control of `user` (`authorized`).
    pub fn verify_challenge(_user: &Identity, _signed_challenge: &String, authorized: bool) -> (r:
        Option<String>)
        ensures
            authorized ==> (r matches Some(t) && t@ == SESSION_TOKEN@),
            !authorized ==> r is None,
    {
        if authorized {
            Some(SESSION_TOKEN.to_owned())
        } else {
            None
        }
    }
}

} // verus!
