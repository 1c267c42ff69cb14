//! Issuing and rotating the join/spectate session secrets.

use crate::activity::Secrets;
use vstd::prelude::*;

verus! {

/// Length, in characters, of every issued token: a hyphenated UUID.
pub const TOKEN_LEN: usize = 36;

/// Relies on `uuid::Uuid::new_v4` and the `Display` impl of `Uuid`: a fresh
/// random version-4 UUID, formatted as 36 hyphenated lowercase hex
/// characters. The value is random, so nothing is claimed beyond its length.
#[verifier::external_body]
fn fresh_token() -> (r: String)
    ensures
        r@.len() == TOKEN_LEN,
{
    uuid::Uuid::new_v4().to_string()
}

/// A fresh set of session secrets: a new match identifier, a join token when
/// joining is currently allowed, a spectate token when spectating is.
pub fn issue_new(joinable: bool, spectatable: bool) -> (r: Secrets)
    ensures
        r.match_secret@.len() == TOKEN_LEN,
        r.join is Some <==> joinable,
        r.spectate is Some <==> spectatable,
        r.join matches Some(j) ==> j@.len() == TOKEN_LEN,
        r.spectate matches Some(s) ==> s@.len() == TOKEN_LEN,
{
    Secrets {
        match_secret: fresh_token(),
        join: if joinable {
            Option::Some(fresh_token())
        } else {
            Option::None
        },
        spectate: if spectatable {
            Option::Some(fresh_token())
        } else {
            Option::None
        },
    }
}

/// Rotation on operator demand: the match identifier is kept, so the running
/// session stays intact, while the invitation tokens are superseded — a new
/// join token is always issued, and the spectate token is reissued exactly
/// when one was present.
pub fn reload(prev: &Secrets) -> (r: Secrets)
    ensures
        r.match_secret@ == prev.match_secret@,
        r.join matches Some(j) && j@.len() == TOKEN_LEN,
        r.spectate is Some <==> prev.spectate is Some,
        r.spectate matches Some(s) ==> s@.len() == TOKEN_LEN,
{
    Secrets {
        match_secret: prev.match_secret.clone(),
        join: Option::Some(fresh_token()),
        spectate: match &prev.spectate {
            Option::Some(_) => Option::Some(fresh_token()),
            Option::None => Option::None,
        },
    }
}

} // verus!
