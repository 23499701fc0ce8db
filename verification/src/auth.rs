//! The claims a signed token carries, and the reading of a bearer header.
//! Signing, verification and hashing are the runtime's work.

use vstd::prelude::*;

verus! {

/// What a token says about its holder: the account, its addresses, and
/// when the token expires.
#[derive(Debug, Clone)]
pub struct Claims {
    pub id: usize,
    pub email: String,
    pub username: String,
    pub exp: usize,
}

impl Claims {
    pub fn new(id: usize, email: String, username: String, exp: usize) -> (r: Claims)
        ensures
            r.id == id,
            r.email@ == email@,
            r.username@ == username@,
            r.exp == exp,
    {
        Claims { id, email, username, exp }
    }
}

/// The token part of an authorization header: everything after the
/// seven-character scheme prefix, or nothing when the header is shorter
/// than that.
pub fn bearer_token(header: &str) -> (r: Option<String>)
    ensures
        (r is Some) == (header@.len() >= 7),
        r matches Some(t) ==> t@ == header@.subrange(7, header@.len() as int),
{
    let n = header.unicode_len();
    if n < 7 {
        return None;
    }
    let tail = header.substring_char(7, n);
    Some(tail.to_owned())
}

} // verus!
