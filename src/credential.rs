//! The credential handed to the Git transport: a user name and password pair
//! whose password is the access token.
use vstd::prelude::*;
use vstd::string::StringExecFns;

verus! {

/// The user name that the provider expects beside an OAuth access token.
pub open spec fn oauth_username() -> Seq<char> {
    "oauth2"@
}

/// A captured access token, owned here and handed out only as the password
/// of the credential.
pub struct Credential {
    secret: String,
}

impl Credential {
    pub closed spec fn secret_spec(&self) -> Seq<char> {
        self.secret@
    }

    /// Takes the access token by value.
    pub fn for_token(token: String) -> (r: Credential)
        ensures
            r.secret_spec() == token@,
    {
        Credential { secret: token }
    }

    /// Resolves a credential request of the Git transport. The target URL, the
    /// user name hint and the allowed methods do not change the answer:
    /// always `("oauth2", <access token>)`.
    pub fn resolve(&self, _url: &str, _username_hint: Option<&str>, _allowed_types: u32) -> (r: (
        String,
        String,
    ))
        ensures
            r.0@ == oauth_username(),
            r.1@ == self.secret_spec(),
    {
        let username = String::from_str("oauth2");
        proof {
            reveal_strlit("oauth2");
        }
        (username, self.secret.clone())
    }
}

} // verus!
