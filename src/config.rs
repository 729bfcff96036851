//! The caller's endpoints and client parameters, and the authorization URL
//! built from them.
use vstd::prelude::*;
use vstd::string::StringExecFns;
use vstd::utf8::encode_utf8;

use crate::encoding::{
    form_component, form_serialized, lemma_form_serialized_undelimited, pairs_view, parses_as_url,
    undelimited, url_accepts,
};
use crate::error::FlowError;
use crate::redirect::state_key;

verus! {

/// The endpoints and client parameters of one provider. The client secret is
/// held here alone and is never written into a URL or a message.
pub struct OAuth {
    auth_url: String,
    token_url: String,
    client_id: String,
    client_secret: String,
    callback_port: String,
}

pub open spec fn redirect_uri_of(port: Seq<char>) -> Seq<char> {
    "http://localhost:"@ + port
}

/// The scope requested: read and write access to repositories.
pub open spec fn scope_value() -> Seq<char> {
    "repo"@
}

/// The query parameters of the authorization URL, in order.
pub open spec fn authorization_params_of(client_id: Seq<char>, port: Seq<char>, state: Seq<char>) -> Seq<
    (Seq<char>, Seq<char>),
> {
    seq![
        ("response_type"@, "code"@),
        ("client_id"@, client_id),
        ("redirect_uri"@, redirect_uri_of(port)),
        ("scope"@, scope_value()),
        (state_key(), state),
    ]
}

/// One `name=value` pair, both sides form-encoded.
pub open spec fn form_pair(p: (Seq<char>, Seq<char>)) -> Seq<char> {
    form_serialized(encode_utf8(p.0)) + seq!['='] + form_serialized(encode_utf8(p.1))
}

/// Pairs form-encoded and joined by `&`.
pub open spec fn form_query(ps: Seq<(Seq<char>, Seq<char>)>) -> Seq<char>
    decreases ps.len(),
{
    if ps.len() == 0 {
        Seq::empty()
    } else if ps.len() == 1 {
        form_pair(ps[0])
    } else {
        form_query(ps.drop_last()) + seq!['&'] + form_pair(ps.last())
    }
}

pub open spec fn authorization_url_of(
    endpoint: Seq<char>,
    client_id: Seq<char>,
    port: Seq<char>,
    state: Seq<char>,
) -> Seq<char> {
    endpoint + seq!['?'] + form_query(authorization_params_of(client_id, port, state))
}

/// Pairs form-encoded and joined by `&`.
pub fn encode_query(params: &Vec<(String, String)>) -> (r: String)
    ensures
        r@ == form_query(pairs_view(params@)),
{
    let ghost ps = pairs_view(params@);
    let mut out = String::new();
    let mut i: usize = 0;
    while i < params.len()
        invariant
            i <= params@.len(),
            ps == pairs_view(params@),
            out@ == form_query(ps.subrange(0, i as int)),
        decreases params.len() - i,
    {
        let ghost prev = out@;
        if i > 0 {
            out.append("&");
        }
        let k = form_component(params[i].0.as_str());
        let v = form_component(params[i].1.as_str());
        out.append(k.as_str());
        out.append("=");
        out.append(v.as_str());
        proof {
            reveal_strlit("&");
            reveal_strlit("=");
            let sub = ps.subrange(0, i + 1);
            assert(sub.drop_last() =~= ps.subrange(0, i as int));
            assert(sub.last() == ps[i as int]);
            if i == 0 {
                assert(out@ =~= form_pair(ps[0]));
            } else {
                assert(out@ =~= prev + seq!['&'] + form_pair(ps[i as int]));
            }
        }
        i = i + 1;
    }
    assert(ps.subrange(0, params@.len() as int) =~= ps);
    out
}

impl OAuth {
    pub closed spec fn auth_url_spec(&self) -> Seq<char> {
        self.auth_url@
    }

    pub closed spec fn token_url_spec(&self) -> Seq<char> {
        self.token_url@
    }

    pub closed spec fn client_id_spec(&self) -> Seq<char> {
        self.client_id@
    }

    pub closed spec fn client_secret_spec(&self) -> Seq<char> {
        self.client_secret@
    }

    pub closed spec fn callback_port_spec(&self) -> Seq<char> {
        self.callback_port@
    }

    /// Whether both endpoints and the redirect address are valid URLs.
    pub open spec fn valid(&self) -> bool {
        url_accepts(self.auth_url_spec()) && url_accepts(self.token_url_spec()) && url_accepts(
            redirect_uri_of(self.callback_port_spec()),
        )
    }

    pub fn new(
        auth_url: &str,
        token_url: &str,
        client_id: &str,
        client_secret: &str,
        callback_port: &str,
    ) -> (r: OAuth)
        ensures
            r.auth_url_spec() == auth_url@,
            r.token_url_spec() == token_url@,
            r.client_id_spec() == client_id@,
            r.client_secret_spec() == client_secret@,
            r.callback_port_spec() == callback_port@,
    {
        OAuth {
            auth_url: auth_url.to_owned(),
            token_url: token_url.to_owned(),
            client_id: client_id.to_owned(),
            client_secret: client_secret.to_owned(),
            callback_port: callback_port.to_owned(),
        }
    }

    pub fn auth_url(&self) -> (r: &str)
        ensures
            r@ == self.auth_url_spec(),
    {
        self.auth_url.as_str()
    }

    pub fn token_url(&self) -> (r: &str)
        ensures
            r@ == self.token_url_spec(),
    {
        self.token_url.as_str()
    }

    pub fn client_id(&self) -> (r: &str)
        ensures
            r@ == self.client_id_spec(),
    {
        self.client_id.as_str()
    }

    pub fn client_secret(&self) -> (r: &str)
        ensures
            r@ == self.client_secret_spec(),
    {
        self.client_secret.as_str()
    }

    pub fn callback_port(&self) -> (r: &str)
        ensures
            r@ == self.callback_port_spec(),
    {
        self.callback_port.as_str()
    }

    /// `http://localhost:<callback_port>`, where the provider sends the browser.
    pub fn redirect_uri(&self) -> (r: String)
        ensures
            r@ == redirect_uri_of(self.callback_port_spec()),
    {
        let mut r = String::from_str("http://localhost:");
        r.append(self.callback_port.as_str());
        proof {
            reveal_strlit("http://localhost:");
        }
        r
    }

    /// `ConfigInvalid` where an endpoint or the redirect address is not a URL.
    pub fn validate(&self) -> (r: Result<(), FlowError>)
        ensures
            r is Ok <==> self.valid(),
            r is Err ==> r == Err::<(), FlowError>(FlowError::ConfigInvalid),
    {
        let redirect = self.redirect_uri();
        if parses_as_url(self.auth_url.as_str()) && parses_as_url(self.token_url.as_str())
            && parses_as_url(redirect.as_str()) {
            Ok(())
        } else {
            Err(FlowError::ConfigInvalid)
        }
    }

    /// The query parameters of the authorization URL for the given state.
    pub fn authorization_params(&self, state: &String) -> (r: Vec<(String, String)>)
        ensures
            pairs_view(r@) == authorization_params_of(
                self.client_id_spec(),
                self.callback_port_spec(),
                state@,
            ),
    {
        let mut r: Vec<(String, String)> = Vec::new();
        r.push((String::from_str("response_type"), String::from_str("code")));
        r.push((String::from_str("client_id"), self.client_id.clone()));
        r.push((String::from_str("redirect_uri"), self.redirect_uri()));
        r.push((String::from_str("scope"), String::from_str("repo")));
        r.push((String::from_str("state"), state.clone()));
        proof {
            reveal_strlit("state");
            assert(state_key() =~= "state"@);
            assert(pairs_view(r@) =~= authorization_params_of(
                self.client_id_spec(),
                self.callback_port_spec(),
                state@,
            ));
        }
        r
    }

    /// `<authorization endpoint>?response_type=code&client_id=..&redirect_uri=..&scope=repo&state=..`,
    /// each value form-encoded.
    pub fn authorization_url(&self, state: &String) -> (r: String)
        ensures
            r@ == authorization_url_of(
                self.auth_url_spec(),
                self.client_id_spec(),
                self.callback_port_spec(),
                state@,
            ),
    {
        let params = self.authorization_params(state);
        let query = encode_query(&params);
        let mut url = self.auth_url.clone();
        url.append("?");
        url.append(query.as_str());
        proof {
            reveal_strlit("?");
        }
        url
    }
}

} // verus!

verus! {

/// How many pairs are named `key`.
pub open spec fn key_count(ps: Seq<(Seq<char>, Seq<char>)>, key: Seq<char>) -> nat
    decreases ps.len(),
{
    if ps.len() == 0 {
        0
    } else {
        (if ps[0].0 == key {
            1nat
        } else {
            0nat
        }) + key_count(ps.drop_first(), key)
    }
}

/// The authorization URL carries exactly one `state` parameter, and its value
/// is the state issued, for every configuration and state. No encoded value
/// holds `&`, `=` or `#`, so none can pass for a further parameter.
pub proof fn lemma_one_state_parameter(client_id: Seq<char>, port: Seq<char>, state: Seq<char>)
    ensures
        forall|i: int|
            0 <= i < authorization_params_of(client_id, port, state).len() ==> undelimited(
                form_serialized(encode_utf8(#[trigger] authorization_params_of(client_id, port, state)[i].1)),
            ),
        key_count(authorization_params_of(client_id, port, state), state_key()) == 1,
        crate::redirect::param_of(authorization_params_of(client_id, port, state), state_key())
            == Some(state),
{
    reveal_strlit("response_type");
    reveal_strlit("client_id");
    reveal_strlit("redirect_uri");
    reveal_strlit("scope");
    let ps = authorization_params_of(client_id, port, state);
    assert forall|i: int| 0 <= i < ps.len() implies undelimited(
        form_serialized(encode_utf8(#[trigger] ps[i].1)),
    ) by {
        lemma_form_serialized_undelimited(encode_utf8(ps[i].1));
    }
    assert("response_type"@.len() != state_key().len());
    assert("client_id"@.len() != state_key().len());
    assert("redirect_uri"@.len() != state_key().len());
    assert("scope"@[1] != state_key()[1]);
    assert(ps[0].0 != state_key());
    assert(ps[1].0 != state_key());
    assert(ps[2].0 != state_key());
    assert(ps[3].0 != state_key());
    let p1 = ps.drop_first();
    let p2 = p1.drop_first();
    let p3 = p2.drop_first();
    let p4 = p3.drop_first();
    let p5 = p4.drop_first();
    assert(p5.len() == 0);
    assert(key_count(p5, state_key()) == 0);
    assert(key_count(p4, state_key()) == 1);
    assert(key_count(p3, state_key()) == 1);
    assert(key_count(p2, state_key()) == 1);
    assert(key_count(p1, state_key()) == 1);
    assert(crate::redirect::param_of(p4, state_key()) == Some(state));
    assert(crate::redirect::param_of(p3, state_key()) == Some(state));
    assert(crate::redirect::param_of(p2, state_key()) == Some(state));
    assert(crate::redirect::param_of(p1, state_key()) == Some(state));
}

} // verus!
