//! One invocation of the authorization flow as a state machine. The caller
//! performs the outside work (showing the URL, listening on the loopback
//! port, calling the token endpoint) and reports each outcome here; the
//! session decides what follows.
use vstd::prelude::*;

use crate::config::{authorization_url_of, OAuth};
use crate::credential::Credential;
use crate::encoding::random_csrf_state;
use crate::error::FlowError;
use crate::redirect::{capture_redirect, redirect_outcome, result_view};

verus! {

#[derive(Debug, Clone, Copy, PartialEq, Eq, Structural)]
pub enum Phase {
    /// The authorization URL was issued; the loopback listener waits.
    AwaitingRedirect,
    /// A redirect with the issued state was captured; its code goes to the
    /// token endpoint, once.
    Exchanging,
    /// A credential was produced.
    Completed,
    /// The flow ended with an error.
    Failed,
}

pub struct Session {
    phase: Phase,
    csrf_state: String,
}

impl Session {
    pub closed spec fn phase_spec(&self) -> Phase {
        self.phase
    }

    /// The anti-forgery state issued for this invocation.
    pub closed spec fn csrf_state_spec(&self) -> Seq<char> {
        self.csrf_state@
    }

    /// Starts a flow with the given anti-forgery state: `ConfigInvalid` where
    /// the configuration does not hold URLs, else the session and the
    /// authorization URL to present.
    pub fn start_with_state(config: &OAuth, csrf_state: String) -> (r: Result<
        (Session, String),
        FlowError,
    >)
        ensures
            r is Ok <==> config.valid(),
            r is Err ==> r->Err_0 == FlowError::ConfigInvalid,
            r is Ok ==> ({
                let (s, url) = r->Ok_0;
                &&& s.phase_spec() == Phase::AwaitingRedirect
                &&& s.csrf_state_spec() == csrf_state@
                &&& url@ == authorization_url_of(
                    config.auth_url_spec(),
                    config.client_id_spec(),
                    config.callback_port_spec(),
                    csrf_state@,
                )
            }),
    {
        match config.validate() {
            Err(e) => Err(e),
            Ok(()) => {
                let url = config.authorization_url(&csrf_state);
                Ok((Session { phase: Phase::AwaitingRedirect, csrf_state }, url))
            },
        }
    }

    /// Starts a flow with a fresh random anti-forgery state.
    pub fn start(config: &OAuth) -> (r: Result<(Session, String), FlowError>)
        ensures
            r is Ok <==> config.valid(),
            r is Err ==> r->Err_0 == FlowError::ConfigInvalid,
            r is Ok ==> ({
                let (s, url) = r->Ok_0;
                &&& s.phase_spec() == Phase::AwaitingRedirect
                &&& url@ == authorization_url_of(
                    config.auth_url_spec(),
                    config.client_id_spec(),
                    config.callback_port_spec(),
                    s.csrf_state_spec(),
                )
            }),
    {
        Session::start_with_state(config, random_csrf_state())
    }

    pub fn phase(&self) -> (r: Phase)
        ensures
            r == self.phase_spec(),
    {
        self.phase
    }

    pub fn csrf_state(&self) -> (r: &String)
        ensures
            r@ == self.csrf_state_spec(),
    {
        &self.csrf_state
    }

    /// The loopback port could not be bound: the flow fails.
    pub fn listener_failed(&mut self) -> (r: FlowError)
        requires
            old(self).phase_spec() == Phase::AwaitingRedirect,
        ensures
            r == FlowError::PortUnavailable,
            final(self).phase_spec() == Phase::Failed,
            final(self).csrf_state_spec() == old(self).csrf_state_spec(),
    {
        self.phase = Phase::Failed;
        FlowError::PortUnavailable
    }

    /// The request line of the one accepted connection. Gives the code to
    /// exchange where the line is well formed, carries `code` and `state`, and
    /// the state is the one issued; the flow fails otherwise, and then no code
    /// leaves the session.
    pub fn redirect_received(&mut self, line: &str) -> (r: Result<String, FlowError>)
        requires
            old(self).phase_spec() == Phase::AwaitingRedirect,
        ensures
            result_view(r) == redirect_outcome(line@, old(self).csrf_state_spec()),
            final(self).csrf_state_spec() == old(self).csrf_state_spec(),
            final(self).phase_spec() == (if r is Ok {
                Phase::Exchanging
            } else {
                Phase::Failed
            }),
    {
        let r = capture_redirect(line, &self.csrf_state);
        self.phase = if r.is_ok() {
            Phase::Exchanging
        } else {
            Phase::Failed
        };
        r
    }

    /// The outcome of the one exchange: the access token, or `None` where the
    /// token endpoint failed. The credential exists only after a success.
    pub fn token_received(&mut self, token: Option<String>) -> (r: Result<Credential, FlowError>)
        requires
            old(self).phase_spec() == Phase::Exchanging,
        ensures
            final(self).csrf_state_spec() == old(self).csrf_state_spec(),
            match token {
                Some(t) => r is Ok && r->Ok_0.secret_spec() == t@ && final(self).phase_spec()
                    == Phase::Completed,
                None => r == Err::<Credential, FlowError>(FlowError::TokenExchangeFailed)
                    && final(self).phase_spec() == Phase::Failed,
            },
    {
        match token {
            Some(t) => {
                self.phase = Phase::Completed;
                Ok(Credential::for_token(t))
            },
            None => {
                self.phase = Phase::Failed;
                Err(FlowError::TokenExchangeFailed)
            },
        }
    }
}

} // verus!
