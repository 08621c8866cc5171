//! The second phase of the handshake: what the listener captured is turned
//! into the one token exchange the backend is asked for.

use crate::params::{CapturedParams, OIDCCallbackParams};
use vstd::prelude::*;

verus! {

/// A handshake whose listener is running, as a value: the URL the user has
/// to visit.
pub struct PendingHandshake {
    pub visit_url: Seq<char>,
}

/// What the backend is asked to exchange for a token.
pub struct Exchange {
    pub mount: Seq<char>,
    pub state: Seq<char>,
    pub nonce: Seq<char>,
    pub code: Seq<char>,
}

/// The exchange for a captured redirect: its three values, untouched, at
/// the caller's mount.
pub open spec fn exchange_for(mount: Seq<char>, params: CapturedParams) -> Exchange {
    Exchange { mount, state: params.state, nonce: params.nonce, code: params.code }
}

/// The listener ended before any redirect arrived.
#[derive(Clone, Copy, Debug, PartialEq, Eq, Structural)]
pub struct CaptureError;

/// The request for the backend's code-exchange operation.
#[derive(Debug)]
pub struct ExchangeRequest {
    pub mount: String,
    pub state: String,
    pub nonce: String,
    pub code: String,
}

impl View for ExchangeRequest {
    type V = Exchange;

    open spec fn view(&self) -> Exchange {
        Exchange { mount: self.mount@, state: self.state@, nonce: self.nonce@, code: self.code@ }
    }
}

/// What `login` hands back: the authorization URL the user must visit. The
/// value is spent by `callback`, so one handshake leads to one exchange.
#[derive(Debug)]
pub struct OIDCCallback {
    pub url: String,
}

impl View for OIDCCallback {
    type V = PendingHandshake;

    open spec fn view(&self) -> PendingHandshake {
        PendingHandshake { visit_url: self.url@ }
    }
}

impl OIDCCallback {
    /// Takes the outcome of the listener, once it has ended, and names the
    /// exchange to ask the backend for: the captured state, nonce and code
    /// as they are, with nothing added and nothing left out. A listener
    /// that ended without a capture fails the handshake. Whatever the
    /// backend answers to the exchange is the handshake's result as it is.
    pub fn callback(self, mount: &str, outcome: Option<OIDCCallbackParams>) -> (result: Result<
        ExchangeRequest,
        CaptureError,
    >)
        ensures
            outcome matches Some(params) ==> (result matches Ok(request) && request@
                == exchange_for(mount@, params@)),
            outcome is None ==> result == Err::<ExchangeRequest, CaptureError>(CaptureError),
    {
        match outcome {
            Some(params) => Ok(
                ExchangeRequest {
                    mount: mount.to_owned(),
                    state: params.state,
                    nonce: params.nonce,
                    code: params.code,
                },
            ),
            None => Err(CaptureError),
        }
    }
}

} // verus!
