//! The redirect listener: a one-shot unit of work that captures the
//! parameters of the first request it is handed and is then done.
//!
//! The socket belongs to the caller. The caller hands each request's target
//! to `Listener::on_request` and does what the returned action says.

use crate::endpoint::RedirectTarget;
use crate::params::{
    carries, code_key, is_last_named, lemma_missing_params_default, lemma_redirect_read_exactly,
    nonce_key, state_key, CapturedParams, OIDCCallbackParams,
};
use crate::resolve::{capture, captured, resolved, url_query_pairs};
use vstd::prelude::*;

verus! {

/// A listener as a value: the URL it resolves requests against and what it
/// has captured so far.
pub struct ListenerState {
    pub base: Seq<char>,
    pub captured: Option<CapturedParams>,
}

/// What the caller does with the request it has just handed over.
#[derive(Clone, Copy, Debug, PartialEq, Eq, Structural)]
pub enum ListenerAction {
    /// Answer the request with the success page, then stop accepting
    /// connections and end the listener.
    RespondAndStop,
    /// The listener has its capture already: leave the request unanswered.
    Ignore,
}

/// A listener that has been started for `base` and has seen no request.
pub open spec fn waiting(base: Seq<char>) -> ListenerState {
    ListenerState { base, captured: None }
}

/// One request arrives. The first is captured; none after it changes
/// anything.
pub open spec fn listener_step(listener: ListenerState, target: Seq<char>) -> (
    ListenerState,
    ListenerAction,
) {
    match listener.captured {
        None => (
            ListenerState {
                base: listener.base,
                captured: Some(captured(listener.base, target)),
            },
            ListenerAction::RespondAndStop,
        ),
        Some(_) => (listener, ListenerAction::Ignore),
    }
}

/// The listener after the requests for `targets` have arrived in that order.
pub open spec fn after_requests(listener: ListenerState, targets: Seq<Seq<char>>) -> ListenerState
    decreases targets.len(),
{
    if targets.len() == 0 {
        listener
    } else {
        after_requests(listener_step(listener, targets.first()).0, targets.drop_first())
    }
}

/// The body of the answer to the captured request.
pub open spec fn success_page() -> Seq<char> {
    "Success!"@
}

/// The redirect listener of one handshake.
#[derive(Debug)]
pub struct Listener {
    base: String,
    captured: Option<OIDCCallbackParams>,
}

impl View for Listener {
    type V = ListenerState;

    closed spec fn view(&self) -> ListenerState {
        ListenerState {
            base: self.base@,
            captured: match self.captured {
                Some(params) => Some(params@),
                None => None,
            },
        }
    }
}

impl Listener {
    /// A listener for the redirect target, waiting for its first request.
    pub fn start(target: &RedirectTarget) -> (listener: Listener)
        ensures
            listener@ == waiting(target.spec_base_url()),
    {
        Listener { base: target.base_url(), captured: None }
    }

    /// Takes the target of a request that has arrived, as the request line
    /// gives it.
    pub fn on_request(&mut self, target: &str) -> (action: ListenerAction)
        ensures
            (final(self)@, action) == listener_step(old(self)@, target@),
    {
        if self.captured.is_some() {
            ListenerAction::Ignore
        } else {
            self.captured = Some(capture(self.base.as_str(), target));
            ListenerAction::RespondAndStop
        }
    }

    /// Whether the one request has been captured.
    pub fn is_done(&self) -> (done: bool)
        ensures
            done == self@.captured is Some,
    {
        self.captured.is_some()
    }

    /// Ends the unit of work and hands out its result: the captured
    /// parameters, or `None` where no request ever arrived.
    pub fn finish(self) -> (result: Option<OIDCCallbackParams>)
        ensures
            result is Some == self@.captured is Some,
            result matches Some(params) ==> self@.captured == Some(params@),
    {
        self.captured
    }
}

impl ListenerAction {
    /// The body to answer the request with: the success page for the
    /// request that was captured, and no answer for any other.
    pub fn response(&self) -> (body: Option<&'static str>)
        ensures
            *self == ListenerAction::RespondAndStop ==> (body matches Some(page) && page@
                == success_page()),
            *self == ListenerAction::Ignore ==> body is None,
    {
        match self {
            ListenerAction::RespondAndStop => Some("Success!"),
            ListenerAction::Ignore => None,
        }
    }
}

/// Only the first request counts: however many arrive, the listener ends
/// with what the first one carried.
pub proof fn lemma_first_request_wins(base: Seq<char>, targets: Seq<Seq<char>>)
    requires
        targets.len() > 0,
    ensures
        after_requests(waiting(base), targets) == (ListenerState {
            base,
            captured: Some(captured(base, targets[0])),
        }),
{
    let first = listener_step(waiting(base), targets.first()).0;
    lemma_capture_is_kept(first, targets.drop_first());
}

/// A listener that has captured its request is unchanged by any request
/// that follows, and answers none of them.
pub proof fn lemma_capture_is_kept(listener: ListenerState, targets: Seq<Seq<char>>)
    requires
        listener.captured is Some,
    ensures
        after_requests(listener, targets) == listener,
        forall|target: Seq<char>| #[trigger]
            listener_step(listener, target) == (listener, ListenerAction::Ignore),
    decreases targets.len(),
{
    if targets.len() > 0 {
        lemma_capture_is_kept(listener, targets.drop_first());
    }
}

/// A redirect whose query carries `code`, `nonce` and `state` is captured
/// as exactly the values of the last pairs so named, whatever other
/// parameters the query holds. The query is the one the `url` crate decodes
/// from the resolved target.
pub proof fn lemma_redirect_is_captured(
    base: Seq<char>,
    target: Seq<char>,
    code_at: int,
    nonce_at: int,
    state_at: int,
)
    requires
        resolved(base, target) is Some,
        is_last_named(url_query_pairs(resolved(base, target)->Some_0), code_key(), code_at),
        is_last_named(url_query_pairs(resolved(base, target)->Some_0), nonce_key(), nonce_at),
        is_last_named(url_query_pairs(resolved(base, target)->Some_0), state_key(), state_at),
    ensures
        ({
            let pairs = url_query_pairs(resolved(base, target)->Some_0);
            listener_step(waiting(base), target).0.captured == Some(
                CapturedParams {
                    code: pairs[code_at].1,
                    nonce: pairs[nonce_at].1,
                    state: pairs[state_at].1,
                },
            )
        }),
{
    let pairs = url_query_pairs(resolved(base, target)->Some_0);
    lemma_redirect_read_exactly(pairs, code_at, nonce_at, state_at);
}

/// Whether the query of the request for `target` carries no pair named
/// `name`. A target that does not resolve carries none at all.
pub open spec fn lacks(base: Seq<char>, target: Seq<char>, name: Seq<char>) -> bool {
    resolved(base, target) matches Some(url) ==> !carries(url_query_pairs(url), name)
}

/// Every first request is captured, whatever it carries: a parameter the
/// redirect lacks is the empty string and fails nothing.
pub proof fn lemma_missing_param_fails_nothing(base: Seq<char>, target: Seq<char>)
    ensures
        listener_step(waiting(base), target).1 == ListenerAction::RespondAndStop,
        listener_step(waiting(base), target).0.captured == Some(captured(base, target)),
        lacks(base, target, code_key()) ==> captured(base, target).code == Seq::<char>::empty(),
        lacks(base, target, nonce_key()) ==> captured(base, target).nonce == Seq::<char>::empty(),
        lacks(base, target, state_key()) ==> captured(base, target).state == Seq::<char>::empty(),
{
    match resolved(base, target) {
        Some(url) => {
            lemma_missing_params_default(url_query_pairs(url));
        },
        None => {},
    }
}

} // verus!
