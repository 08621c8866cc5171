//! The first phase of the handshake, as a machine the caller drives.
//!
//! `OIDCLogin::login` takes the stage the handshake is in and the event
//! that has just happened, and returns the next stage with the one action
//! to perform. The caller performs it and comes back with its outcome.

use crate::callback::{OIDCCallback, PendingHandshake};
use crate::endpoint::{RedirectTarget, DEFAULT_PORT};
use crate::listener::{waiting, Listener, ListenerState};
use vstd::prelude::*;

verus! {

/// Why the first phase failed. Neither failure leaves a listener behind.
#[derive(Clone, Copy, Debug, PartialEq, Eq, Structural)]
pub enum SetupError {
    /// The backend did not hand out an authorization URL.
    AuthUrlRequest,
    /// The listener's address could not be bound.
    Bind,
}

/// The configuration of a login, as a value.
pub struct LoginConfig {
    pub port: Option<u16>,
    pub role: Option<Seq<char>>,
}

impl LoginConfig {
    /// Where the redirect is sent: the configured port, or the default.
    pub open spec fn target(self) -> RedirectTarget {
        RedirectTarget {
            port: match self.port {
                Some(port) => port,
                None => DEFAULT_PORT,
            },
        }
    }
}

/// How far the first phase has come, as a value.
pub enum Stage {
    /// Nothing has been asked of anyone.
    Start,
    /// The backend has been asked for an authorization URL.
    AwaitingAuthUrl,
    /// The URL is known and the listener is being started.
    Binding { auth_url: Seq<char> },
    /// The listener runs and the caller holds the URL to visit.
    Pending,
    /// The phase has failed.
    Failed(SetupError),
}

/// What has just happened, as a value.
pub enum Event {
    /// The caller asks for a login.
    Begin,
    /// The backend answered with an authorization URL.
    AuthUrl(Seq<char>),
    /// The backend's answer was an error.
    AuthUrlFailed,
    /// The listener is bound and runs in the background.
    ListenerStarted,
    /// The listener's address could not be bound.
    BindFailed,
}

/// What the caller is to do next, as a value.
pub enum Action {
    /// Ask the backend for an authorization URL.
    RequestAuthUrl { mount: Seq<char>, redirect_url: Seq<char>, role: Option<Seq<char>> },
    /// Bind `address` and run `listener` on it in the background.
    StartListener { address: Seq<char>, listener: ListenerState },
    /// Hand the pending handshake to the user, without waiting for anything.
    Return(PendingHandshake),
    /// Give up and report the error.
    Abort(SetupError),
    /// The event does not belong to the stage: nothing is to be done.
    Ignore,
}

/// One step of the first phase.
pub open spec fn login_step(config: LoginConfig, mount: Seq<char>, stage: Stage, event: Event) -> (
    Stage,
    Action,
) {
    match (stage, event) {
        (Stage::Start, Event::Begin) => (
            Stage::AwaitingAuthUrl,
            Action::RequestAuthUrl {
                mount,
                redirect_url: config.target().spec_redirect_url(),
                role: config.role,
            },
        ),
        (Stage::AwaitingAuthUrl, Event::AuthUrl(auth_url)) => (
            Stage::Binding { auth_url },
            Action::StartListener {
                address: config.target().spec_bind_address(),
                listener: waiting(config.target().spec_base_url()),
            },
        ),
        (Stage::AwaitingAuthUrl, Event::AuthUrlFailed) => (
            Stage::Failed(SetupError::AuthUrlRequest),
            Action::Abort(SetupError::AuthUrlRequest),
        ),
        (Stage::Binding { auth_url }, Event::ListenerStarted) => (
            Stage::Pending,
            Action::Return(PendingHandshake { visit_url: auth_url }),
        ),
        (Stage::Binding { auth_url }, Event::BindFailed) => (
            Stage::Failed(SetupError::Bind),
            Action::Abort(SetupError::Bind),
        ),
        (stage, _) => (stage, Action::Ignore),
    }
}

/// The stage a login is in.
#[derive(Debug)]
pub enum LoginStage {
    /// Nothing has been asked of anyone.
    Start,
    /// The backend has been asked for an authorization URL.
    AwaitingAuthUrl,
    /// The URL is known and the listener is being started.
    Binding { auth_url: String },
    /// The listener runs and the caller holds the URL to visit.
    Pending,
    /// The phase has failed.
    Failed(SetupError),
}

impl View for LoginStage {
    type V = Stage;

    open spec fn view(&self) -> Stage {
        match self {
            LoginStage::Start => Stage::Start,
            LoginStage::AwaitingAuthUrl => Stage::AwaitingAuthUrl,
            LoginStage::Binding { auth_url } => Stage::Binding { auth_url: auth_url@ },
            LoginStage::Pending => Stage::Pending,
            LoginStage::Failed(error) => Stage::Failed(*error),
        }
    }
}

/// What the caller reports: the call that begins a login, or the outcome
/// of the action the login asked for last.
#[derive(Debug)]
pub enum LoginEvent {
    /// The caller asks for a login.
    Begin,
    /// The backend answered with an authorization URL.
    AuthUrl(String),
    /// The backend's answer was an error.
    AuthUrlFailed,
    /// The listener is bound and runs in the background.
    ListenerStarted,
    /// The listener's address could not be bound.
    BindFailed,
}

impl View for LoginEvent {
    type V = Event;

    open spec fn view(&self) -> Event {
        match self {
            LoginEvent::Begin => Event::Begin,
            LoginEvent::AuthUrl(auth_url) => Event::AuthUrl(auth_url@),
            LoginEvent::AuthUrlFailed => Event::AuthUrlFailed,
            LoginEvent::ListenerStarted => Event::ListenerStarted,
            LoginEvent::BindFailed => Event::BindFailed,
        }
    }
}

/// The action a login asks its caller to perform.
#[derive(Debug)]
pub enum LoginAction {
    /// Ask the backend for an authorization URL.
    RequestAuthUrl { mount: String, redirect_url: String, role: Option<String> },
    /// Bind `address` and run `listener` on it in the background.
    StartListener { address: String, listener: Listener },
    /// Hand the pending handshake to the user, without waiting for anything.
    Return(OIDCCallback),
    /// Give up and report the error.
    Abort(SetupError),
    /// The event does not belong to the stage: nothing is to be done.
    Ignore,
}

impl View for LoginAction {
    type V = Action;

    open spec fn view(&self) -> Action {
        match self {
            LoginAction::RequestAuthUrl { mount, redirect_url, role } => Action::RequestAuthUrl {
                mount: mount@,
                redirect_url: redirect_url@,
                role: match role {
                    Some(role) => Some(role@),
                    None => None,
                },
            },
            LoginAction::StartListener { address, listener } => Action::StartListener {
                address: address@,
                listener: listener@,
            },
            LoginAction::Return(pending) => Action::Return(pending@),
            LoginAction::Abort(error) => Action::Abort(*error),
            LoginAction::Ignore => Action::Ignore,
        }
    }
}

/// A login method which uses OIDC credentials for obtaining a new token.
#[derive(Debug)]
pub struct OIDCLogin {
    /// The port of the redirect listener; 8250 where none is given.
    pub port: Option<u16>,
    /// The role asked for; the backend's default where none is given.
    pub role: Option<String>,
}

impl View for OIDCLogin {
    type V = LoginConfig;

    open spec fn view(&self) -> LoginConfig {
        LoginConfig {
            port: self.port,
            role: match self.role {
                Some(role) => Some(role@),
                None => None,
            },
        }
    }
}

impl OIDCLogin {
    /// Where this login's redirect is sent.
    pub fn target(&self) -> (target: RedirectTarget)
        ensures
            target == self@.target(),
    {
        match self.port {
            Some(port) => RedirectTarget { port },
            None => RedirectTarget { port: DEFAULT_PORT },
        }
    }

    /// Advances the first phase by one event.
    ///
    /// A login begins by asking the backend for an authorization URL that
    /// redirects to this machine. Only when the backend has answered is the
    /// listener started, and as soon as it runs the pending handshake is
    /// returned: the phase never waits for the redirect itself. An error
    /// from the backend or from binding ends the phase at once. An event
    /// that does not belong to the stage changes nothing.
    pub fn login(&self, mount: &str, stage: LoginStage, event: LoginEvent) -> (next: (
        LoginStage,
        LoginAction,
    ))
        ensures
            (next.0@, next.1@) == login_step(self@, mount@, stage@, event@),
    {
        match (stage, event) {
            (LoginStage::Start, LoginEvent::Begin) => {
                let role = match &self.role {
                    Some(role) => Some(role.clone()),
                    None => None,
                };
                let action = LoginAction::RequestAuthUrl {
                    mount: mount.to_owned(),
                    redirect_url: self.target().redirect_url(),
                    role,
                };
                (LoginStage::AwaitingAuthUrl, action)
            },
            (LoginStage::AwaitingAuthUrl, LoginEvent::AuthUrl(auth_url)) => {
                let target = self.target();
                let action = LoginAction::StartListener {
                    address: target.bind_address(),
                    listener: Listener::start(&target),
                };
                (LoginStage::Binding { auth_url }, action)
            },
            (LoginStage::AwaitingAuthUrl, LoginEvent::AuthUrlFailed) => (
                LoginStage::Failed(SetupError::AuthUrlRequest),
                LoginAction::Abort(SetupError::AuthUrlRequest),
            ),
            (LoginStage::Binding { auth_url }, LoginEvent::ListenerStarted) => (
                LoginStage::Pending,
                LoginAction::Return(OIDCCallback { url: auth_url }),
            ),
            (LoginStage::Binding { auth_url: _ }, LoginEvent::BindFailed) => (
                LoginStage::Failed(SetupError::Bind),
                LoginAction::Abort(SetupError::Bind),
            ),
            (stage, _) => (stage, LoginAction::Ignore),
        }
    }
}

/// The stage reached when `events` happen one after another.
pub open spec fn stage_after(
    config: LoginConfig,
    mount: Seq<char>,
    stage: Stage,
    events: Seq<Event>,
) -> Stage
    decreases events.len(),
{
    if events.len() == 0 {
        stage
    } else {
        stage_after(
            config,
            mount,
            login_step(config, mount, stage, events.first()).0,
            events.drop_first(),
        )
    }
}

/// The actions asked for when `events` happen one after another: one for
/// each event, in order.
pub open spec fn actions_of(
    config: LoginConfig,
    mount: Seq<char>,
    stage: Stage,
    events: Seq<Event>,
) -> Seq<Action>
    decreases events.len(),
{
    if events.len() == 0 {
        Seq::empty()
    } else {
        seq![login_step(config, mount, stage, events.first()).1] + actions_of(
            config,
            mount,
            login_step(config, mount, stage, events.first()).0,
            events.drop_first(),
        )
    }
}

/// Every event is answered by one action.
pub proof fn lemma_one_action_per_event(
    config: LoginConfig,
    mount: Seq<char>,
    stage: Stage,
    events: Seq<Event>,
)
    ensures
        actions_of(config, mount, stage, events).len() == events.len(),
    decreases events.len(),
{
    if events.len() > 0 {
        let next = login_step(config, mount, stage, events.first()).0;
        lemma_one_action_per_event(config, mount, next, events.drop_first());
    }
}

/// A listener is started only in answer to an authorization URL: in a run
/// in which the backend never hands one out, no action starts a listener.
pub proof fn lemma_listener_needs_auth_url(
    config: LoginConfig,
    mount: Seq<char>,
    stage: Stage,
    events: Seq<Event>,
)
    requires
        forall|at: int| 0 <= at < events.len() ==> !(events[at] is AuthUrl),
    ensures
        forall|at: int|
            0 <= at < events.len() ==> !(#[trigger] actions_of(
                config,
                mount,
                stage,
                events,
            )[at] is StartListener),
    decreases events.len(),
{
    lemma_one_action_per_event(config, mount, stage, events);
    if events.len() > 0 {
        let next = login_step(config, mount, stage, events.first()).0;
        let rest = events.drop_first();
        assert forall|at: int| 0 <= at < rest.len() implies !(rest[at] is AuthUrl) by {
            assert(rest[at] == events[at + 1]);
        }
        lemma_listener_needs_auth_url(config, mount, next, rest);
        lemma_one_action_per_event(config, mount, next, rest);
        assert(!(events[0] is AuthUrl));
        assert forall|at: int| 0 <= at < events.len() implies !(#[trigger] actions_of(
            config,
            mount,
            stage,
            events,
        )[at] is StartListener) by {
            if at > 0 {
                assert(actions_of(config, mount, stage, events)[at] == actions_of(
                    config,
                    mount,
                    next,
                    rest,
                )[at - 1]);
            }
        }
    }
}

/// Whether the first phase is over: the login has returned or has failed.
pub open spec fn finished(stage: Stage) -> bool {
    stage is Pending || stage is Failed
}

/// A login that is over stays as it is: no later event changes the stage or
/// is answered by anything but `Ignore`.
pub proof fn lemma_finished_is_final(
    config: LoginConfig,
    mount: Seq<char>,
    stage: Stage,
    events: Seq<Event>,
)
    requires
        finished(stage),
    ensures
        stage_after(config, mount, stage, events) == stage,
        forall|at: int|
            0 <= at < events.len() ==> #[trigger] actions_of(config, mount, stage, events)[at]
                == Action::Ignore,
    decreases events.len(),
{
    lemma_one_action_per_event(config, mount, stage, events);
    if events.len() > 0 {
        let rest = events.drop_first();
        lemma_finished_is_final(config, mount, stage, rest);
        lemma_one_action_per_event(config, mount, stage, rest);
        assert forall|at: int| 0 <= at < events.len() implies #[trigger] actions_of(
            config,
            mount,
            stage,
            events,
        )[at] == Action::Ignore by {
            if at > 0 {
                assert(actions_of(config, mount, stage, events)[at] == actions_of(
                    config,
                    mount,
                    stage,
                    rest,
                )[at - 1]);
            }
        }
    }
}

/// Where the backend refuses the authorization URL, the login fails with
/// that and no listener is ever started, whatever happens afterwards.
pub proof fn lemma_failed_request_starts_no_listener(
    config: LoginConfig,
    mount: Seq<char>,
    later: Seq<Event>,
)
    ensures
        ({
            let events = seq![Event::Begin, Event::AuthUrlFailed] + later;
            &&& stage_after(config, mount, Stage::Start, events) == Stage::Failed(
                SetupError::AuthUrlRequest,
            )
            &&& actions_of(config, mount, Stage::Start, events)[1] == Action::Abort(
                SetupError::AuthUrlRequest,
            )
            &&& forall|at: int|
                0 <= at < events.len() ==> !(#[trigger] actions_of(
                    config,
                    mount,
                    Stage::Start,
                    events,
                )[at] is StartListener)
        }),
{
    let events = seq![Event::Begin, Event::AuthUrlFailed] + later;
    let failed = Stage::Failed(SetupError::AuthUrlRequest);
    let after_begin = events.drop_first();
    assert(after_begin.drop_first() =~= later);
    assert(after_begin.first() == Event::AuthUrlFailed);
    assert(stage_after(config, mount, Stage::Start, events) == stage_after(
        config,
        mount,
        Stage::AwaitingAuthUrl,
        after_begin,
    ));
    assert(stage_after(config, mount, Stage::AwaitingAuthUrl, after_begin) == stage_after(
        config,
        mount,
        failed,
        later,
    ));
    lemma_finished_is_final(config, mount, failed, later);
    lemma_one_action_per_event(config, mount, failed, later);
    lemma_one_action_per_event(config, mount, Stage::AwaitingAuthUrl, after_begin);
    lemma_one_action_per_event(config, mount, Stage::Start, events);
    let actions = actions_of(config, mount, Stage::Start, events);
    let tail = actions_of(config, mount, failed, later);
    assert forall|at: int| 0 <= at < events.len() implies !(#[trigger] actions[at]
        is StartListener) by {
        if at >= 2 {
            assert(actions[at] == actions_of(config, mount, Stage::AwaitingAuthUrl, after_begin)[at
                - 1]);
            assert(actions[at] == tail[at - 2]);
        } else if at == 1 {
            assert(actions[at] == actions_of(config, mount, Stage::AwaitingAuthUrl, after_begin)[0]);
        }
    }
    assert(actions[1] == actions_of(config, mount, Stage::AwaitingAuthUrl, after_begin)[0]);
}

/// A login needs three events and no redirect: asked to begin, it requests
/// the authorization URL; given the URL, it has the listener started; told
/// that the listener runs, it returns the URL to visit.
pub proof fn lemma_login_returns_once_listening(
    config: LoginConfig,
    mount: Seq<char>,
    auth_url: Seq<char>,
)
    ensures
        ({
            let events = seq![Event::Begin, Event::AuthUrl(auth_url), Event::ListenerStarted];
            &&& stage_after(config, mount, Stage::Start, events) == Stage::Pending
            &&& actions_of(config, mount, Stage::Start, events) == seq![
                Action::RequestAuthUrl {
                    mount,
                    redirect_url: config.target().spec_redirect_url(),
                    role: config.role,
                },
                Action::StartListener {
                    address: config.target().spec_bind_address(),
                    listener: waiting(config.target().spec_base_url()),
                },
                Action::Return(PendingHandshake { visit_url: auth_url }),
            ]
        }),
{
    let events = seq![Event::Begin, Event::AuthUrl(auth_url), Event::ListenerStarted];
    let second = events.drop_first();
    let third = second.drop_first();
    assert(third.drop_first().len() == 0);
    reveal_with_fuel(stage_after, 4);
    reveal_with_fuel(actions_of, 4);
    assert(actions_of(config, mount, Stage::Start, events) =~= seq![
        Action::RequestAuthUrl {
            mount,
            redirect_url: config.target().spec_redirect_url(),
            role: config.role,
        },
        Action::StartListener {
            address: config.target().spec_bind_address(),
            listener: waiting(config.target().spec_base_url()),
        },
        Action::Return(PendingHandshake { visit_url: auth_url }),
    ]);
}

/// How far a stage is along the phase. No step leads back.
pub open spec fn progress(stage: Stage) -> nat {
    match stage {
        Stage::Start => 0,
        Stage::AwaitingAuthUrl => 1,
        Stage::Binding { .. } => 2,
        Stage::Pending => 3,
        Stage::Failed(_) => 3,
    }
}

/// An event either is passed over and changes nothing, or moves the phase
/// forward; and what is asked for tells the stage it was asked in.
pub proof fn lemma_step_moves_forward(
    config: LoginConfig,
    mount: Seq<char>,
    stage: Stage,
    event: Event,
)
    ensures
        ({
            let (next, action) = login_step(config, mount, stage, event);
            &&& action is Ignore ==> next == stage
            &&& !(action is Ignore) ==> progress(next) > progress(stage)
            &&& action is RequestAuthUrl ==> stage is Start
            &&& action is StartListener ==> stage is AwaitingAuthUrl
            &&& action is Return ==> stage is Binding
            &&& action is Abort ==> next is Failed
        }),
{
}

/// Events that happen one after another can be taken in two parts.
pub proof fn lemma_stage_after_both(
    config: LoginConfig,
    mount: Seq<char>,
    stage: Stage,
    first: Seq<Event>,
    then: Seq<Event>,
)
    ensures
        stage_after(config, mount, stage, first + then) == stage_after(
            config,
            mount,
            stage_after(config, mount, stage, first),
            then,
        ),
    decreases first.len(),
{
    if first.len() == 0 {
        assert(first + then =~= then);
    } else {
        let next = login_step(config, mount, stage, first.first()).0;
        assert((first + then).first() == first.first());
        assert((first + then).drop_first() =~= first.drop_first() + then);
        lemma_stage_after_both(config, mount, next, first.drop_first(), then);
    }
}

/// The action that answers an event is the step taken from the stage that
/// the events before it have led to.
pub proof fn lemma_action_answers_event(
    config: LoginConfig,
    mount: Seq<char>,
    stage: Stage,
    events: Seq<Event>,
    at: int,
)
    requires
        0 <= at < events.len(),
    ensures
        actions_of(config, mount, stage, events)[at] == login_step(
            config,
            mount,
            stage_after(config, mount, stage, events.take(at)),
            events[at],
        ).1,
    decreases events.len(),
{
    let next = login_step(config, mount, stage, events.first()).0;
    let rest = events.drop_first();
    lemma_one_action_per_event(config, mount, next, rest);
    if at == 0 {
        assert(events.take(0).len() == 0);
    } else {
        lemma_action_answers_event(config, mount, next, rest, at - 1);
        assert(events.take(at).first() == events.first());
        assert(events.take(at).drop_first() =~= rest.take(at - 1));
        assert(actions_of(config, mount, stage, events)[at] == actions_of(
            config,
            mount,
            next,
            rest,
        )[at - 1]);
    }
}

/// The phase never goes back, whatever happens.
pub proof fn lemma_progress_is_kept(
    config: LoginConfig,
    mount: Seq<char>,
    stage: Stage,
    events: Seq<Event>,
)
    ensures
        progress(stage_after(config, mount, stage, events)) >= progress(stage),
        stage is Failed ==> stage_after(config, mount, stage, events) == stage,
    decreases events.len(),
{
    if events.len() > 0 {
        let next = login_step(config, mount, stage, events.first()).0;
        lemma_step_moves_forward(config, mount, stage, events.first());
        lemma_progress_is_kept(config, mount, next, events.drop_first());
    }
}

/// Nothing is done twice. In any run of events, the backend is asked for an
/// authorization URL at most once, at most one listener is started, the
/// login returns at most once and fails at most once.
pub proof fn lemma_nothing_is_retried(
    config: LoginConfig,
    mount: Seq<char>,
    stage: Stage,
    events: Seq<Event>,
    earlier: int,
    later: int,
)
    requires
        0 <= earlier < later < events.len(),
    ensures
        ({
            let actions = actions_of(config, mount, stage, events);
            &&& actions.len() == events.len()
            &&& !(actions[earlier] is RequestAuthUrl && actions[later] is RequestAuthUrl)
            &&& !(actions[earlier] is StartListener && actions[later] is StartListener)
            &&& !(actions[earlier] is Return && actions[later] is Return)
            &&& !(actions[earlier] is Abort && actions[later] is Abort)
        }),
{
    lemma_one_action_per_event(config, mount, stage, events);
    let before_earlier = stage_after(config, mount, stage, events.take(earlier));
    let after_earlier = stage_after(config, mount, stage, events.take(earlier + 1));
    let before_later = stage_after(config, mount, stage, events.take(later));
    lemma_action_answers_event(config, mount, stage, events, earlier);
    lemma_action_answers_event(config, mount, stage, events, later);
    lemma_step_moves_forward(config, mount, before_earlier, events[earlier]);
    lemma_step_moves_forward(config, mount, before_later, events[later]);
    assert(after_earlier == login_step(config, mount, before_earlier, events[earlier]).0) by {
        assert(events.take(earlier + 1) =~= events.take(earlier) + seq![events[earlier]]);
        lemma_stage_after_both(config, mount, stage, events.take(earlier), seq![events[earlier]]);
        let one = seq![events[earlier]];
        assert(one.drop_first().len() == 0);
        assert(stage_after(config, mount, before_earlier, one) == stage_after(
            config,
            mount,
            login_step(config, mount, before_earlier, one.first()).0,
            one.drop_first(),
        ));
    }
    assert(progress(before_later) >= progress(after_earlier) && (after_earlier is Failed
        ==> before_later == after_earlier)) by {
        let between = events.subrange(earlier + 1, later);
        assert(events.take(later) =~= events.take(earlier + 1) + between);
        lemma_stage_after_both(config, mount, stage, events.take(earlier + 1), between);
        lemma_progress_is_kept(config, mount, after_earlier, between);
    }
}

} // verus!
