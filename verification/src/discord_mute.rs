//! The user's mute and deafen switches: a Discord session that is kept, and
//! made anew when it turns out to be stale.

pub mod laws;

use vstd::prelude::*;
use crate::auth::{
    auth_next, authorize_and_save_token, AuthEvent, AuthEventView, AuthStep, AuthStepView,
    Authorization, AuthorizationView,
};
use crate::config::{AppConfig, ConfigView};
use crate::discord_ipc::client::VoiceSettings;
use crate::text::join;
use crate::token::{TokenData, TokenView};

verus! {

/// What a session is used for.
#[derive(Debug, Clone, Copy, PartialEq, Eq, Structural)]
pub enum Operation {
    ToggleMute,
    ToggleDeafen,
    ReadVoice,
}

impl Operation {
    /// What the operation is called in messages.
    pub open spec fn spec_label(self) -> Seq<char> {
        match self {
            Operation::ToggleMute => "mute toggle"@,
            Operation::ToggleDeafen => "deafen toggle"@,
            Operation::ReadVoice => "voice settings read"@,
        }
    }

    /// What the operation is called in messages.
    pub fn label(self) -> (r: &'static str)
        ensures
            r@ == self.spec_label(),
    {
        match self {
            Operation::ToggleMute => "mute toggle",
            Operation::ToggleDeafen => "deafen toggle",
            Operation::ReadVoice => "voice settings read",
        }
    }
}

/// How far an operation has come, by what is to be done next.
#[derive(Debug, Clone, Copy, PartialEq, Eq, Structural)]
pub enum Exchange {
    /// Read the voice settings.
    Read,
    /// Set mute to this; the settings were these before.
    SetMute(bool, VoiceSettings),
    /// Set deafen to this.
    SetDeaf(bool),
    /// Read what the settings have become.
    ReadBack,
}

/// Which attempt at an operation this is.
#[derive(Debug)]
pub enum Attempt {
    First,
    /// The first one failed with this error.
    Second(String),
}

/// An `Attempt` as contracts speak of it.
pub enum AttemptView {
    First,
    Second(Seq<char>),
}

impl View for Attempt {
    type V = AttemptView;

    open spec fn view(&self) -> AttemptView {
        match self {
            Attempt::First => AttemptView::First,
            Attempt::Second(e) => AttemptView::Second(e@),
        }
    }
}

/// How far a session has been made, by what is to be done next.
#[derive(Debug)]
pub enum Connecting {
    /// Open a connection to Discord and shake hands.
    Open,
    /// Authenticate with the token at hand.
    Authenticate,
    /// Get a fresh token.
    Refresh(Authorization),
    /// Authenticate with this fresh token.
    AuthenticateFresh(TokenData),
}

/// A `Connecting` as contracts speak of it.
#[verifier::ext_equal]
pub enum ConnectingView {
    Open,
    Authenticate,
    Refresh(AuthorizationView),
    AuthenticateFresh(TokenView),
}

impl View for Connecting {
    type V = ConnectingView;

    open spec fn view(&self) -> ConnectingView {
        match self {
            Connecting::Open => ConnectingView::Open,
            Connecting::Authenticate => ConnectingView::Authenticate,
            Connecting::Refresh(authorization) => ConnectingView::Refresh(authorization@),
            Connecting::AuthenticateFresh(token) => ConnectingView::AuthenticateFresh(token@),
        }
    }
}

/// What a session is made for.
#[derive(Debug)]
pub enum Purpose {
    /// To have one.
    Connect,
    /// To try this again, which failed with this error.
    Retry(Operation, String),
}

/// A `Purpose` as contracts speak of it.
pub enum PurposeView {
    Connect,
    Retry(Operation, Seq<char>),
}

impl View for Purpose {
    type V = PurposeView;

    open spec fn view(&self) -> PurposeView {
        match self {
            Purpose::Connect => PurposeView::Connect,
            Purpose::Retry(operation, e) => PurposeView::Retry(*operation, e@),
        }
    }
}

/// What is to be done next.
#[derive(Debug)]
pub enum Task {
    Idle,
    Exchange(Operation, Exchange, Attempt),
    Reconnect(Connecting, Purpose),
}

/// A `Task` as contracts speak of it.
#[verifier::ext_equal]
pub enum TaskView {
    Idle,
    Exchange(Operation, Exchange, AttemptView),
    Reconnect(ConnectingView, PurposeView),
}

impl View for Task {
    type V = TaskView;

    open spec fn view(&self) -> TaskView {
        match self {
            Task::Idle => TaskView::Idle,
            Task::Exchange(operation, exchange, attempt) => TaskView::Exchange(
                *operation,
                *exchange,
                attempt@,
            ),
            Task::Reconnect(connecting, purpose) => TaskView::Reconnect(connecting@, purpose@),
        }
    }
}

/// What came of the last thing that was done. Errors are the texts by which
/// they read.
#[derive(Debug)]
pub enum Event {
    Opened(Result<(), String>),
    Authenticated(Result<(), String>),
    Authorization(AuthEvent),
    Voice(Result<VoiceSettings, String>),
    Accepted(Result<(), String>),
}

/// An `Event` as contracts speak of it; the errors of steps that give nothing
/// back are options.
pub enum EventView {
    Opened(Option<Seq<char>>),
    Authenticated(Option<Seq<char>>),
    Authorization(AuthEventView),
    Voice(Result<VoiceSettings, Seq<char>>),
    Accepted(Option<Seq<char>>),
}

/// The error of a step that gives nothing back.
pub open spec fn failure(result: Result<(), String>) -> Option<Seq<char>> {
    match result {
        Ok(_) => None,
        Err(e) => Some(e@),
    }
}

impl View for Event {
    type V = EventView;

    open spec fn view(&self) -> EventView {
        match self {
            Event::Opened(result) => EventView::Opened(failure(*result)),
            Event::Authenticated(result) => EventView::Authenticated(failure(*result)),
            Event::Authorization(event) => EventView::Authorization(event@),
            Event::Voice(Ok(settings)) => EventView::Voice(Ok(*settings)),
            Event::Voice(Err(e)) => EventView::Voice(Err(e@)),
            Event::Accepted(result) => EventView::Accepted(failure(*result)),
        }
    }
}

/// What an event led to.
#[derive(Debug)]
pub enum Outcome {
    /// There is more to be done.
    Continue,
    /// There is a session now.
    Connected,
    /// The operation is done; these are the voice settings now.
    Voice(VoiceSettings),
    /// It came to nothing, with this error.
    Failed(String),
}

/// An `Outcome` as contracts speak of it.
pub enum OutcomeView {
    Continue,
    Connected,
    Voice(VoiceSettings),
    Failed(Seq<char>),
}

impl View for Outcome {
    type V = OutcomeView;

    open spec fn view(&self) -> OutcomeView {
        match self {
            Outcome::Continue => OutcomeView::Continue,
            Outcome::Connected => OutcomeView::Connected,
            Outcome::Voice(settings) => OutcomeView::Voice(*settings),
            Outcome::Failed(e) => OutcomeView::Failed(e@),
        }
    }
}

/// A Discord session and what is being done with it.
#[derive(Debug)]
pub struct DiscordMute {
    pub config: AppConfig,
    /// The token to authenticate with, once there is one.
    pub token: Option<TokenData>,
    /// Whether there is a session.
    pub connected: bool,
    pub task: Task,
}

/// A `DiscordMute` as contracts speak of it.
pub struct DiscordMuteView {
    pub config: ConfigView,
    pub token: Option<TokenView>,
    pub connected: bool,
    pub task: TaskView,
}

/// An optional token as contracts speak of it.
pub open spec fn opt_token(token: Option<TokenData>) -> Option<TokenView> {
    match token {
        Some(token) => Some(token@),
        None => None,
    }
}

impl View for DiscordMute {
    type V = DiscordMuteView;

    open spec fn view(&self) -> DiscordMuteView {
        DiscordMuteView {
            config: self.config@,
            token: opt_token(self.token),
            connected: self.connected,
            task: self.task@,
        }
    }
}

/// Why an operation cannot be attempted without a session.
pub open spec fn not_connected() -> Seq<char> {
    "Discord IPC session is not connected"@
}

/// How it reads that no session could be made to try an operation again.
pub open spec fn reconnect_failed(operation: Operation) -> Seq<char> {
    "failed to reconnect Discord IPC after "@ + operation.spec_label()
}

/// How it reads that the second attempt failed as well.
pub open spec fn retry_failed(operation: Operation, first_error: Seq<char>) -> Seq<char> {
    "retry after Discord "@ + operation.spec_label() + " also failed; first error was: "@
        + first_error
}

/// The state after an operation was started: it is attempted if there is a
/// session, and otherwise a session is made first, as after a failure.
pub open spec fn op_started(state: DiscordMuteView, operation: Operation) -> DiscordMuteView {
    DiscordMuteView {
        task: if state.connected {
            TaskView::Exchange(operation, Exchange::Read, AttemptView::First)
        } else {
            TaskView::Reconnect(ConnectingView::Open, PurposeView::Retry(operation, not_connected()))
        },
        ..state
    }
}

/// The state when an attempt failed, and what comes of it: after the first one
/// the session is given up and made anew, after the second one the operation
/// fails.
pub open spec fn attempt_failed(
    state: DiscordMuteView,
    operation: Operation,
    attempt: AttemptView,
    error: Seq<char>,
) -> (DiscordMuteView, OutcomeView) {
    match attempt {
        AttemptView::First => (
            DiscordMuteView {
                connected: false,
                task: TaskView::Reconnect(
                    ConnectingView::Open,
                    PurposeView::Retry(operation, error),
                ),
                ..state
            },
            OutcomeView::Continue,
        ),
        AttemptView::Second(first_error) => (
            DiscordMuteView { task: TaskView::Idle, ..state },
            OutcomeView::Failed(retry_failed(operation, first_error)),
        ),
    }
}

/// The state when no session could be made, and what comes of it.
pub open spec fn connecting_failed(
    state: DiscordMuteView,
    purpose: PurposeView,
    error: Seq<char>,
) -> (DiscordMuteView, OutcomeView) {
    (
        DiscordMuteView { task: TaskView::Idle, ..state },
        OutcomeView::Failed(
            match purpose {
                PurposeView::Connect => error,
                PurposeView::Retry(operation, _) => reconnect_failed(operation),
            },
        ),
    )
}

/// The state when a session was made, and what comes of it.
pub open spec fn session_made(
    state: DiscordMuteView,
    purpose: PurposeView,
    token: Option<TokenView>,
) -> (DiscordMuteView, OutcomeView) {
    match purpose {
        PurposeView::Connect => (
            DiscordMuteView { token, connected: true, task: TaskView::Idle, ..state },
            OutcomeView::Connected,
        ),
        PurposeView::Retry(operation, first_error) => (
            DiscordMuteView {
                token,
                connected: true,
                task: TaskView::Exchange(
                    operation,
                    Exchange::Read,
                    AttemptView::Second(first_error),
                ),
                ..state
            },
            OutcomeView::Continue,
        ),
    }
}

/// How an operation goes on after an event. A toggle sets the opposite of what
/// it read. Setting mute changes nothing else; what deafening changes is read
/// back.
pub open spec fn exchange_next(
    state: DiscordMuteView,
    operation: Operation,
    exchange: Exchange,
    attempt: AttemptView,
    event: EventView,
) -> (DiscordMuteView, OutcomeView) {
    let done = DiscordMuteView { task: TaskView::Idle, ..state };
    match (exchange, event) {
        (Exchange::Read, EventView::Voice(Ok(current))) => match operation {
            Operation::ToggleMute => (
                DiscordMuteView {
                    task: TaskView::Exchange(
                        operation,
                        Exchange::SetMute(!current.mute, current),
                        attempt,
                    ),
                    ..state
                },
                OutcomeView::Continue,
            ),
            Operation::ToggleDeafen => (
                DiscordMuteView {
                    task: TaskView::Exchange(operation, Exchange::SetDeaf(!current.deaf), attempt),
                    ..state
                },
                OutcomeView::Continue,
            ),
            Operation::ReadVoice => (done, OutcomeView::Voice(current)),
        },
        (Exchange::Read, EventView::Voice(Err(e))) => attempt_failed(state, operation, attempt, e),
        (Exchange::SetMute(mute, current), EventView::Accepted(None)) => (
            done,
            OutcomeView::Voice(VoiceSettings { mute, deaf: current.deaf }),
        ),
        (Exchange::SetMute(_, _), EventView::Accepted(Some(e))) => attempt_failed(
            state,
            operation,
            attempt,
            e,
        ),
        (Exchange::SetDeaf(_), EventView::Accepted(None)) => (
            DiscordMuteView {
                task: TaskView::Exchange(operation, Exchange::ReadBack, attempt),
                ..state
            },
            OutcomeView::Continue,
        ),
        (Exchange::SetDeaf(_), EventView::Accepted(Some(e))) => attempt_failed(
            state,
            operation,
            attempt,
            e,
        ),
        (Exchange::ReadBack, EventView::Voice(Ok(settings))) => (done, OutcomeView::Voice(settings)),
        (Exchange::ReadBack, EventView::Voice(Err(e))) => attempt_failed(
            state,
            operation,
            attempt,
            e,
        ),
        _ => (state, OutcomeView::Continue),
    }
}

/// How the making of a session goes on after an event. The token at hand is
/// tried first; if there is none or it does not do, a fresh one is got, and is
/// kept once it has done.
pub open spec fn connecting_next(
    state: DiscordMuteView,
    connecting: ConnectingView,
    purpose: PurposeView,
    event: EventView,
) -> (DiscordMuteView, OutcomeView) {
    let refresh = DiscordMuteView {
        task: TaskView::Reconnect(
            ConnectingView::Refresh(AuthorizationView::Authorize),
            purpose,
        ),
        ..state
    };
    match (connecting, event) {
        (ConnectingView::Open, EventView::Opened(None)) => match state.token {
            Some(_) => (
                DiscordMuteView {
                    task: TaskView::Reconnect(ConnectingView::Authenticate, purpose),
                    ..state
                },
                OutcomeView::Continue,
            ),
            None => (refresh, OutcomeView::Continue),
        },
        (ConnectingView::Open, EventView::Opened(Some(e))) => connecting_failed(state, purpose, e),
        (ConnectingView::Authenticate, EventView::Authenticated(None)) => session_made(
            state,
            purpose,
            state.token,
        ),
        (ConnectingView::Authenticate, EventView::Authenticated(Some(_))) => (
            refresh,
            OutcomeView::Continue,
        ),
        (ConnectingView::Refresh(authorization), EventView::Authorization(event)) => match auth_next(
            authorization,
            event,
        ) {
            AuthStepView::Continue(next) => (
                DiscordMuteView {
                    task: TaskView::Reconnect(ConnectingView::Refresh(next), purpose),
                    ..state
                },
                OutcomeView::Continue,
            ),
            AuthStepView::Done(token) => (
                DiscordMuteView {
                    task: TaskView::Reconnect(ConnectingView::AuthenticateFresh(token), purpose),
                    ..state
                },
                OutcomeView::Continue,
            ),
            AuthStepView::Failed(e) => connecting_failed(state, purpose, e),
        },
        (ConnectingView::AuthenticateFresh(token), EventView::Authenticated(None)) => session_made(
            state,
            purpose,
            Some(token),
        ),
        (ConnectingView::AuthenticateFresh(_), EventView::Authenticated(Some(e))) =>
            connecting_failed(state, purpose, e),
        _ => (state, OutcomeView::Continue),
    }
}

/// How things go on after an event, and what comes of it. An event out of turn
/// changes nothing.
pub open spec fn mute_next(state: DiscordMuteView, event: EventView) -> (
    DiscordMuteView,
    OutcomeView,
) {
    match state.task {
        TaskView::Idle => (state, OutcomeView::Continue),
        TaskView::Exchange(operation, exchange, attempt) => exchange_next(
            state,
            operation,
            exchange,
            attempt,
            event,
        ),
        TaskView::Reconnect(connecting, purpose) => connecting_next(
            state,
            connecting,
            purpose,
            event,
        ),
    }
}

impl DiscordMute {
    /// Starts to make a session. `token` is the usable token at hand, if there
    /// is one.
    pub fn connect(config: AppConfig, token: Option<TokenData>) -> (r: DiscordMute)
        ensures
            r@ == (DiscordMuteView {
                config: config@,
                token: opt_token(token),
                connected: false,
                task: TaskView::Reconnect(ConnectingView::Open, PurposeView::Connect),
            }),
    {
        DiscordMute {
            config,
            token,
            connected: false,
            task: Task::Reconnect(Connecting::Open, Purpose::Connect),
        }
    }

    fn start(&mut self, operation: Operation)
        ensures
            final(self)@ == op_started(old(self)@, operation),
    {
        if self.connected {
            self.task = Task::Exchange(operation, Exchange::Read, Attempt::First);
        } else {
            let error = "Discord IPC session is not connected".to_owned();
            self.task = Task::Reconnect(Connecting::Open, Purpose::Retry(operation, error));
        }
    }

    /// Starts to flip self-mute.
    pub fn toggle_mute(&mut self)
        ensures
            final(self)@ == op_started(old(self)@, Operation::ToggleMute),
    {
        self.start(Operation::ToggleMute);
    }

    /// Starts to flip self-deafen.
    pub fn toggle_deafen(&mut self)
        ensures
            final(self)@ == op_started(old(self)@, Operation::ToggleDeafen),
    {
        self.start(Operation::ToggleDeafen);
    }

    /// Starts to read the voice settings.
    pub fn voice_settings(&mut self)
        ensures
            final(self)@ == op_started(old(self)@, Operation::ReadVoice),
    {
        self.start(Operation::ReadVoice);
    }

    fn fail_attempt(&mut self, operation: Operation, attempt: Attempt, error: String) -> (r:
        Outcome)
        ensures
            (final(self)@, r@) == attempt_failed(old(self)@, operation, attempt@, error@),
    {
        match attempt {
            Attempt::First => {
                self.connected = false;
                self.task = Task::Reconnect(Connecting::Open, Purpose::Retry(operation, error));
                Outcome::Continue
            },
            Attempt::Second(first_error) => {
                self.task = Task::Idle;
                let mut text = join("retry after Discord ", operation.label());
                text.append(" also failed; first error was: ");
                text.append(first_error.as_str());
                Outcome::Failed(text)
            },
        }
    }

    fn fail_connecting(&mut self, purpose: Purpose, error: String) -> (r: Outcome)
        ensures
            (final(self)@, r@) == connecting_failed(old(self)@, purpose@, error@),
    {
        self.task = Task::Idle;
        match purpose {
            Purpose::Connect => Outcome::Failed(error),
            Purpose::Retry(operation, _) => Outcome::Failed(
                join("failed to reconnect Discord IPC after ", operation.label()),
            ),
        }
    }

    fn use_session(&mut self, purpose: Purpose) -> (r: Outcome)
        ensures
            (final(self)@, r@) == session_made(old(self)@, purpose@, old(self)@.token),
    {
        self.connected = true;
        match purpose {
            Purpose::Connect => {
                self.task = Task::Idle;
                Outcome::Connected
            },
            Purpose::Retry(operation, first_error) => {
                self.task = Task::Exchange(
                    operation,
                    Exchange::Read,
                    Attempt::Second(first_error),
                );
                Outcome::Continue
            },
        }
    }

    fn refresh_token(&mut self, purpose: Purpose) -> (r: Outcome)
        ensures
            final(self)@ == (DiscordMuteView {
                task: TaskView::Reconnect(
                    ConnectingView::Refresh(AuthorizationView::Authorize),
                    purpose@,
                ),
                ..old(self)@
            }),
            r@ == OutcomeView::Continue,
    {
        self.task = Task::Reconnect(Connecting::Refresh(authorize_and_save_token()), purpose);
        Outcome::Continue
    }

    fn run_exchange(
        &mut self,
        operation: Operation,
        exchange: Exchange,
        attempt: Attempt,
        event: Event,
    ) -> (r: Outcome)
        requires
            old(self)@.task is Idle,
        ensures
            (final(self)@, r@) == exchange_next(
                (DiscordMuteView {
                    task: TaskView::Exchange(operation, exchange, attempt@),
                    ..old(self)@
                }),
                operation,
                exchange,
                attempt@,
                event@,
            ),
    {
        match (exchange, event) {
            (Exchange::Read, Event::Voice(Ok(current))) => match operation {
                Operation::ToggleMute => {
                    let next = Exchange::SetMute(!current.mute, current);
                    self.task = Task::Exchange(operation, next, attempt);
                    Outcome::Continue
                },
                Operation::ToggleDeafen => {
                    let next = Exchange::SetDeaf(!current.deaf);
                    self.task = Task::Exchange(operation, next, attempt);
                    Outcome::Continue
                },
                Operation::ReadVoice => Outcome::Voice(current),
            },
            (Exchange::SetMute(mute, current), Event::Accepted(Ok(()))) => Outcome::Voice(
                VoiceSettings { mute, deaf: current.deaf },
            ),
            (Exchange::SetDeaf(_), Event::Accepted(Ok(()))) => {
                self.task = Task::Exchange(operation, Exchange::ReadBack, attempt);
                Outcome::Continue
            },
            (Exchange::ReadBack, Event::Voice(Ok(settings))) => Outcome::Voice(settings),
            (Exchange::Read, Event::Voice(Err(e))) => self.fail_attempt(operation, attempt, e),
            (Exchange::ReadBack, Event::Voice(Err(e))) => self.fail_attempt(operation, attempt, e),
            (Exchange::SetMute(_, _), Event::Accepted(Err(e))) => self.fail_attempt(
                operation,
                attempt,
                e,
            ),
            (Exchange::SetDeaf(_), Event::Accepted(Err(e))) => self.fail_attempt(
                operation,
                attempt,
                e,
            ),
            (exchange, _) => {
                self.task = Task::Exchange(operation, exchange, attempt);
                Outcome::Continue
            },
        }
    }

    fn authorization_step(
        &mut self,
        authorization: Authorization,
        purpose: Purpose,
        event: AuthEvent,
    ) -> (r: Outcome)
        requires
            old(self)@.task is Idle,
        ensures
            (final(self)@, r@) == connecting_next(
                (DiscordMuteView {
                    task: TaskView::Reconnect(ConnectingView::Refresh(authorization@), purpose@),
                    ..old(self)@
                }),
                ConnectingView::Refresh(authorization@),
                purpose@,
                EventView::Authorization(event@),
            ),
    {
        match authorization.step(event) {
            AuthStep::Continue(next) => {
                self.task = Task::Reconnect(Connecting::Refresh(next), purpose);
                Outcome::Continue
            },
            AuthStep::Done(token) => {
                self.task = Task::Reconnect(Connecting::AuthenticateFresh(token), purpose);
                Outcome::Continue
            },
            AuthStep::Failed(e) => self.fail_connecting(purpose, e),
        }
    }

    fn reconnect(&mut self, connecting: Connecting, purpose: Purpose, event: Event) -> (r: Outcome)
        requires
            old(self)@.task is Idle,
        ensures
            (final(self)@, r@) == connecting_next(
                (DiscordMuteView {
                    task: TaskView::Reconnect(connecting@, purpose@),
                    ..old(self)@
                }),
                connecting@,
                purpose@,
                event@,
            ),
    {
        match (connecting, event) {
            (Connecting::Open, Event::Opened(Ok(()))) => if self.token.is_some() {
                self.task = Task::Reconnect(Connecting::Authenticate, purpose);
                Outcome::Continue
            } else {
                self.refresh_token(purpose)
            },
            (Connecting::Open, Event::Opened(Err(e))) => self.fail_connecting(purpose, e),
            (Connecting::Authenticate, Event::Authenticated(Ok(()))) => self.use_session(purpose),
            (Connecting::Authenticate, Event::Authenticated(Err(_))) => self.refresh_token(purpose),
            (Connecting::Refresh(authorization), Event::Authorization(event)) =>
                self.authorization_step(authorization, purpose, event),
            (Connecting::AuthenticateFresh(token), Event::Authenticated(Ok(()))) => {
                self.token = Some(token);
                self.use_session(purpose)
            },
            (Connecting::AuthenticateFresh(_), Event::Authenticated(Err(e))) =>
                self.fail_connecting(purpose, e),
            (connecting, _) => {
                self.task = Task::Reconnect(connecting, purpose);
                Outcome::Continue
            },
        }
    }

    /// Takes in what came of the last thing that was done.
    pub fn step(&mut self, event: Event) -> (r: Outcome)
        ensures
            (final(self)@, r@) == mute_next(old(self)@, event@),
    {
        let mut task = Task::Idle;
        std::mem::swap(&mut task, &mut self.task);
        match task {
            Task::Idle => Outcome::Continue,
            Task::Exchange(operation, exchange, attempt) => self.run_exchange(
                operation,
                exchange,
                attempt,
                event,
            ),
            Task::Reconnect(connecting, purpose) => self.reconnect(connecting, purpose, event),
        }
    }
}

} // verus!
