//! What holds of the switches as a whole.

use vstd::prelude::*;
use crate::auth::{AuthEventView, AuthorizationView};
use crate::config::ConfigView;
use crate::discord_ipc::client::VoiceSettings;
use crate::discord_mute::{
    mute_next, not_connected, op_started, reconnect_failed, retry_failed, AttemptView,
    ConnectingView, DiscordMuteView, EventView, Exchange, Operation, OutcomeView, PurposeView,
    TaskView,
};
use crate::token::TokenView;

verus! {

/// What every state is like: an operation has a session, the making of one
/// means that there is none, and the token at hand is only tried if there is
/// one.
pub open spec fn coherent(state: DiscordMuteView) -> bool {
    &&& state.task is Exchange ==> state.connected
    &&& state.task is Reconnect ==> !state.connected
    &&& (state.task matches TaskView::Reconnect(ConnectingView::Authenticate, _)
        ==> state.token is Some)
}

/// The state after all of `events`, one after the other.
pub open spec fn state_after(state: DiscordMuteView, events: Seq<EventView>) -> DiscordMuteView
    decreases events.len(),
{
    if events.len() == 0 {
        state
    } else {
        mute_next(state_after(state, events.drop_last()), events.last()).0
    }
}

/// How many more times things may go from bad to worse before an operation is
/// over: a first attempt, a session made for a second one, the second one.
pub open spec fn chances(task: TaskView) -> nat {
    match task {
        TaskView::Exchange(_, _, AttemptView::First) => 3,
        TaskView::Reconnect(_, _) => 2,
        TaskView::Exchange(_, _, AttemptView::Second(_)) => 1,
        TaskView::Idle => 0,
    }
}

/// A session that is about to be made for the first time is in a coherent
/// state.
pub proof fn law_first_state_is_coherent(config: ConfigView, token: Option<TokenView>)
    ensures
        coherent(
            DiscordMuteView {
                config,
                token,
                connected: false,
                task: TaskView::Reconnect(ConnectingView::Open, PurposeView::Connect),
            },
        ),
{
}

/// Every state that comes of a coherent one is coherent, whatever happens and
/// whichever operation is started.
pub proof fn law_state_stays_coherent(
    state: DiscordMuteView,
    event: EventView,
    operation: Operation,
)
    requires
        coherent(state),
    ensures
        coherent(mute_next(state, event).0),
        coherent(op_started(state, operation)),
{
}

/// An operation is tried again at most once: no event brings back an attempt
/// or a session that is behind it.
pub proof fn law_at_most_one_retry(state: DiscordMuteView, event: EventView)
    ensures
        chances(mute_next(state, event).0.task) <= chances(state.task),
        mute_next(state, event).1 !is Continue ==> mute_next(state, event).0.task is Idle,
{
}

/// No run of events, however long, makes an operation go back to where it
/// was.
pub proof fn law_an_operation_never_goes_back(state: DiscordMuteView, events: Seq<EventView>)
    ensures
        chances(state_after(state, events).task) <= chances(state.task),
    decreases events.len(),
{
    if events.len() > 0 {
        law_an_operation_never_goes_back(state, events.drop_last());
        law_at_most_one_retry(state_after(state, events.drop_last()), events.last());
    }
}

/// Whether an event says that what was done last failed, with this error.
pub open spec fn failed_with(exchange: Exchange, event: EventView, error: Seq<char>) -> bool {
    match exchange {
        Exchange::Read => event == EventView::Voice(Err(error)),
        Exchange::SetMute(_, _) => event == EventView::Accepted(Some(error)),
        Exchange::SetDeaf(_) => event == EventView::Accepted(Some(error)),
        Exchange::ReadBack => event == EventView::Voice(Err(error)),
    }
}

/// A first attempt that fails, at whatever point, does not fail the operation:
/// the stale session is given up and a new one is made to try again.
pub proof fn law_a_stale_session_is_replaced(
    state: DiscordMuteView,
    operation: Operation,
    exchange: Exchange,
    event: EventView,
    error: Seq<char>,
)
    requires
        state.task == TaskView::Exchange(operation, exchange, AttemptView::First),
        failed_with(exchange, event, error),
    ensures
        mute_next(state, event) == (
            DiscordMuteView {
                connected: false,
                task: TaskView::Reconnect(
                    ConnectingView::Open,
                    PurposeView::Retry(operation, error),
                ),
                ..state
            },
            OutcomeView::Continue,
        ),
{
}

/// A second attempt that fails, at whatever point, fails the operation with
/// the error of the first one, and leaves the new session in place.
pub proof fn law_a_second_failure_is_final(
    state: DiscordMuteView,
    operation: Operation,
    exchange: Exchange,
    first_error: Seq<char>,
    event: EventView,
    error: Seq<char>,
)
    requires
        state.task == TaskView::Exchange(operation, exchange, AttemptView::Second(first_error)),
        failed_with(exchange, event, error),
    ensures
        mute_next(state, event) == (
            DiscordMuteView { task: TaskView::Idle, ..state },
            OutcomeView::Failed(retry_failed(operation, first_error)),
        ),
{
}

/// An operation without a session makes one first, and if that cannot be
/// opened fails without having touched anything.
pub proof fn law_no_session_no_operation(
    state: DiscordMuteView,
    operation: Operation,
    error: Seq<char>,
)
    requires
        !state.connected,
    ensures
        op_started(state, operation).task == TaskView::Reconnect(
            ConnectingView::Open,
            PurposeView::Retry(operation, not_connected()),
        ),
        mute_next(op_started(state, operation), EventView::Opened(Some(error))) == (
            DiscordMuteView { task: TaskView::Idle, ..state },
            OutcomeView::Failed(reconnect_failed(operation)),
        ),
{
}

/// To flip mute is to set the opposite of what Discord reports. What comes of
/// it, on either attempt, is that mute and the deafen that was reported, and
/// the session and the token stay as they were.
pub proof fn law_toggle_mute_flips(
    state: DiscordMuteView,
    attempt: AttemptView,
    current: VoiceSettings,
)
    requires
        state.task == TaskView::Exchange(Operation::ToggleMute, Exchange::Read, attempt),
    ensures
        ({
            let read = mute_next(state, EventView::Voice(Ok(current)));
            let set = mute_next(read.0, EventView::Accepted(None));
            &&& read.0.task == TaskView::Exchange(
                Operation::ToggleMute,
                Exchange::SetMute(!current.mute, current),
                attempt,
            )
            &&& read.1 == OutcomeView::Continue
            &&& set.1 == OutcomeView::Voice(
                VoiceSettings { mute: !current.mute, deaf: current.deaf },
            )
            &&& set.0 == DiscordMuteView { task: TaskView::Idle, ..state }
        }),
{
}

/// To flip deafen is to set the opposite of what Discord reports and to read
/// back what came of it, as deafening also mutes.
pub proof fn law_toggle_deafen_reads_back(
    state: DiscordMuteView,
    attempt: AttemptView,
    current: VoiceSettings,
    became: VoiceSettings,
)
    requires
        state.task == TaskView::Exchange(Operation::ToggleDeafen, Exchange::Read, attempt),
    ensures
        ({
            let read = mute_next(state, EventView::Voice(Ok(current)));
            let set = mute_next(read.0, EventView::Accepted(None));
            let back = mute_next(set.0, EventView::Voice(Ok(became)));
            &&& read.0.task == TaskView::Exchange(
                Operation::ToggleDeafen,
                Exchange::SetDeaf(!current.deaf),
                attempt,
            )
            &&& set.0.task == TaskView::Exchange(
                Operation::ToggleDeafen,
                Exchange::ReadBack,
                attempt,
            )
            &&& back.1 == OutcomeView::Voice(became)
            &&& back.0 == DiscordMuteView { task: TaskView::Idle, ..state }
        }),
{
}

/// Whether a task would set mute or deafen next.
pub open spec fn sets_something(task: TaskView) -> bool {
    task matches TaskView::Exchange(_, exchange, _) && (exchange is SetMute || exchange is SetDeaf)
}

/// Whether a task belongs to the operation that only reads the settings, or to
/// none.
pub open spec fn only_reads(task: TaskView) -> bool {
    match task {
        TaskView::Idle => true,
        TaskView::Exchange(operation, exchange, _) => operation == Operation::ReadVoice && exchange
            == Exchange::Read,
        TaskView::Reconnect(_, PurposeView::Connect) => true,
        TaskView::Reconnect(_, PurposeView::Retry(operation, _)) => operation
            == Operation::ReadVoice,
    }
}

/// To read the settings, through whatever reconnects, never sets any.
pub proof fn law_reading_sets_nothing(state: DiscordMuteView, events: Seq<EventView>)
    ensures
        only_reads(state_after(op_started(state, Operation::ReadVoice), events).task),
        !sets_something(state_after(op_started(state, Operation::ReadVoice), events).task),
    decreases events.len(),
{
    if events.len() > 0 {
        law_reading_sets_nothing(state, events.drop_last());
    }
}

/// The token at hand is tried before the user is asked for anything, and if it
/// does, nothing else is done.
pub proof fn law_cached_token_comes_first(state: DiscordMuteView)
    requires
        state.task == TaskView::Reconnect(ConnectingView::Open, PurposeView::Connect),
        state.token is Some,
    ensures
        ({
            let opened = mute_next(state, EventView::Opened(None));
            let made = mute_next(opened.0, EventView::Authenticated(None));
            &&& opened.0.task == TaskView::Reconnect(
                ConnectingView::Authenticate,
                PurposeView::Connect,
            )
            &&& made == (
                DiscordMuteView { connected: true, task: TaskView::Idle, ..state },
                OutcomeView::Connected,
            )
        }),
{
}

/// A token that does not do, or none, leads to an authorization, never to a
/// failure.
pub proof fn law_a_bad_token_is_refreshed(
    state: DiscordMuteView,
    purpose: PurposeView,
    error: Seq<char>,
)
    ensures
        state.task == TaskView::Reconnect(ConnectingView::Authenticate, purpose) ==> mute_next(
            state,
            EventView::Authenticated(Some(error)),
        ).0.task == TaskView::Reconnect(
            ConnectingView::Refresh(AuthorizationView::Authorize),
            purpose,
        ),
        state.task == TaskView::Reconnect(ConnectingView::Open, purpose) && state.token is None
            ==> mute_next(state, EventView::Opened(None)).0.task == TaskView::Reconnect(
            ConnectingView::Refresh(AuthorizationView::Authorize),
            purpose,
        ),
{
}

/// The token at hand only ever changes to a fresh one that Discord has just
/// accepted.
pub proof fn law_only_working_tokens_are_kept(state: DiscordMuteView, event: EventView)
    requires
        mute_next(state, event).0.token != state.token,
    ensures
        event == EventView::Authenticated(None),
        state.task is Reconnect && state.task->Reconnect_0 is AuthenticateFresh,
        mute_next(state, event).0.token == Some(state.task->Reconnect_0->AuthenticateFresh_0),
{
}

/// The application stays what it is, and a session is only gained by an accepted
/// token and only lost by a failed attempt.
pub proof fn law_what_stays(state: DiscordMuteView, event: EventView, operation: Operation)
    ensures
        mute_next(state, event).0.config == state.config,
        op_started(state, operation).config == state.config,
        op_started(state, operation).token == state.token,
        op_started(state, operation).connected == state.connected,
        mute_next(state, event).0.connected && !state.connected ==> event
            == EventView::Authenticated(None),
        !mute_next(state, event).0.connected && state.connected ==> state.task is Exchange && (event
            is Voice || event is Accepted),
{
}

/// How failures read.
pub proof fn law_failures_read(first_error: Seq<char>)
    ensures
        not_connected() == "Discord IPC session is not connected"@,
        reconnect_failed(Operation::ToggleMute) == "failed to reconnect Discord IPC after "@
            + "mute toggle"@,
        reconnect_failed(Operation::ToggleDeafen) == "failed to reconnect Discord IPC after "@
            + "deafen toggle"@,
        reconnect_failed(Operation::ReadVoice) == "failed to reconnect Discord IPC after "@
            + "voice settings read"@,
        retry_failed(Operation::ToggleMute, first_error) == "retry after Discord "@
            + "mute toggle"@ + " also failed; first error was: "@ + first_error,
        retry_failed(Operation::ToggleDeafen, first_error) == "retry after Discord "@
            + "deafen toggle"@ + " also failed; first error was: "@ + first_error,
        retry_failed(Operation::ReadVoice, first_error) == "retry after Discord "@
            + "voice settings read"@ + " also failed; first error was: "@ + first_error,
{
}

/// An opened connection goes on to authenticate with the token at hand, whatever
/// it is for; one that cannot be opened is the end of it.
pub proof fn law_opening(state: DiscordMuteView, purpose: PurposeView, error: Seq<char>)
    requires
        state.task == TaskView::Reconnect(ConnectingView::Open, purpose),
    ensures
        state.token is Some ==> mute_next(state, EventView::Opened(None)) == (
            DiscordMuteView {
                task: TaskView::Reconnect(ConnectingView::Authenticate, purpose),
                ..state
            },
            OutcomeView::Continue,
        ),
        mute_next(state, EventView::Opened(Some(error))).0 == (DiscordMuteView {
            task: TaskView::Idle,
            ..state
        }),
        purpose == PurposeView::Connect ==> mute_next(state, EventView::Opened(Some(error))).1
            == OutcomeView::Failed(error),
        purpose matches PurposeView::Retry(operation, _) ==> mute_next(
            state,
            EventView::Opened(Some(error)),
        ).1 == OutcomeView::Failed(reconnect_failed(operation)),
{
}

/// A session that was made is used for what it was made for: an operation that
/// failed before is tried again from its start, knowing of the failure. A fresh
/// token is the token at hand from then on, and the old one stays if it did.
pub proof fn law_sessions_are_used(
    state: DiscordMuteView,
    purpose: PurposeView,
    fresh: TokenView,
    error: Seq<char>,
)
    ensures
        ({
            let kept = mute_next(state, EventView::Authenticated(None));
            let task = match purpose {
                PurposeView::Connect => TaskView::Idle,
                PurposeView::Retry(operation, first_error) => TaskView::Exchange(
                    operation,
                    Exchange::Read,
                    AttemptView::Second(first_error),
                ),
            };
            let outcome = match purpose {
                PurposeView::Connect => OutcomeView::Connected,
                PurposeView::Retry(_, _) => OutcomeView::Continue,
            };
            &&& state.task == TaskView::Reconnect(ConnectingView::Authenticate, purpose) ==> kept
                == (DiscordMuteView { connected: true, task, ..state }, outcome)
            &&& state.task == TaskView::Reconnect(
                ConnectingView::AuthenticateFresh(fresh),
                purpose,
            ) ==> kept == (
                DiscordMuteView { token: Some(fresh), connected: true, task, ..state },
                outcome,
            )
        }),
        state.task == TaskView::Reconnect(ConnectingView::AuthenticateFresh(fresh), purpose) ==> {
            let refused = mute_next(state, EventView::Authenticated(Some(error)));
            &&& refused.0 == (DiscordMuteView { task: TaskView::Idle, ..state })
            &&& purpose == PurposeView::Connect ==> refused.1 == OutcomeView::Failed(error)
            &&& purpose matches PurposeView::Retry(operation, _) ==> refused.1
                == OutcomeView::Failed(reconnect_failed(operation))
        },
        state.task == TaskView::Reconnect(ConnectingView::Authenticate, purpose) ==> mute_next(
            state,
            EventView::Authenticated(Some(error)),
        ).1 == OutcomeView::Continue,
{
}

/// A fresh token is got by an authorization, step by step, and tried once it was
/// saved; an error on the way is the end of it.
pub proof fn law_fresh_tokens_are_got(
    state: DiscordMuteView,
    purpose: PurposeView,
    text: Seq<char>,
    token: TokenView,
)
    ensures
        state.task == TaskView::Reconnect(
            ConnectingView::Refresh(AuthorizationView::Authorize),
            purpose,
        ) ==> mute_next(state, EventView::Authorization(AuthEventView::Code(Ok(text)))) == (
            DiscordMuteView {
                task: TaskView::Reconnect(
                    ConnectingView::Refresh(AuthorizationView::ExchangeCode(text)),
                    purpose,
                ),
                ..state
            },
            OutcomeView::Continue,
        ),
        state.task == TaskView::Reconnect(
            ConnectingView::Refresh(AuthorizationView::SaveToken(token)),
            purpose,
        ) ==> mute_next(state, EventView::Authorization(AuthEventView::Saved(Ok(())))) == (
            DiscordMuteView {
                task: TaskView::Reconnect(ConnectingView::AuthenticateFresh(token), purpose),
                ..state
            },
            OutcomeView::Continue,
        ),
        state.task == TaskView::Reconnect(
            ConnectingView::Refresh(AuthorizationView::Authorize),
            purpose,
        ) ==> {
            let failed = mute_next(
                state,
                EventView::Authorization(AuthEventView::Code(Err(text))),
            );
            &&& failed.0 == (DiscordMuteView { task: TaskView::Idle, ..state })
            &&& purpose == PurposeView::Connect ==> failed.1 == OutcomeView::Failed(text)
            &&& purpose matches PurposeView::Retry(operation, _) ==> failed.1
                == OutcomeView::Failed(reconnect_failed(operation))
        },
{
}

/// What is read is given back by the operation that only reads.
pub proof fn law_reading_gives_what_was_read(
    state: DiscordMuteView,
    attempt: AttemptView,
    current: VoiceSettings,
)
    requires
        state.task == TaskView::Exchange(Operation::ReadVoice, Exchange::Read, attempt),
    ensures
        mute_next(state, EventView::Voice(Ok(current))) == (
            DiscordMuteView { task: TaskView::Idle, ..state },
            OutcomeView::Voice(current),
        ),
{
}

/// An event that is not an answer to what is being done changes nothing.
pub proof fn law_stray_events(state: DiscordMuteView, event: EventView)
    requires
        match state.task {
            TaskView::Idle => true,
            TaskView::Exchange(_, Exchange::Read, _) => !(event is Voice),
            TaskView::Exchange(_, Exchange::ReadBack, _) => !(event is Voice),
            TaskView::Exchange(_, Exchange::SetMute(_, _), _) => !(event is Accepted),
            TaskView::Exchange(_, Exchange::SetDeaf(_), _) => !(event is Accepted),
            TaskView::Reconnect(ConnectingView::Open, _) => !(event is Opened),
            TaskView::Reconnect(ConnectingView::Authenticate, _) => !(event is Authenticated),
            TaskView::Reconnect(ConnectingView::AuthenticateFresh(_), _) => !(event
                is Authenticated),
            TaskView::Reconnect(ConnectingView::Refresh(_), _) => !(event is Authorization),
        },
    ensures
        mute_next(state, event) == (state, OutcomeView::Continue),
{
}

} // verus!
