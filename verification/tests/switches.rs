use discord_mute::auth::{AuthEvent, Authorization};
use discord_mute::config::AppConfig;
use discord_mute::discord_ipc::client::VoiceSettings;
use discord_mute::discord_mute::{
    Attempt, Connecting, DiscordMute, Event, Exchange, Operation, Outcome, Task,
};
use discord_mute::token::TokenData;

fn config() -> AppConfig {
    AppConfig { client_id: "id".to_string(), client_secret: "secret".to_string() }
}

fn token(access_token: &str) -> TokenData {
    TokenData { access_token: access_token.to_string(), scopes: Vec::new(), expires_at: None }
}

fn connected() -> DiscordMute {
    let mut mute = DiscordMute::connect(config(), Some(token("cached")));
    assert!(matches!(mute.task, Task::Reconnect(Connecting::Open, _)));
    assert!(matches!(mute.step(Event::Opened(Ok(()))), Outcome::Continue));
    assert!(matches!(mute.task, Task::Reconnect(Connecting::Authenticate, _)));
    assert!(matches!(mute.step(Event::Authenticated(Ok(()))), Outcome::Connected));
    assert!(mute.connected);
    assert!(matches!(mute.task, Task::Idle));
    mute
}

fn error(text: &str) -> String {
    text.to_string()
}

fn reconnect(mute: &mut DiscordMute) {
    assert!(!mute.connected);
    mute.step(Event::Opened(Ok(())));
    mute.step(Event::Authenticated(Ok(())));
    assert!(mute.connected);
}

#[test]
fn mute_toggle_sets_the_opposite() {
    let mut mute = connected();
    mute.toggle_mute();
    assert!(matches!(
        mute.task,
        Task::Exchange(Operation::ToggleMute, Exchange::Read, Attempt::First)
    ));
    let settings = VoiceSettings { mute: false, deaf: true };
    assert!(matches!(mute.step(Event::Voice(Ok(settings))), Outcome::Continue));
    assert!(matches!(mute.task, Task::Exchange(_, Exchange::SetMute(true, _), Attempt::First)));
    match mute.step(Event::Accepted(Ok(()))) {
        Outcome::Voice(after) => assert_eq!(after, VoiceSettings { mute: true, deaf: true }),
        other => panic!("unexpected {other:?}"),
    }
    assert!(matches!(mute.task, Task::Idle));
}

#[test]
fn deafen_toggle_reads_back() {
    let mut mute = connected();
    mute.toggle_deafen();
    mute.step(Event::Voice(Ok(VoiceSettings { mute: false, deaf: false })));
    assert!(matches!(mute.task, Task::Exchange(_, Exchange::SetDeaf(true), _)));
    assert!(matches!(mute.step(Event::Accepted(Ok(()))), Outcome::Continue));
    assert!(matches!(mute.task, Task::Exchange(_, Exchange::ReadBack, _)));
    match mute.step(Event::Voice(Ok(VoiceSettings { mute: true, deaf: true }))) {
        Outcome::Voice(after) => assert_eq!(after, VoiceSettings { mute: true, deaf: true }),
        other => panic!("unexpected {other:?}"),
    }
}

#[test]
fn reading_only_reads() {
    let mut mute = connected();
    mute.voice_settings();
    match mute.step(Event::Voice(Ok(VoiceSettings { mute: true, deaf: false }))) {
        Outcome::Voice(after) => assert_eq!(after, VoiceSettings { mute: true, deaf: false }),
        other => panic!("unexpected {other:?}"),
    }
}

#[test]
fn stale_session_is_replaced_and_retried_once() {
    let mut mute = connected();
    mute.toggle_mute();
    mute.step(Event::Voice(Ok(VoiceSettings { mute: true, deaf: false })));
    assert!(matches!(mute.step(Event::Accepted(Err(error("gone")))), Outcome::Continue));
    reconnect(&mut mute);
    assert!(matches!(
        &mute.task,
        Task::Exchange(Operation::ToggleMute, Exchange::Read, Attempt::Second(e)) if e == "gone"
    ));
    mute.step(Event::Voice(Ok(VoiceSettings { mute: true, deaf: false })));
    match mute.step(Event::Accepted(Ok(()))) {
        Outcome::Voice(after) => assert_eq!(after, VoiceSettings { mute: false, deaf: false }),
        other => panic!("unexpected {other:?}"),
    }
}

#[test]
fn second_failure_is_final() {
    let mut mute = connected();
    mute.toggle_deafen();
    mute.step(Event::Voice(Err(error("first"))));
    reconnect(&mut mute);
    match mute.step(Event::Voice(Err(error("second")))) {
        Outcome::Failed(text) => assert_eq!(
            text,
            "retry after Discord deafen toggle also failed; first error was: first"
        ),
        other => panic!("unexpected {other:?}"),
    }
    assert!(mute.connected);
    assert!(matches!(mute.task, Task::Idle));
}

#[test]
fn failed_reconnect_says_after_what() {
    let mut mute = connected();
    mute.voice_settings();
    mute.step(Event::Voice(Err(error("first"))));
    match mute.step(Event::Opened(Err(error("no socket")))) {
        Outcome::Failed(text) => assert_eq!(
            text,
            "failed to reconnect Discord IPC after voice settings read"
        ),
        other => panic!("unexpected {other:?}"),
    }
    assert!(!mute.connected);
    mute.toggle_mute();
    reconnect(&mut mute);
    assert!(matches!(
        &mute.task,
        Task::Exchange(Operation::ToggleMute, Exchange::Read, Attempt::Second(e))
            if e == "Discord IPC session is not connected"
    ));
    match mute.step(Event::Voice(Err(error("x")))) {
        Outcome::Failed(text) => assert_eq!(
            text,
            "retry after Discord mute toggle also failed; first error was: Discord IPC session \
             is not connected"
        ),
        other => panic!("unexpected {other:?}"),
    }
}

#[test]
fn failed_connect_reports_its_own_error() {
    let mut mute = DiscordMute::connect(config(), None);
    match mute.step(Event::Opened(Err(error("no socket")))) {
        Outcome::Failed(text) => assert_eq!(text, "no socket"),
        other => panic!("unexpected {other:?}"),
    }
}

fn authorize(mute: &mut DiscordMute) {
    assert!(matches!(
        mute.task,
        Task::Reconnect(Connecting::Refresh(Authorization::Authorize), _)
    ));
    mute.step(Event::Authorization(AuthEvent::Code(Ok(error("code")))));
    mute.step(Event::Authorization(AuthEvent::AccessToken(Ok(error("fresh")))));
    mute.step(Event::Authorization(AuthEvent::Info(None)));
    mute.step(Event::Authorization(AuthEvent::Saved(Ok(()))));
    assert!(matches!(
        &mute.task,
        Task::Reconnect(Connecting::AuthenticateFresh(token), _) if token.access_token == "fresh"
    ));
}

#[test]
fn without_a_token_the_user_is_asked() {
    let mut mute = DiscordMute::connect(config(), None);
    mute.step(Event::Opened(Ok(())));
    authorize(&mut mute);
    assert!(mute.token.is_none());
    assert!(matches!(mute.step(Event::Authenticated(Ok(()))), Outcome::Connected));
    assert_eq!(mute.token.unwrap().access_token, "fresh");
}

#[test]
fn refused_token_is_refreshed_and_kept_until_the_fresh_one_works() {
    let mut mute = DiscordMute::connect(config(), Some(token("cached")));
    mute.step(Event::Opened(Ok(())));
    assert!(matches!(
        mute.step(Event::Authenticated(Err(error("invalid")))),
        Outcome::Continue
    ));
    authorize(&mut mute);
    assert_eq!(mute.token.as_ref().unwrap().access_token, "cached");
    match mute.step(Event::Authenticated(Err(error("still invalid")))) {
        Outcome::Failed(text) => assert_eq!(text, "still invalid"),
        other => panic!("unexpected {other:?}"),
    }
    assert_eq!(mute.token.unwrap().access_token, "cached");
}

#[test]
fn stray_events_do_not_move_the_switches() {
    let mut mute = connected();
    assert!(matches!(mute.step(Event::Accepted(Ok(()))), Outcome::Continue));
    assert!(matches!(mute.task, Task::Idle));
    mute.toggle_mute();
    assert!(matches!(mute.step(Event::Accepted(Ok(()))), Outcome::Continue));
    assert!(matches!(mute.task, Task::Exchange(_, Exchange::Read, Attempt::First)));
}
