//! Calls about credentials, tokens and where they are kept.

use vstd::prelude::*;
use crate::auth::{
    authorize_and_save_token, is_success, token_form, AuthEvent, AuthStep, Authorization, Endpoint,
    Granted, HttpError,
};
use crate::config::{
    config_dir, config_path, load_config, save_config, tidy, validate_config, AppConfig,
    ConfigError,
};
use crate::paths::path_joined;
use crate::text::{is_blank, texts};
use crate::token::{
    check_token, ensure_required_scopes, judge_expiry, load_token, moment_read, needed_scopes,
    required_scopes, save_token, token_candidates, token_path, token_to_load, Moment, TokenData,
    TokenError,
};

verus! {

/// A token that is past its end, or whose end cannot be read, is refused,
/// whatever it is good for; one that is before its end is not refused for it.
pub proof fn law_tokens_end(token: &TokenData, text: String, now: i128, r: Result<(), TokenError>)
    requires
        token.expires_at == Some(text),
        call_ensures(check_token, (token, now), r),
    ensures
        moment_read(text@) is None ==> r is Err,
        moment_read(text@) is Some && moment_read(text@)->0.unix_nanos <= now ==> r is Err,
        moment_read(text@) is Some && moment_read(text@)->0.unix_nanos > now ==> (r is Err ==> !(
        r->Err_0 is Expired) && !(r->Err_0 is InvalidExpiry)),
{
}

/// A token passes exactly if there is something in it, its scopes are unknown or
/// hold the three that are needed, and it has no end or one that is still to
/// come.
pub proof fn law_tokens_that_pass(token: &TokenData, now: i128, r: Result<(), TokenError>)
    requires
        call_ensures(check_token, (token, now), r),
    ensures
        r is Ok <==> !is_blank(token.access_token@) && (token.scopes@.len() == 0 || (texts(
            token.scopes@,
        ).contains("rpc"@) && texts(token.scopes@).contains("rpc.voice.read"@) && texts(
            token.scopes@,
        ).contains("rpc.voice.write"@))) && (token.expires_at is None || (moment_read(
            token.expires_at->0@,
        ) is Some && moment_read(token.expires_at->0@)->0.unix_nanos > now)),
        is_blank(token.access_token@) ==> r is Err && r->Err_0 is MissingAccessToken,
{
    crate::text::law_only_white_space_is_blank(token.access_token@);
    let granted = texts(token.scopes@);
    crate::token::law_scopes_that_suffice(granted);
    assert(needed_scopes()[0] == "rpc"@);
    assert(needed_scopes()[1] == "rpc.voice.read"@);
    assert(needed_scopes()[2] == "rpc.voice.write"@);
    assert(granted.len() == token.scopes@.len());
}

/// A loaded token is just the token of the file.
pub proof fn law_loaded_tokens(token: TokenData, r: Result<TokenData, TokenError>)
    requires
        call_ensures(load_token, (token,), r),
    ensures
        r is Ok ==> r->Ok_0 == token,
        is_blank(token.access_token@) ==> r is Err && r->Err_0 is MissingAccessToken,
        r is Err && token.expires_at is None ==> r->Err_0 is MissingAccessToken || r->Err_0
            is MissingScopes,
        token.expires_at is Some && moment_read(token.expires_at->0@) is None ==> r is Err,
{
    crate::text::law_only_white_space_is_blank(token.access_token@);
}

/// An end that has come is told as it is shown, and one that cannot be read as it
/// was written.
pub proof fn law_ends_are_judged(
    text: &str,
    moment: Moment,
    now: i128,
    r: Result<(), TokenError>,
)
    ensures
        call_ensures(judge_expiry, (text, Some(moment), now), r) ==> (r is Ok <==> now
            < moment.unix_nanos) && (r is Err ==> r->Err_0 is Expired && r->Err_0->Expired_0@
            == moment.shown@),
        call_ensures(judge_expiry, (text, None, now), r) ==> r is Err && r->Err_0 is InvalidExpiry
            && r->Err_0->InvalidExpiry_0@ == text@,
{
}

/// The scopes that are asked for are those that are needed, and a token that was
/// granted them all lacks none.
pub proof fn law_scopes_asked_for_suffice(scopes: Vec<String>, r: Result<(), TokenError>)
    requires
        call_ensures(required_scopes, (), scopes),
        call_ensures(ensure_required_scopes, (&scopes,), r),
    ensures
        scopes@.len() == 3,
        scopes@[0]@ == "rpc"@,
        scopes@[1]@ == "rpc.voice.read"@,
        scopes@[2]@ == "rpc.voice.write"@,
        r is Ok,
{
    let granted = texts(scopes@);
    assert(granted == needed_scopes());
    assert(granted[0] == scopes@[0]@ && granted[1] == scopes@[1]@ && granted[2] == scopes@[2]@);
    crate::token::law_scopes_that_suffice(granted);
    assert forall|i: int| 0 <= i < needed_scopes().len() implies granted.contains(
        #[trigger] needed_scopes()[i],
    ) by {
        assert(granted[i] == needed_scopes()[i]);
    }
}

/// What can be wrong with a token reads as what it is.
pub proof fn law_token_errors_say_what_is_wrong(error: &TokenError, what: String, text: String)
    requires
        call_ensures(TokenError::message, (error,), text),
    ensures
        *error is MissingAccessToken ==> text@ == "token.json is missing accessToken"@,
        *error == TokenError::InvalidExpiry(what) ==> text@
            == "token.json has an invalid expiresAt value: "@ + what@,
        *error == TokenError::Expired(what) ==> text@ == "token.json expired at "@ + what@,
        *error is MissingScopes ==> "token.json is missing required scopes: "@.is_prefix_of(text@),
{
    let lead = "token.json is missing required scopes: "@;
    if *error is MissingScopes {
        assert(text@.take(lead.len() as int) =~= lead);
    }
}

/// A token is saved where it is looked for first: at `TOKEN_FILE` if that is set.
pub proof fn law_tokens_are_looked_for_where_they_are_saved(
    token_file: Option<Vec<u8>>,
    xdg: Option<Vec<u8>>,
    home: Option<Vec<u8>>,
    saved: Vec<u8>,
    looked: Vec<Vec<u8>>,
)
    requires
        call_ensures(token_path, (token_file, xdg, home), saved),
        call_ensures(token_candidates, (token_file, xdg, home), looked),
    ensures
        looked@.len() > 0,
        looked@[0]@ == saved@,
        token_file is Some ==> looked@.len() == 1 && saved@ == token_file->0@,
        token_file is None ==> looked@.len() == 3 && looked@[1]@ == vstd::utf8::encode_utf8(
            "token.json"@,
        ) && looked@[2]@ == vstd::utf8::encode_utf8("../token.json"@),
{
    let paths = crate::token::path_bytes(looked@);
    assert(paths.len() == looked@.len());
    assert(paths == crate::token::token_paths(
        crate::paths::opt_bytes(token_file),
        crate::paths::opt_bytes(xdg),
        crate::paths::opt_bytes(home),
    ));
    assert(paths[0] == looked@[0]@);
    if token_file is None {
        assert(paths[1] == looked@[1]@ && paths[2] == looked@[2]@);
    }
}

/// Tokens and credentials are kept in the same directory, as `token.json` and
/// `config.json`.
pub proof fn law_files_are_kept_together(
    xdg: Option<Vec<u8>>,
    home: Option<Vec<u8>>,
    dir: Vec<u8>,
    config: Vec<u8>,
    token: Vec<u8>,
)
    requires
        call_ensures(config_dir, (xdg, home), dir),
        call_ensures(config_path, (xdg, home), config),
        call_ensures(token_path, (None, xdg, home), token),
    ensures
        config@ == dir@ + seq![0x2fu8] + vstd::utf8::encode_utf8("config.json"@),
        token@ == dir@ + seq![0x2fu8] + vstd::utf8::encode_utf8("token.json"@),
        xdg is Some ==> dir@ == path_joined(
            xdg->0@,
            vstd::utf8::encode_utf8("discord-mute-rs"@),
        ),
        xdg is None && home is Some ==> dir@ == path_joined(
            path_joined(home->0@, vstd::utf8::encode_utf8(".config"@)),
            vstd::utf8::encode_utf8("discord-mute-rs"@),
        ),
{
    reveal_strlit("config.json");
    reveal_strlit("token.json");
    crate::config::lemma_config_dir_takes_names(
        crate::paths::opt_bytes(xdg),
        crate::paths::opt_bytes(home),
    );
    crate::paths::lemma_plain_name("config.json"@);
    crate::paths::lemma_plain_name("token.json"@);
    crate::paths::law_joining_paths(dir@, vstd::utf8::encode_utf8("config.json"@));
    crate::paths::law_joining_paths(dir@, vstd::utf8::encode_utf8("token.json"@));
}

/// The file that a token is read from is the first that is there, and the first
/// of all if none is.
pub proof fn law_the_first_file_there_is_read<F: Fn(&Vec<u8>) -> bool>(
    paths: &Vec<Vec<u8>>,
    present: &F,
    i: usize,
    j: int,
)
    requires
        call_ensures(token_to_load::<F>, (paths, present), i),
        0 <= j < paths@.len(),
    ensures
        j < i ==> call_ensures(*present, (&paths@[j],), false),
        i != 0 ==> i < paths@.len() && call_ensures(*present, (&paths@[i as int],), true),
        i == 0 ==> call_ensures(*present, (&paths@[0],), true) || call_ensures(
            *present,
            (&paths@[j],),
            false,
        ),
{
}

/// A file holds its text and a line feed.
pub proof fn law_what_files_hold(
    config: &AppConfig,
    json: &str,
    saved: Result<String, ConfigError>,
    token: String,
)
    requires
        call_ensures(save_config, (config, json), saved),
        call_ensures(save_token, (json,), token),
    ensures
        token@ == json@.push('\n'),
        saved is Ok <==> !is_blank(config.client_id@) && !is_blank(config.client_secret@),
        saved is Ok ==> saved->Ok_0@ == json@.push('\n'),
        is_blank(config.client_id@) ==> saved is Err && saved->Err_0 is EmptyClientId,
        !is_blank(config.client_id@) && is_blank(config.client_secret@) ==> saved is Err
            && saved->Err_0 is EmptyClientSecret,
{
    reveal_strlit("\n");
    assert(json@ + "\n"@ =~= json@.push('\n'));
    crate::text::law_only_white_space_is_blank(config.client_id@);
    crate::text::law_only_white_space_is_blank(config.client_secret@);
}

/// Credentials of the environment go before those of the file, each for itself,
/// and are refused if one is blank.
pub proof fn law_credentials_that_are_loaded(
    file: Option<AppConfig>,
    id: Option<String>,
    secret: Option<String>,
    path: &str,
    r: Result<AppConfig, ConfigError>,
)
    requires
        call_ensures(load_config, (file, id, secret, path), r),
    ensures
        file is None && id is None && secret is None ==> r is Err && r->Err_0 is Missing
            && r->Err_0->Missing_0@ == path@,
        r is Ok ==> !is_blank((r->Ok_0).client_id@) && !is_blank((r->Ok_0).client_secret@),
        r is Ok && id is Some ==> (r->Ok_0).client_id@ == id->0@,
        r is Ok && id is None ==> file is Some && (r->Ok_0).client_id@ == (file->0).client_id@,
        r is Ok && secret is Some ==> (r->Ok_0).client_secret@ == secret->0@,
        r is Ok && secret is None ==> file is Some && (r->Ok_0).client_secret@
            == (file->0).client_secret@,
        id is Some && secret is Some && !is_blank(id->0@) && !is_blank(secret->0@) ==> r is Ok,
        id is None && secret is None && file is Some && !is_blank((file->0).client_id@)
            && !is_blank((file->0).client_secret@) ==> r is Ok,
        id is Some && is_blank(id->0@) ==> r is Err && r->Err_0 is EmptyClientId,
        id is Some && !is_blank(id->0@) && secret is Some && is_blank(secret->0@) ==> r is Err
            && r->Err_0 is EmptyClientSecret,
{
    let loaded = crate::config::effective_config(
        crate::config::opt_config(file),
        crate::text::opt_text(id),
        crate::text::opt_text(secret),
    );
    if loaded is Some {
        crate::text::law_only_white_space_is_blank(loaded->0.client_id);
        crate::text::law_only_white_space_is_blank(loaded->0.client_secret);
    }
}

/// Credentials that were handed in lose the white space around them, so that they
/// pass unless they are blank.
pub proof fn law_handed_in_credentials(
    id: &str,
    secret: &str,
    config: AppConfig,
    r: Result<(), ConfigError>,
)
    requires
        call_ensures(tidy, (id, secret), config),
        call_ensures(validate_config, (&config,), r),
    ensures
        config.client_id@ == crate::text::trimmed(id@),
        config.client_secret@ == crate::text::trimmed(secret@),
        r is Ok <==> !is_blank(id@) && !is_blank(secret@),
{
    crate::text::law_only_white_space_is_blank(id@);
    crate::text::law_only_white_space_is_blank(secret@);
    crate::config::law_tidied_credentials_can_be_saved(id@, secret@);
}

/// What can be wrong with credentials reads as what it is.
pub proof fn law_config_errors_say_what_is_wrong(error: &ConfigError, path: String, text: String)
    requires
        call_ensures(ConfigError::message, (error,), text),
    ensures
        *error == ConfigError::Missing(path) ==> text@ == "missing config at "@ + path@
            + "; run `cargo run -- setup` first"@,
        *error is EmptyClientId ==> text@ == "Discord Client ID cannot be empty"@,
        *error is EmptyClientSecret ==> text@ == "Discord Client Secret cannot be empty"@,
{
}

/// An authorization starts by asking the user.
pub proof fn law_authorizations_start_with_the_user(start: Authorization)
    requires
        call_ensures(authorize_and_save_token, (), start),
    ensures
        start is Authorize,
{
}

/// Each step of an authorization hands on what it got, and an error ends it as it
/// is.
pub proof fn law_authorizations_hand_on(
    now: Authorization,
    got: String,
    r: AuthStep,
    token: TokenData,
)
    ensures
        now is Authorize && call_ensures(Authorization::step, (now, AuthEvent::Code(Ok(got))), r)
            ==> r is Continue && r->Continue_0 is ExchangeCode
            && r->Continue_0->ExchangeCode_0@ == got@,
        now is Authorize && call_ensures(Authorization::step, (now, AuthEvent::Code(Err(got))), r)
            ==> r is Failed && r->Failed_0@ == got@,
        now is ExchangeCode && call_ensures(
            Authorization::step,
            (now, AuthEvent::AccessToken(Ok(got))),
            r,
        ) ==> r is Continue && r->Continue_0 is FetchInfo && r->Continue_0->FetchInfo_0@ == got@,
        now is ExchangeCode && call_ensures(
            Authorization::step,
            (now, AuthEvent::AccessToken(Err(got))),
            r,
        ) ==> r is Failed && r->Failed_0@ == got@,
        now == Authorization::SaveToken(token) && call_ensures(
            Authorization::step,
            (now, AuthEvent::Saved(Ok(()))),
            r,
        ) ==> r is Done && r->Done_0@ == token@,
        now == Authorization::SaveToken(token) && call_ensures(
            Authorization::step,
            (now, AuthEvent::Saved(Err(got))),
            r,
        ) ==> r is Failed && r->Failed_0@ == got@,
{
}

/// A token is saved with the scopes and the end that were found out, unless it
/// lacks a scope; without either if nothing could be found out.
pub proof fn law_tokens_are_saved_with_what_is_known(
    access_token: String,
    granted: Granted,
    r: AuthStep,
)
    ensures
        call_ensures(
            Authorization::step,
            (Authorization::FetchInfo(access_token), AuthEvent::Info(None)),
            r,
        ) ==> {
            &&& r is Continue
            &&& r->Continue_0 is SaveToken
            &&& r->Continue_0->SaveToken_0@.access_token == access_token@
            &&& r->Continue_0->SaveToken_0@.scopes.len() == 0
            &&& r->Continue_0->SaveToken_0@.expires_at is None
        },
        call_ensures(
            Authorization::step,
            (Authorization::FetchInfo(access_token), AuthEvent::Info(Some(granted))),
            r,
        ) ==> {
            let enough = granted.scopes@.len() == 0 || (texts(granted.scopes@).contains("rpc"@)
                && texts(granted.scopes@).contains("rpc.voice.read"@) && texts(
                granted.scopes@,
            ).contains("rpc.voice.write"@));
            &&& enough <==> r is Continue
            &&& !enough <==> r is Failed
            &&& enough ==> r->Continue_0 is SaveToken
                && r->Continue_0->SaveToken_0@.access_token == access_token@
                && r->Continue_0->SaveToken_0@.scopes == texts(granted.scopes@)
                && r->Continue_0->SaveToken_0@.expires_at == crate::text::opt_text(
                granted.expires,
            )
        },
{
    let known = texts(granted.scopes@);
    crate::token::law_scopes_that_suffice(known);
    crate::token::law_scopes_that_suffice(seq![]);
    assert(needed_scopes()[0] == "rpc"@);
    assert(needed_scopes()[1] == "rpc.voice.read"@);
    assert(needed_scopes()[2] == "rpc.voice.write"@);
    assert(known.len() == granted.scopes@.len());
}

/// The statuses from 200 to 299 are those of success.
pub proof fn law_successes(status: u16, r: bool)
    requires
        call_ensures(is_success, (status,), r),
    ensures
        r <==> status / 100 == 2,
{
}

/// Where the endpoints are, and how their errors read.
pub proof fn law_endpoints_and_their_errors(
    error: &HttpError,
    status: String,
    body: String,
    text: String,
)
    ensures
        call_ensures(Endpoint::url, (Endpoint::Token,), text) ==> text@
            == "https://discord.com/api"@ + "/oauth2/token"@,
        call_ensures(Endpoint::url, (Endpoint::Me,), text) ==> text@ == "https://discord.com/api"@
            + "/oauth2/@me"@,
        *error is Unsent && call_ensures(HttpError::message, (error, Endpoint::Token), text)
            ==> text@ == "failed to send "@ + "Discord OAuth token"@ + " request"@,
        *error is Undecodable && call_ensures(HttpError::message, (error, Endpoint::Me), text)
            ==> text@ == "failed to decode "@ + "Discord /oauth2/@me"@ + " response"@,
        *error == (HttpError::Refused { status, body: Some(body) }) && call_ensures(
            HttpError::message,
            (error, Endpoint::Token),
            text,
        ) ==> text@ == "Discord OAuth token"@ + " request failed with "@ + status@ + ": "@ + body@,
        *error == (HttpError::Refused { status, body: None }) && call_ensures(
            HttpError::message,
            (error, Endpoint::Me),
            text,
        ) ==> text@ == "Discord /oauth2/@me"@ + " request failed with "@ + status@ + ": "@
            + "(unreadable body)"@,
{
}

/// A code is exchanged by a form of five fields, with the credentials and the
/// code as they are.
pub proof fn law_forms_are_filled_in(
    id: &str,
    secret: &str,
    code: &str,
    form: Vec<(String, String)>,
)
    requires
        call_ensures(token_form, (id, secret, code), form),
    ensures
        form@.len() == 5,
        form@[0].0@ == "client_id"@ && form@[0].1@ == id@,
        form@[1].0@ == "client_secret"@ && form@[1].1@ == secret@,
        form@[2].0@ == "code"@ && form@[2].1@ == code@,
        form@[3].0@ == "grant_type"@ && form@[3].1@ == "authorization_code"@,
        form@[4].0@ == "redirect_uri"@ && form@[4].1@ == "http://localhost"@,
{
    let fields = crate::auth::form_view(form@);
    assert(fields.len() == form@.len());
    assert(fields[0] == (form@[0].0@, form@[0].1@));
    assert(fields[1] == (form@[1].0@, form@[1].1@));
    assert(fields[2] == (form@[2].0@, form@[2].1@));
    assert(fields[3] == (form@[3].0@, form@[3].1@));
    assert(fields[4] == (form@[4].0@, form@[4].1@));
}

} // verus!
