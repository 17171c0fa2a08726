//! How a user's authorization becomes an access token.

use vstd::prelude::*;
use crate::text::{join, opt_text, texts};
use crate::token::{
    ensure_required_scopes, scope_problem, token_error_text, TokenData, TokenView,
};

verus! {

/// Where Discord's web API is.
pub const DISCORD_API: &'static str = "https://discord.com/api";

/// Where Discord would send the user after the authorization.
pub const REDIRECT_URI: &'static str = "http://localhost";

/// A part of the web API.
#[derive(Debug, Clone, Copy, PartialEq, Eq, Structural)]
pub enum Endpoint {
    /// Turns an authorization code into an access token.
    Token,
    /// Tells what an access token is good for.
    Me,
}

impl Endpoint {
    /// The endpoint's path under the API.
    pub open spec fn spec_path(self) -> Seq<char> {
        match self {
            Endpoint::Token => "/oauth2/token"@,
            Endpoint::Me => "/oauth2/@me"@,
        }
    }

    /// What the endpoint is called in error messages.
    pub open spec fn spec_label(self) -> Seq<char> {
        match self {
            Endpoint::Token => "Discord OAuth token"@,
            Endpoint::Me => "Discord /oauth2/@me"@,
        }
    }

    /// Where the endpoint is.
    pub fn url(self) -> (r: String)
        ensures
            r@ == DISCORD_API@ + self.spec_path(),
    {
        let path = match self {
            Endpoint::Token => "/oauth2/token",
            Endpoint::Me => "/oauth2/@me",
        };
        join(DISCORD_API, path)
    }

    /// What the endpoint is called in error messages.
    pub fn label(self) -> (r: &'static str)
        ensures
            r@ == self.spec_label(),
    {
        match self {
            Endpoint::Token => "Discord OAuth token",
            Endpoint::Me => "Discord /oauth2/@me",
        }
    }
}

/// A form's fields as contracts speak of them.
pub open spec fn form_view(form: Seq<(String, String)>) -> Seq<(Seq<char>, Seq<char>)> {
    form.map_values(|field: (String, String)| (field.0@, field.1@))
}

/// The form by which an authorization code is exchanged for a token.
pub open spec fn token_form_of(
    client_id: Seq<char>,
    client_secret: Seq<char>,
    code: Seq<char>,
) -> Seq<(Seq<char>, Seq<char>)> {
    seq![
        ("client_id"@, client_id),
        ("client_secret"@, client_secret),
        ("code"@, code),
        ("grant_type"@, "authorization_code"@),
        ("redirect_uri"@, REDIRECT_URI@),
    ]
}

/// Fills in the form by which an authorization code is exchanged for a token.
pub fn token_form(client_id: &str, client_secret: &str, code: &str) -> (r: Vec<(String, String)>)
    ensures
        form_view(r@) == token_form_of(client_id@, client_secret@, code@),
{
    let r: Vec<(String, String)> = vec![
        ("client_id".to_owned(), client_id.to_owned()),
        ("client_secret".to_owned(), client_secret.to_owned()),
        ("code".to_owned(), code.to_owned()),
        ("grant_type".to_owned(), "authorization_code".to_owned()),
        ("redirect_uri".to_owned(), REDIRECT_URI.to_owned()),
    ];
    assert(form_view(r@) =~= token_form_of(client_id@, client_secret@, code@));
    r
}

/// Why a request to the web API came to nothing.
#[derive(Debug)]
pub enum HttpError {
    /// It could not be sent.
    Unsent,
    /// It was answered with this status and, if it could be read, this body.
    Refused { status: String, body: Option<String> },
    /// Its answer was not what was expected.
    Undecodable,
}

/// An `HttpError` as contracts speak of it.
pub enum HttpErrorView {
    Unsent,
    Refused { status: Seq<char>, body: Option<Seq<char>> },
    Undecodable,
}

impl View for HttpError {
    type V = HttpErrorView;

    open spec fn view(&self) -> HttpErrorView {
        match self {
            HttpError::Unsent => HttpErrorView::Unsent,
            HttpError::Refused { status, body } => HttpErrorView::Refused {
                status: status@,
                body: opt_text(*body),
            },
            HttpError::Undecodable => HttpErrorView::Undecodable,
        }
    }
}

/// How an error of a request to an endpoint reads.
pub open spec fn http_error_text(error: HttpErrorView, endpoint: Endpoint) -> Seq<char> {
    match error {
        HttpErrorView::Unsent => "failed to send "@ + endpoint.spec_label() + " request"@,
        HttpErrorView::Refused { status, body } => endpoint.spec_label() + " request failed with "@
            + status + ": "@ + match body {
            Some(body) => body,
            None => "(unreadable body)"@,
        },
        HttpErrorView::Undecodable => "failed to decode "@ + endpoint.spec_label()
            + " response"@,
    }
}

impl HttpError {
    /// How the error reads for a request to `endpoint`.
    pub fn message(&self, endpoint: Endpoint) -> (r: String)
        ensures
            r@ == http_error_text(self@, endpoint),
    {
        match self {
            HttpError::Unsent => {
                let mut out = join("failed to send ", endpoint.label());
                out.append(" request");
                out
            },
            HttpError::Refused { status, body } => {
                let mut out = join(endpoint.label(), " request failed with ");
                out.append(status.as_str());
                out.append(": ");
                match body {
                    Some(body) => out.append(body.as_str()),
                    None => out.append("(unreadable body)"),
                }
                out
            },
            HttpError::Undecodable => {
                let mut out = join("failed to decode ", endpoint.label());
                out.append(" response");
                out
            },
        }
    }
}

/// Whether a request with this status succeeded.
pub fn is_success(status: u16) -> (r: bool)
    ensures
        r == (200 <= status <= 299),
{
    200 <= status && status <= 299
}

/// What an access token turned out to be good for.
#[derive(Debug)]
pub struct Granted {
    pub scopes: Vec<String>,
    pub expires: Option<String>,
}

/// A `Granted` as contracts speak of it.
pub struct GrantedView {
    pub scopes: Seq<Seq<char>>,
    pub expires: Option<Seq<char>>,
}

impl View for Granted {
    type V = GrantedView;

    open spec fn view(&self) -> GrantedView {
        GrantedView { scopes: texts(self.scopes@), expires: opt_text(self.expires) }
    }
}

/// The token made of an access token and of what is known of it.
pub open spec fn token_of(access_token: Seq<char>, granted: Option<GrantedView>) -> TokenView {
    TokenView {
        access_token,
        scopes: match granted {
            Some(granted) => granted.scopes,
            None => seq![],
        },
        expires_at: match granted {
            Some(granted) => granted.expires,
            None => None,
        },
    }
}

/// How far an authorization has come, by what is to be done next.
#[derive(Debug)]
pub enum Authorization {
    /// Ask the user, through Discord.
    Authorize,
    /// Exchange this code for an access token.
    ExchangeCode(String),
    /// Ask what this access token is good for.
    FetchInfo(String),
    /// Save this token.
    SaveToken(TokenData),
}

/// An `Authorization` as contracts speak of it.
#[verifier::ext_equal]
pub enum AuthorizationView {
    Authorize,
    ExchangeCode(Seq<char>),
    FetchInfo(Seq<char>),
    SaveToken(TokenView),
}

impl View for Authorization {
    type V = AuthorizationView;

    open spec fn view(&self) -> AuthorizationView {
        match self {
            Authorization::Authorize => AuthorizationView::Authorize,
            Authorization::ExchangeCode(code) => AuthorizationView::ExchangeCode(code@),
            Authorization::FetchInfo(access_token) => AuthorizationView::FetchInfo(access_token@),
            Authorization::SaveToken(token) => AuthorizationView::SaveToken(token@),
        }
    }
}

/// What came of the last thing that was done. Errors are the texts by which
/// they read.
#[derive(Debug)]
pub enum AuthEvent {
    Code(Result<String, String>),
    AccessToken(Result<String, String>),
    /// `None` if it could not be found out.
    Info(Option<Granted>),
    Saved(Result<(), String>),
}

/// An `AuthEvent` as contracts speak of it.
pub enum AuthEventView {
    Code(Result<Seq<char>, Seq<char>>),
    AccessToken(Result<Seq<char>, Seq<char>>),
    Info(Option<GrantedView>),
    Saved(Result<(), Seq<char>>),
}

impl View for AuthEvent {
    type V = AuthEventView;

    open spec fn view(&self) -> AuthEventView {
        match self {
            AuthEvent::Code(Ok(code)) => AuthEventView::Code(Ok(code@)),
            AuthEvent::Code(Err(e)) => AuthEventView::Code(Err(e@)),
            AuthEvent::AccessToken(Ok(token)) => AuthEventView::AccessToken(Ok(token@)),
            AuthEvent::AccessToken(Err(e)) => AuthEventView::AccessToken(Err(e@)),
            AuthEvent::Info(Some(granted)) => AuthEventView::Info(Some(granted@)),
            AuthEvent::Info(None) => AuthEventView::Info(None),
            AuthEvent::Saved(Ok(())) => AuthEventView::Saved(Ok(())),
            AuthEvent::Saved(Err(e)) => AuthEventView::Saved(Err(e@)),
        }
    }
}

/// Where an authorization stands after an event.
#[derive(Debug)]
pub enum AuthStep {
    Continue(Authorization),
    Done(TokenData),
    Failed(String),
}

/// An `AuthStep` as contracts speak of it.
#[verifier::ext_equal]
pub enum AuthStepView {
    Continue(AuthorizationView),
    Done(TokenView),
    Failed(Seq<char>),
}

impl View for AuthStep {
    type V = AuthStepView;

    open spec fn view(&self) -> AuthStepView {
        match self {
            AuthStep::Continue(next) => AuthStepView::Continue(next@),
            AuthStep::Done(token) => AuthStepView::Done(token@),
            AuthStep::Failed(e) => AuthStepView::Failed(e@),
        }
    }
}

/// How an authorization goes on after an event. A code is exchanged for an
/// access token; what that is good for is asked, and not knowing it is no
/// failure; if it is known to be good for too little, the authorization fails,
/// and nothing is saved. An event out of turn changes nothing.
pub open spec fn auth_next(now: AuthorizationView, event: AuthEventView) -> AuthStepView {
    match (now, event) {
        (AuthorizationView::Authorize, AuthEventView::Code(Ok(code))) => AuthStepView::Continue(
            AuthorizationView::ExchangeCode(code),
        ),
        (AuthorizationView::Authorize, AuthEventView::Code(Err(e))) => AuthStepView::Failed(e),
        (AuthorizationView::ExchangeCode(_), AuthEventView::AccessToken(Ok(access_token))) =>
            AuthStepView::Continue(AuthorizationView::FetchInfo(access_token)),
        (AuthorizationView::ExchangeCode(_), AuthEventView::AccessToken(Err(e))) =>
            AuthStepView::Failed(e),
        (AuthorizationView::FetchInfo(access_token), AuthEventView::Info(granted)) => {
            let token = token_of(access_token, granted);
            match scope_problem(token.scopes) {
                Some(problem) => AuthStepView::Failed(token_error_text(problem)),
                None => AuthStepView::Continue(AuthorizationView::SaveToken(token)),
            }
        },
        (AuthorizationView::SaveToken(token), AuthEventView::Saved(Ok(()))) => AuthStepView::Done(
            token,
        ),
        (AuthorizationView::SaveToken(_), AuthEventView::Saved(Err(e))) => AuthStepView::Failed(e),
        _ => AuthStepView::Continue(now),
    }
}

/// Starts an authorization, at whose end the token has been saved.
pub fn authorize_and_save_token() -> (r: Authorization)
    ensures
        r@ == AuthorizationView::Authorize,
{
    Authorization::Authorize
}

fn with_info(access_token: String, granted: Option<Granted>) -> (r: AuthStep)
    ensures
        r@ == auth_next(
            AuthorizationView::FetchInfo(access_token@),
            AuthEventView::Info(
                match granted {
                    Some(granted) => Some(granted@),
                    None => None,
                },
            ),
        ),
{
    let token = match granted {
        Some(granted) => TokenData {
            access_token,
            scopes: granted.scopes,
            expires_at: granted.expires,
        },
        None => {
            let scopes: Vec<String> = Vec::new();
            assert(texts(scopes@) =~= seq![]);
            TokenData { access_token, scopes, expires_at: None }
        },
    };
    match ensure_required_scopes(&token.scopes) {
        Ok(()) => AuthStep::Continue(Authorization::SaveToken(token)),
        Err(e) => AuthStep::Failed(e.message()),
    }
}

impl Authorization {
    /// Takes in what came of the last thing that was done.
    pub fn step(self, event: AuthEvent) -> (r: AuthStep)
        ensures
            r@ == auth_next(self@, event@),
    {
        match (self, event) {
            (Authorization::Authorize, AuthEvent::Code(code)) => match code {
                Ok(code) => AuthStep::Continue(Authorization::ExchangeCode(code)),
                Err(e) => AuthStep::Failed(e),
            },
            (Authorization::ExchangeCode(_), AuthEvent::AccessToken(token)) => match token {
                Ok(access_token) => AuthStep::Continue(Authorization::FetchInfo(access_token)),
                Err(e) => AuthStep::Failed(e),
            },
            (Authorization::FetchInfo(access_token), AuthEvent::Info(granted)) => with_info(
                access_token,
                granted,
            ),
            (Authorization::SaveToken(token), AuthEvent::Saved(saved)) => match saved {
                Ok(()) => AuthStep::Done(token),
                Err(e) => AuthStep::Failed(e),
            },
            (now, _) => AuthStep::Continue(now),
        }
    }
}

/// An authorization only ends well once its token was saved, and then with
/// just the token that was saved.
pub proof fn law_done_means_saved(now: AuthorizationView, event: AuthEventView)
    requires
        auth_next(now, event) is Done,
    ensures
        now == AuthorizationView::SaveToken(auth_next(now, event)->Done_0),
        event is Saved && event->Saved_0 is Ok,
{
}

/// A token is only ever saved if it is not known to lack a needed scope.
pub proof fn law_saved_tokens_have_scopes(now: AuthorizationView, event: AuthEventView)
    requires
        now is Authorize || now is ExchangeCode || now is FetchInfo,
        auth_next(now, event) matches AuthStepView::Continue(AuthorizationView::SaveToken(_)),
    ensures
        auth_next(now, event)->Continue_0 matches AuthorizationView::SaveToken(token)
            && scope_problem(token.scopes) is None,
{
}

/// That it cannot be found out what a token is good for does not stop an
/// authorization: the token is taken without scopes and without an end.
pub proof fn law_unknown_grants_are_tolerated(access_token: Seq<char>)
    ensures
        auth_next(AuthorizationView::FetchInfo(access_token), AuthEventView::Info(None))
            == AuthStepView::Continue(
            AuthorizationView::SaveToken(
                TokenView { access_token, scopes: seq![], expires_at: None },
            ),
        ),
{
}

/// An authorization takes four steps, each with what the one before gave: the
/// code, the access token, what it is good for, and the token that is saved.
pub proof fn law_authorizations_step_by_step(
    code: Seq<char>,
    access_token: Seq<char>,
    granted: GrantedView,
    problem: Seq<char>,
)
    requires
        scope_problem(granted.scopes) is None,
    ensures
        ({
            let token = TokenView {
                access_token,
                scopes: granted.scopes,
                expires_at: granted.expires,
            };
            &&& auth_next(AuthorizationView::Authorize, AuthEventView::Code(Ok(code)))
                == AuthStepView::Continue(AuthorizationView::ExchangeCode(code))
            &&& auth_next(
                AuthorizationView::ExchangeCode(code),
                AuthEventView::AccessToken(Ok(access_token)),
            ) == AuthStepView::Continue(AuthorizationView::FetchInfo(access_token))
            &&& auth_next(
                AuthorizationView::FetchInfo(access_token),
                AuthEventView::Info(Some(granted)),
            ) == AuthStepView::Continue(AuthorizationView::SaveToken(token))
            &&& auth_next(AuthorizationView::SaveToken(token), AuthEventView::Saved(Ok(())))
                == AuthStepView::Done(token)
            &&& auth_next(AuthorizationView::Authorize, AuthEventView::Code(Err(problem)))
                == AuthStepView::Failed(problem)
            &&& auth_next(
                AuthorizationView::ExchangeCode(code),
                AuthEventView::AccessToken(Err(problem)),
            ) == AuthStepView::Failed(problem)
            &&& auth_next(AuthorizationView::SaveToken(token), AuthEventView::Saved(Err(problem)))
                == AuthStepView::Failed(problem)
        }),
{
}

/// A token that is known to lack a needed scope ends the authorization, with the
/// scopes that it lacks.
pub proof fn law_insufficient_grants_fail(access_token: Seq<char>, granted: GrantedView)
    requires
        granted.scopes.len() > 0,
        exists|i: int|
            0 <= i < crate::token::needed_scopes().len() && !granted.scopes.contains(
                #[trigger] crate::token::needed_scopes()[i],
            ),
    ensures
        auth_next(AuthorizationView::FetchInfo(access_token), AuthEventView::Info(Some(granted)))
            == AuthStepView::Failed(
            token_error_text(
                crate::token::TokenErrorView::MissingScopes(
                    crate::token::missing_scopes(granted.scopes),
                ),
            ),
        ),
{
    crate::token::law_scopes_that_suffice(granted.scopes);
    crate::token::law_missing_scopes_are_told(granted.scopes, seq![]);
}

/// An event out of turn leaves an authorization where it is.
pub proof fn law_stray_authorization_events(now: AuthorizationView, event: AuthEventView)
    requires
        now is Authorize ==> !(event is Code),
        now is ExchangeCode ==> !(event is AccessToken),
        now is FetchInfo ==> !(event is Info),
        now is SaveToken ==> !(event is Saved),
    ensures
        auth_next(now, event) == AuthStepView::Continue(now),
{
}

/// The form names the client, its secret and the code, each as it is, for an
/// authorization code that leads back to this machine.
pub proof fn law_the_form(client_id: Seq<char>, client_secret: Seq<char>, code: Seq<char>)
    ensures
        ({
            let form = token_form_of(client_id, client_secret, code);
            &&& form.len() == 5
            &&& form[0] == ("client_id"@, client_id)
            &&& form[1] == ("client_secret"@, client_secret)
            &&& form[2] == ("code"@, code)
            &&& form[3] == ("grant_type"@, "authorization_code"@)
            &&& form[4] == ("redirect_uri"@, "http://localhost"@)
        }),
{
}

/// The two endpoints, and how their errors read.
pub proof fn law_endpoints(status: Seq<char>, body: Seq<char>)
    ensures
        DISCORD_API@ + Endpoint::Token.spec_path() == "https://discord.com/api"@
            + "/oauth2/token"@,
        DISCORD_API@ + Endpoint::Me.spec_path() == "https://discord.com/api"@ + "/oauth2/@me"@,
        http_error_text(HttpErrorView::Unsent, Endpoint::Token) == "failed to send "@
            + "Discord OAuth token"@ + " request"@,
        http_error_text(HttpErrorView::Unsent, Endpoint::Me) == "failed to send "@
            + "Discord /oauth2/@me"@ + " request"@,
        http_error_text(HttpErrorView::Undecodable, Endpoint::Token) == "failed to decode "@
            + "Discord OAuth token"@ + " response"@,
        http_error_text(HttpErrorView::Undecodable, Endpoint::Me) == "failed to decode "@
            + "Discord /oauth2/@me"@ + " response"@,
        http_error_text(
            HttpErrorView::Refused { status, body: Some(body) },
            Endpoint::Token,
        ) == "Discord OAuth token"@ + " request failed with "@ + status + ": "@ + body,
        http_error_text(HttpErrorView::Refused { status, body: Some(body) }, Endpoint::Me)
            == "Discord /oauth2/@me"@ + " request failed with "@ + status + ": "@ + body,
        http_error_text(HttpErrorView::Refused { status, body: None }, Endpoint::Token)
            == "Discord OAuth token"@ + " request failed with "@ + status + ": "@
            + "(unreadable body)"@,
        http_error_text(HttpErrorView::Refused { status, body: None }, Endpoint::Me)
            == "Discord /oauth2/@me"@ + " request failed with "@ + status + ": "@
            + "(unreadable body)"@,
{
}

} // verus!
