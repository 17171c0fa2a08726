//! The access token: what it must be good for, how long, and where it is kept.

use time::format_description::well_known::Rfc3339;
use time::OffsetDateTime;
use vstd::prelude::*;
use crate::config::{config_dir, config_dir_of, file_contents, file_text};
use crate::paths::{join_path, opt_bytes, path_in};
use crate::text::{join, join_all, joined, opt_text, same_text, texts, trim, trimmed};

verus! {

/// An access token and what is known of it.
#[derive(Debug)]
pub struct TokenData {
    pub access_token: String,
    /// The scopes that were granted; none if they are not known.
    pub scopes: Vec<String>,
    /// When the token expires, as an RFC 3339 date and time.
    pub expires_at: Option<String>,
}

/// A `TokenData` as contracts speak of it.
pub struct TokenView {
    pub access_token: Seq<char>,
    pub scopes: Seq<Seq<char>>,
    pub expires_at: Option<Seq<char>>,
}

impl View for TokenData {
    type V = TokenView;

    open spec fn view(&self) -> TokenView {
        TokenView {
            access_token: self.access_token@,
            scopes: texts(self.scopes@),
            expires_at: opt_text(self.expires_at),
        }
    }
}

/// What can be wrong with a token.
#[derive(Debug)]
pub enum TokenError {
    MissingAccessToken,
    /// These scopes were not granted.
    MissingScopes(Vec<String>),
    /// This is no RFC 3339 date and time.
    InvalidExpiry(String),
    /// It expired at this time.
    Expired(String),
}

/// A `TokenError` as contracts speak of it.
pub enum TokenErrorView {
    MissingAccessToken,
    MissingScopes(Seq<Seq<char>>),
    InvalidExpiry(Seq<char>),
    Expired(Seq<char>),
}

impl View for TokenError {
    type V = TokenErrorView;

    open spec fn view(&self) -> TokenErrorView {
        match self {
            TokenError::MissingAccessToken => TokenErrorView::MissingAccessToken,
            TokenError::MissingScopes(missing) => TokenErrorView::MissingScopes(texts(missing@)),
            TokenError::InvalidExpiry(text) => TokenErrorView::InvalidExpiry(text@),
            TokenError::Expired(shown) => TokenErrorView::Expired(shown@),
        }
    }
}

/// How an error reads.
pub open spec fn token_error_text(error: TokenErrorView) -> Seq<char> {
    match error {
        TokenErrorView::MissingAccessToken => "token.json is missing accessToken"@,
        TokenErrorView::MissingScopes(missing) => "token.json is missing required scopes: "@
            + joined(missing, ", "@),
        TokenErrorView::InvalidExpiry(text) => "token.json has an invalid expiresAt value: "@
            + text,
        TokenErrorView::Expired(shown) => "token.json expired at "@ + shown,
    }
}

impl TokenError {
    /// How the error reads.
    pub fn message(&self) -> (r: String)
        ensures
            r@ == token_error_text(self@),
    {
        match self {
            TokenError::MissingAccessToken => "token.json is missing accessToken".to_owned(),
            TokenError::MissingScopes(missing) => {
                assert(texts(missing@).skip(0) =~= texts(missing@));
                join(
                    "token.json is missing required scopes: ",
                    join_all(missing, 0, ", ").as_str(),
                )
            },
            TokenError::InvalidExpiry(text) => join(
                "token.json has an invalid expiresAt value: ",
                text.as_str(),
            ),
            TokenError::Expired(shown) => join("token.json expired at ", shown.as_str()),
        }
    }
}

/// The scopes that a token must be good for.
pub const REQUIRED_SCOPES: [&'static str; 3] = ["rpc", "rpc.voice.read", "rpc.voice.write"];

/// The scopes that a token must be good for, as contracts speak of them.
pub open spec fn needed_scopes() -> Seq<Seq<char>> {
    seq!["rpc"@, "rpc.voice.read"@, "rpc.voice.write"@]
}

/// The scopes that a token must be good for.
pub fn required_scopes() -> (r: Vec<String>)
    ensures
        texts(r@) == needed_scopes(),
{
    let r: Vec<String> = vec![
        REQUIRED_SCOPES[0].to_owned(),
        REQUIRED_SCOPES[1].to_owned(),
        REQUIRED_SCOPES[2].to_owned(),
    ];
    assert(texts(r@) =~= needed_scopes());
    r
}

/// The needed scopes that are not among `granted`, in their order.
pub open spec fn missing_scopes(granted: Seq<Seq<char>>) -> Seq<Seq<char>> {
    needed_scopes().filter(|scope: Seq<char>| !granted.contains(scope))
}

/// What is wrong with the granted scopes, if anything. Nothing is, if none are
/// known.
pub open spec fn scope_problem(granted: Seq<Seq<char>>) -> Option<TokenErrorView> {
    if granted.len() > 0 && missing_scopes(granted).len() > 0 {
        Some(TokenErrorView::MissingScopes(missing_scopes(granted)))
    } else {
        None
    }
}

fn is_among(scopes: &Vec<String>, wanted: &str) -> (r: bool)
    ensures
        r == texts(scopes@).contains(wanted@),
{
    let mut i: usize = 0;
    while i < scopes.len()
        invariant
            i <= scopes@.len(),
            forall|j: int| 0 <= j < i ==> #[trigger] texts(scopes@)[j] != wanted@,
        decreases scopes@.len() - i,
    {
        if same_text(scopes[i].as_str(), wanted) {
            assert(texts(scopes@)[i as int] == wanted@);
            return true;
        }
        i += 1;
    }
    false
}

/// Checks that the needed scopes were granted, if it is known which were.
pub fn ensure_required_scopes(scopes: &Vec<String>) -> (r: Result<(), TokenError>)
    ensures
        match scope_problem(texts(scopes@)) {
            Some(problem) => r matches Err(e) && e@ == problem,
            None => r is Ok,
        },
{
    if scopes.is_empty() {
        return Ok(());
    }
    let needed = required_scopes();
    let ghost lacking = |scope: Seq<char>| !texts(scopes@).contains(scope);
    let mut missing: Vec<String> = Vec::new();
    let mut i: usize = 0;
    proof {
        reveal(Seq::filter);
        assert(needed_scopes().take(0) =~= seq![]);
    }
    while i < needed.len()
        invariant
            i <= needed@.len(),
            texts(needed@) == needed_scopes(),
            lacking == (|scope: Seq<char>| !texts(scopes@).contains(scope)),
            texts(missing@) =~= needed_scopes().take(i as int).filter(lacking),
        decreases needed@.len() - i,
    {
        proof {
            reveal(Seq::filter);
            let now = needed_scopes().take(i + 1);
            assert(now.drop_last() =~= needed_scopes().take(i as int));
            assert(now.last() == texts(needed@)[i as int]);
        }
        if !is_among(scopes, needed[i].as_str()) {
            missing.push(needed[i].clone());
        }
        i += 1;
    }
    assert(needed_scopes().take(i as int) =~= needed_scopes());
    if missing.is_empty() {
        Ok(())
    } else {
        Err(TokenError::MissingScopes(missing))
    }
}

/// A point in time.
#[derive(Debug)]
pub struct Moment {
    /// In nanoseconds since the Unix epoch.
    pub unix_nanos: i128,
    /// As it is shown.
    pub shown: String,
}

/// A `Moment` as contracts speak of it.
pub struct MomentView {
    pub unix_nanos: i128,
    pub shown: Seq<char>,
}

impl View for Moment {
    type V = MomentView;

    open spec fn view(&self) -> MomentView {
        MomentView { unix_nanos: self.unix_nanos, shown: self.shown@ }
    }
}

/// An optional moment as contracts speak of it.
pub open spec fn opt_moment(moment: Option<Moment>) -> Option<MomentView> {
    match moment {
        Some(moment) => Some(moment@),
        None => None,
    }
}

/// What `time` reads out of an RFC 3339 date and time; `None` if the text is
/// not one.
pub uninterp spec fn moment_read(text: Seq<char>) -> Option<MomentView>;

/// Calls `time::OffsetDateTime::parse` with the description `Rfc3339`, and
/// gives the time that it reads by its Unix timestamp and by its `Display`
/// text. That this depends on the text alone is all that is claimed.
#[verifier::external_body]
fn read_moment(text: &str) -> (r: Option<Moment>)
    ensures
        opt_moment(r) == moment_read(text@),
{
    match OffsetDateTime::parse(text, &Rfc3339) {
        Ok(t) => Some(Moment { unix_nanos: t.unix_timestamp_nanos(), shown: t.to_string() }),
        Err(_) => None,
    }
}

/// Calls `time::OffsetDateTime::now_utc`, and gives the time by its Unix
/// timestamp in nanoseconds. Nothing is claimed of it.
#[verifier::external_body]
fn unix_now() -> (r: i128) {
    OffsetDateTime::now_utc().unix_timestamp_nanos()
}

/// What is wrong with the expiry time `text` at the time `now`, if `parsed` is
/// how it reads.
pub open spec fn expiry_problem(
    text: Seq<char>,
    parsed: Option<MomentView>,
    now: i128,
) -> Option<TokenErrorView> {
    match parsed {
        None => Some(TokenErrorView::InvalidExpiry(text)),
        Some(moment) => if moment.unix_nanos <= now {
            Some(TokenErrorView::Expired(moment.shown))
        } else {
            None
        },
    }
}

/// Judges the expiry time `text`, which reads `parsed`, at the time `now`.
pub fn judge_expiry(text: &str, parsed: Option<Moment>, now: i128) -> (r: Result<(), TokenError>)
    ensures
        match expiry_problem(text@, opt_moment(parsed), now) {
            Some(problem) => r matches Err(e) && e@ == problem,
            None => r is Ok,
        },
{
    match parsed {
        None => Err(TokenError::InvalidExpiry(text.to_owned())),
        Some(moment) => if moment.unix_nanos <= now {
            Err(TokenError::Expired(moment.shown))
        } else {
            Ok(())
        },
    }
}

/// What is wrong with a token's expiry time at the time `now`, if anything. A
/// token without one does not expire.
pub open spec fn lifetime_problem(token: TokenView, now: i128) -> Option<TokenErrorView> {
    match token.expires_at {
        None => None,
        Some(text) => expiry_problem(text, moment_read(text), now),
    }
}

/// Checks that the token has not expired at the time `now`.
pub fn ensure_not_expired_at(token: &TokenData, now: i128) -> (r: Result<(), TokenError>)
    ensures
        match lifetime_problem(token@, now) {
            Some(problem) => r matches Err(e) && e@ == problem,
            None => r is Ok,
        },
{
    match &token.expires_at {
        None => Ok(()),
        Some(text) => judge_expiry(text.as_str(), read_moment(text.as_str()), now),
    }
}

/// What is wrong with a token at the time `now`, if anything.
pub open spec fn token_problem(token: TokenView, now: i128) -> Option<TokenErrorView> {
    if trimmed(token.access_token).len() == 0 {
        Some(TokenErrorView::MissingAccessToken)
    } else if scope_problem(token.scopes) is Some {
        scope_problem(token.scopes)
    } else {
        lifetime_problem(token, now)
    }
}

/// Checks whether a token can be used at the time `now`.
pub fn check_token(token: &TokenData, now: i128) -> (r: Result<(), TokenError>)
    ensures
        match token_problem(token@, now) {
            Some(problem) => r matches Err(e) && e@ == problem,
            None => r is Ok,
        },
{
    if trim(token.access_token.as_str()).as_str().is_empty() {
        return Err(TokenError::MissingAccessToken);
    }
    match ensure_required_scopes(&token.scopes) {
        Ok(()) => ensure_not_expired_at(token, now),
        Err(e) => Err(e),
    }
}

/// Whether `r` is what loading `token` at the time `now` gives.
pub open spec fn loaded_at(
    token: TokenData,
    now: i128,
    r: Result<TokenData, TokenError>,
) -> bool {
    match token_problem(token@, now) {
        Some(problem) => r is Err && r->Err_0@ == problem,
        None => r is Ok && r->Ok_0 == token,
    }
}

/// Takes the token of a token file, if it can be used at this time.
pub fn load_token(token: TokenData) -> (r: Result<TokenData, TokenError>)
    ensures
        exists|now: i128| #[trigger] loaded_at(token, now, r),
{
    let now: i128 = unix_now();
    let r = match check_token(&token, now) {
        Ok(()) => Ok(token),
        Err(e) => Err(e),
    };
    assert(loaded_at(token, now, r));
    r
}

/// What is written to the token file for a token that reads `json`.
pub fn save_token(json: &str) -> (r: String)
    ensures
        r@ == file_text(json@),
{
    file_contents(json)
}

/// Where a token may be kept, by preference, by the values of `TOKEN_FILE`,
/// `XDG_CONFIG_HOME` and `HOME`.
pub open spec fn token_paths(
    token_file: Option<Seq<u8>>,
    xdg_config_home: Option<Seq<u8>>,
    home: Option<Seq<u8>>,
) -> Seq<Seq<u8>> {
    match token_file {
        Some(path) => seq![path],
        None => seq![
            path_in(config_dir_of(xdg_config_home, home), "token.json"@),
            vstd::utf8::encode_utf8("token.json"@),
            vstd::utf8::encode_utf8("../token.json"@),
        ],
    }
}

/// The bytes of a run of paths.
pub open spec fn path_bytes(paths: Seq<Vec<u8>>) -> Seq<Seq<u8>> {
    paths.map_values(|p: Vec<u8>| p@)
}

/// Lists where a token may be kept, by preference: at `TOKEN_FILE` and nowhere
/// else, if that is set, else in the directory of all files, in the current
/// directory or in the one above it.
pub fn token_candidates(
    token_file: Option<Vec<u8>>,
    xdg_config_home: Option<Vec<u8>>,
    home: Option<Vec<u8>>,
) -> (r: Vec<Vec<u8>>)
    ensures
        path_bytes(r@) == token_paths(
            opt_bytes(token_file),
            opt_bytes(xdg_config_home),
            opt_bytes(home),
        ),
{
    let ghost wanted = token_paths(
        opt_bytes(token_file),
        opt_bytes(xdg_config_home),
        opt_bytes(home),
    );
    let r: Vec<Vec<u8>> = match token_file {
        Some(path) => vec![path],
        None => vec![
            join_path(config_dir(xdg_config_home, home).as_slice(), "token.json"),
            "token.json".as_bytes_vec(),
            "../token.json".as_bytes_vec(),
        ],
    };
    assert(path_bytes(r@) =~= wanted);
    r
}

/// Where a token is saved: at `TOKEN_FILE`, if that is set, else as
/// `token.json` in the directory of all files.
pub fn token_path(
    token_file: Option<Vec<u8>>,
    xdg_config_home: Option<Vec<u8>>,
    home: Option<Vec<u8>>,
) -> (r: Vec<u8>)
    ensures
        r@ == token_paths(opt_bytes(token_file), opt_bytes(xdg_config_home), opt_bytes(home))[0],
{
    match token_file {
        Some(path) => path,
        None => join_path(config_dir(xdg_config_home, home).as_slice(), "token.json"),
    }
}

/// Whether `chosen` is the first of `paths` that exists, going by what
/// `present` says of each up to there; `None` if none does.
pub open spec fn first_present<F: Fn(&Vec<u8>) -> bool>(
    paths: Seq<Vec<u8>>,
    present: F,
    chosen: Option<usize>,
) -> bool {
    match chosen {
        Some(i) => i < paths.len() && present.ensures((&paths[i as int],), true) && forall|j: int|
            0 <= j < i ==> present.ensures((&#[trigger] paths[j],), false),
        None => forall|j: int|
            0 <= j < paths.len() ==> present.ensures((&#[trigger] paths[j],), false),
    }
}

/// Which of `paths` is the first that exists, by `present`.
pub fn existing_token_path<F: Fn(&Vec<u8>) -> bool>(paths: &Vec<Vec<u8>>, present: &F) -> (r:
    Option<usize>)
    requires
        forall|path: &Vec<u8>| present.requires((path,)),
    ensures
        first_present(paths@, *present, r),
{
    let mut i: usize = 0;
    while i < paths.len()
        invariant
            i <= paths@.len(),
            forall|path: &Vec<u8>| present.requires((path,)),
            forall|j: int| 0 <= j < i ==> present.ensures((&#[trigger] paths@[j],), false),
        decreases paths@.len() - i,
    {
        if present(&paths[i]) {
            return Some(i);
        }
        i += 1;
    }
    None
}

/// Which of `paths` a token is to be read from: the first that exists, by
/// `present`, else the first of all, where it would be saved.
pub fn token_to_load<F: Fn(&Vec<u8>) -> bool>(paths: &Vec<Vec<u8>>, present: &F) -> (r: usize)
    requires
        forall|path: &Vec<u8>| present.requires((path,)),
    ensures
        first_present(paths@, *present, Some(r)) || (first_present(paths@, *present, None) && r
            == 0),
{
    match existing_token_path(paths, present) {
        Some(i) => i,
        None => 0,
    }
}

/// A token passes whose scopes are not known, or that was granted all needed
/// ones, whatever else it was granted; any other is refused.
pub proof fn law_scopes_that_suffice(granted: Seq<Seq<char>>)
    ensures
        scope_problem(granted) is None <==> granted.len() == 0 || forall|i: int|
            0 <= i < needed_scopes().len() ==> granted.contains(#[trigger] needed_scopes()[i]),
{
    let lacking = |scope: Seq<char>| !granted.contains(scope);
    if missing_scopes(granted).len() > 0 {
        let scope = missing_scopes(granted)[0];
        needed_scopes().lemma_filter_pred(lacking, 0);
        assert(needed_scopes().filter(lacking).contains(scope));
        needed_scopes().lemma_filter_contains_rev(lacking, scope);
        let i = choose|i: int| 0 <= i < needed_scopes().len() && needed_scopes()[i] == scope;
        assert(!granted.contains(needed_scopes()[i]));
    } else {
        assert forall|i: int| 0 <= i < needed_scopes().len() implies granted.contains(
            #[trigger] needed_scopes()[i],
        ) by {
            if !granted.contains(needed_scopes()[i]) {
                needed_scopes().lemma_filter_contains(lacking, i);
            }
        }
    }
}

/// A token that was saved while it could be used is loaded again as it was, as
/// long as it can be used.
pub proof fn law_saved_token_loads(token: TokenData, now: i128, r: Result<TokenData, TokenError>)
    requires
        trimmed(token@.access_token).len() > 0,
        scope_problem(token@.scopes) is None,
        token@.expires_at matches Some(text) ==> moment_read(text) is Some && moment_read(
            text,
        )->0.unix_nanos > now,
        loaded_at(token, now, r),
    ensures
        r is Ok,
        r->Ok_0 == token,
        r->Ok_0@ == token@,
{
}

/// A token is looked for first where it is saved, so a token that was saved is
/// the one that is loaded: once a file is there, no other place is taken.
pub proof fn law_saved_token_is_found<F: Fn(&Vec<u8>) -> bool>(
    paths: Seq<Vec<u8>>,
    present: F,
    chosen: Option<usize>,
)
    requires
        paths.len() > 0,
        !present.ensures((&paths[0],), false),
        first_present(paths, present, chosen),
    ensures
        chosen == Some(0usize),
        path_bytes(paths)[0] == paths[0]@,
{
}

/// A token with a known expiry time is good until then and not from then on,
/// and time never makes an expired token good again.
pub proof fn law_expiry_is_final(text: Seq<char>, moment: MomentView, earlier: i128, later: i128)
    requires
        earlier <= later,
        expiry_problem(text, Some(moment), earlier) is Some,
    ensures
        expiry_problem(text, Some(moment), later) == expiry_problem(text, Some(moment), earlier),
{
}

/// No token passes that is past its end, or whose end cannot be read, whatever
/// its scopes; and a token that is before its end is not refused for it.
pub proof fn law_no_token_outlives_its_end(token: TokenView, text: Seq<char>, now: i128)
    requires
        token.expires_at == Some(text),
    ensures
        moment_read(text) is None ==> token_problem(token, now) is Some,
        moment_read(text) matches Some(end) && end.unix_nanos <= now ==> token_problem(
            token,
            now,
        ) is Some,
        moment_read(text) is Some && moment_read(text)->0.unix_nanos > now ==> !(token_problem(
            token,
            now,
        ) matches Some(TokenErrorView::Expired(_)) || token_problem(token, now) matches Some(
            TokenErrorView::InvalidExpiry(_),
        )),
{
}

/// What is wrong with a token is told in this order: it is blank, it lacks
/// scopes, its end cannot be read, it is past its end. If none of these holds,
/// nothing is wrong with it.
pub proof fn law_what_is_wrong_with_a_token(token: TokenView, now: i128)
    ensures
        ({
            let problem = token_problem(token, now);
            let blank = trimmed(token.access_token).len() == 0;
            let lacking = token.scopes.len() > 0 && exists|i: int|
                0 <= i < needed_scopes().len() && !token.scopes.contains(
                    #[trigger] needed_scopes()[i],
                );
            let end = token.expires_at;
            let unreadable = end is Some && moment_read(end->0) is None;
            let past = end is Some && moment_read(end->0) is Some && moment_read(
                end->0,
            )->0.unix_nanos <= now;
            &&& blank <==> problem == Some(TokenErrorView::MissingAccessToken)
            &&& !blank && lacking ==> problem is Some && problem->0 is MissingScopes
            &&& !blank && !lacking && unreadable ==> problem == Some(
                TokenErrorView::InvalidExpiry(end->0),
            )
            &&& !blank && !lacking && past ==> problem == Some(
                TokenErrorView::Expired(moment_read(end->0)->0.shown),
            )
            &&& problem is None <==> !blank && !lacking && !unreadable && !past
        }),
{
    law_scopes_that_suffice(token.scopes);
}

/// An expiry time is judged by how it reads: one that cannot be read is told as
/// it was written, one that has come as it is shown, and any other passes.
pub proof fn law_how_an_expiry_is_judged(text: Seq<char>, end: MomentView, now: i128)
    ensures
        expiry_problem(text, None, now) == Some(TokenErrorView::InvalidExpiry(text)),
        end.unix_nanos <= now ==> expiry_problem(text, Some(end), now) == Some(
            TokenErrorView::Expired(end.shown),
        ),
        end.unix_nanos > now ==> expiry_problem(text, Some(end), now) is None,
{
}

/// The scopes that are told to be missing are just the needed ones that were not
/// granted, each once.
pub proof fn law_missing_scopes_are_told(granted: Seq<Seq<char>>, scope: Seq<char>)
    ensures
        missing_scopes(granted).contains(scope) <==> needed_scopes().contains(scope)
            && !granted.contains(scope),
        missing_scopes(granted).len() <= 3,
        needed_scopes().len() == 3,
        needed_scopes()[0] == "rpc"@,
        needed_scopes()[1] == "rpc.voice.read"@,
        needed_scopes()[2] == "rpc.voice.write"@,
        granted.len() > 0 && missing_scopes(granted).len() > 0 ==> scope_problem(granted) == Some(
            TokenErrorView::MissingScopes(missing_scopes(granted)),
        ),
{
    let lacking = |scope: Seq<char>| !granted.contains(scope);
    let missing = missing_scopes(granted);
    needed_scopes().lemma_filter_len(lacking);
    if missing.contains(scope) {
        needed_scopes().lemma_filter_contains_rev(lacking, scope);
        let i = choose|i: int| 0 <= i < missing.len() && missing[i] == scope;
        needed_scopes().lemma_filter_pred(lacking, i);
    }
    if needed_scopes().contains(scope) && !granted.contains(scope) {
        let i = choose|i: int| 0 <= i < needed_scopes().len() && needed_scopes()[i] == scope;
        needed_scopes().lemma_filter_contains(lacking, i);
    }
}

/// `TOKEN_FILE` stands alone for where a token is kept; without it the directory
/// of all files comes first, then this directory, then the one above.
pub proof fn law_where_tokens_are_kept(
    file: Seq<u8>,
    xdg_config_home: Option<Seq<u8>>,
    home: Option<Seq<u8>>,
)
    ensures
        token_paths(Some(file), xdg_config_home, home) == seq![file],
        ({
            let paths = token_paths(None, xdg_config_home, home);
            &&& paths.len() == 3
            &&& paths[0] == config_dir_of(xdg_config_home, home).push(0x2f)
                + vstd::utf8::encode_utf8("token.json"@)
            &&& paths[1] == vstd::utf8::encode_utf8("token.json"@)
            &&& paths[2] == vstd::utf8::encode_utf8("../token.json"@)
        }),
{
    crate::config::lemma_config_dir_takes_names(xdg_config_home, home);
    reveal_strlit("token.json");
    crate::paths::lemma_plain_name("token.json"@);
}

/// A token is loaded as it stands in its file, or not at all.
pub proof fn law_tokens_are_loaded_as_they_are(
    token: TokenData,
    now: i128,
    r: Result<TokenData, TokenError>,
)
    requires
        loaded_at(token, now, r),
    ensures
        r is Ok <==> token_problem(token@, now) is None,
        r is Ok ==> r->Ok_0 == token,
        r is Err ==> Some(r->Err_0@) == token_problem(token@, now),
{
}

/// What is wrong with a token can be read in its error.
pub proof fn law_token_errors_read(text: Seq<char>, a: Seq<char>, b: Seq<char>)
    ensures
        token_error_text(TokenErrorView::MissingAccessToken)
            == "token.json is missing accessToken"@,
        token_error_text(TokenErrorView::InvalidExpiry(text))
            == "token.json has an invalid expiresAt value: "@ + text,
        token_error_text(TokenErrorView::Expired(text)) == "token.json expired at "@ + text,
        token_error_text(TokenErrorView::MissingScopes(seq![a]))
            == "token.json is missing required scopes: "@ + a,
        token_error_text(TokenErrorView::MissingScopes(seq![a, b]))
            == "token.json is missing required scopes: "@ + (a + ", "@ + b),
{
    reveal_with_fuel(joined, 3);
    assert(seq![a, b].drop_last() =~= seq![a]);
}

/// All scopes that are missing can be read in the error, with a comma between
/// each two.
pub proof fn law_missing_scopes_are_listed(first: Seq<char>, rest: Seq<Seq<char>>)
    requires
        rest.len() > 0,
    ensures
        token_error_text(TokenErrorView::MissingScopes(seq![first] + rest))
            == "token.json is missing required scopes: "@ + (first + ", "@ + joined(rest, ", "@)),
{
    crate::text::law_joining(first, rest, ", "@);
}

} // verus!
