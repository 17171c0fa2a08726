//! The Discord application's credentials, and where they are kept.

use vstd::prelude::*;
use crate::paths::{join_path, opt_bytes, path_in};
use crate::text::{is_white_space, join, opt_text, trim, trimmed};

verus! {

/// The Discord application's credentials.
#[derive(Debug)]
pub struct AppConfig {
    pub client_id: String,
    pub client_secret: String,
}

/// An `AppConfig` as contracts speak of it.
pub struct ConfigView {
    pub client_id: Seq<char>,
    pub client_secret: Seq<char>,
}

impl View for AppConfig {
    type V = ConfigView;

    open spec fn view(&self) -> ConfigView {
        ConfigView { client_id: self.client_id@, client_secret: self.client_secret@ }
    }
}

/// What can be wrong with the credentials.
#[derive(Debug)]
pub enum ConfigError {
    /// There is no config file (this is where it was looked for), and the
    /// environment holds no credentials either.
    Missing(String),
    EmptyClientId,
    EmptyClientSecret,
}

/// A `ConfigError` as contracts speak of it.
pub enum ConfigErrorView {
    Missing(Seq<char>),
    EmptyClientId,
    EmptyClientSecret,
}

impl View for ConfigError {
    type V = ConfigErrorView;

    open spec fn view(&self) -> ConfigErrorView {
        match self {
            ConfigError::Missing(path) => ConfigErrorView::Missing(path@),
            ConfigError::EmptyClientId => ConfigErrorView::EmptyClientId,
            ConfigError::EmptyClientSecret => ConfigErrorView::EmptyClientSecret,
        }
    }
}

impl ConfigError {
    /// How the error reads.
    pub open spec fn spec_message(error: ConfigErrorView) -> Seq<char> {
        match error {
            ConfigErrorView::Missing(path) => "missing config at "@ + path
                + "; run `cargo run -- setup` first"@,
            ConfigErrorView::EmptyClientId => "Discord Client ID cannot be empty"@,
            ConfigErrorView::EmptyClientSecret => "Discord Client Secret cannot be empty"@,
        }
    }

    /// How the error reads.
    pub fn message(&self) -> (r: String)
        ensures
            r@ == ConfigError::spec_message(self@),
    {
        match self {
            ConfigError::Missing(path) => {
                let mut out = join("missing config at ", path.as_str());
                out.append("; run `cargo run -- setup` first");
                out
            },
            ConfigError::EmptyClientId => "Discord Client ID cannot be empty".to_owned(),
            ConfigError::EmptyClientSecret => "Discord Client Secret cannot be empty".to_owned(),
        }
    }
}

/// What is wrong with a config, if anything: neither half may be blank.
pub open spec fn config_problem(config: ConfigView) -> Option<ConfigErrorView> {
    if trimmed(config.client_id).len() == 0 {
        Some(ConfigErrorView::EmptyClientId)
    } else if trimmed(config.client_secret).len() == 0 {
        Some(ConfigErrorView::EmptyClientSecret)
    } else {
        None
    }
}

/// Checks that neither half of the credentials is blank.
pub fn validate_config(config: &AppConfig) -> (r: Result<(), ConfigError>)
    ensures
        match r {
            Ok(()) => config_problem(config@) is None,
            Err(e) => config_problem(config@) == Some(e@),
        },
{
    if trim(config.client_id.as_str()).as_str().is_empty() {
        return Err(ConfigError::EmptyClientId);
    }
    if trim(config.client_secret.as_str()).as_str().is_empty() {
        return Err(ConfigError::EmptyClientSecret);
    }
    Ok(())
}

/// The credentials to go by: those of the file, each half overridden by the
/// environment where that is set. `None` if there is nothing to go by.
pub open spec fn effective_config(
    file: Option<ConfigView>,
    env_client_id: Option<Seq<char>>,
    env_client_secret: Option<Seq<char>>,
) -> Option<ConfigView> {
    if file is None && env_client_id is None && env_client_secret is None {
        None
    } else {
        Some(
            ConfigView {
                client_id: match env_client_id {
                    Some(id) => id,
                    None => match file {
                        Some(config) => config.client_id,
                        None => seq![],
                    },
                },
                client_secret: match env_client_secret {
                    Some(secret) => secret,
                    None => match file {
                        Some(config) => config.client_secret,
                        None => seq![],
                    },
                },
            },
        )
    }
}

/// An optional config as contracts speak of it.
pub open spec fn opt_config(config: Option<AppConfig>) -> Option<ConfigView> {
    match config {
        Some(config) => Some(config@),
        None => None,
    }
}

/// What settling the credentials comes to.
pub open spec fn config_loaded(
    file: Option<ConfigView>,
    env_client_id: Option<Seq<char>>,
    env_client_secret: Option<Seq<char>>,
    path: Seq<char>,
) -> Result<ConfigView, ConfigErrorView> {
    match effective_config(file, env_client_id, env_client_secret) {
        None => Err(ConfigErrorView::Missing(path)),
        Some(config) => match config_problem(config) {
            Some(problem) => Err(problem),
            None => Ok(config),
        },
    }
}

/// Settles the credentials: `file` is what the config file holds, if there is
/// one at `path`; `DISCORD_CLIENT_ID` and `DISCORD_CLIENT_SECRET` go before it.
pub fn load_config(
    file: Option<AppConfig>,
    env_client_id: Option<String>,
    env_client_secret: Option<String>,
    path: &str,
) -> (r: Result<AppConfig, ConfigError>)
    ensures
        ({
            let loaded = config_loaded(
                opt_config(file),
                opt_text(env_client_id),
                opt_text(env_client_secret),
                path@,
            );
            match r {
                Ok(config) => loaded == Ok::<ConfigView, ConfigErrorView>(config@),
                Err(e) => loaded == Err::<ConfigView, ConfigErrorView>(e@),
            }
        }),
{
    let mut config = match file {
        Some(config) => config,
        None => {
            if env_client_id.is_none() && env_client_secret.is_none() {
                return Err(ConfigError::Missing(path.to_owned()));
            }
            AppConfig { client_id: String::new(), client_secret: String::new() }
        },
    };
    if let Some(client_id) = env_client_id {
        config.client_id = client_id;
    }
    if let Some(client_secret) = env_client_secret {
        config.client_secret = client_secret;
    }
    match validate_config(&config) {
        Ok(()) => Ok(config),
        Err(e) => Err(e),
    }
}

/// What a JSON file is written as: its text, and a line feed.
pub open spec fn file_text(json: Seq<char>) -> Seq<char> {
    json + "\n"@
}

/// What a JSON file is written as.
pub fn file_contents(json: &str) -> (r: String)
    ensures
        r@ == file_text(json@),
{
    join(json, "\n")
}

/// What is written to the config file for a config, which reads `json`, unless
/// there is something wrong with it.
pub fn save_config(config: &AppConfig, json: &str) -> (r: Result<String, ConfigError>)
    ensures
        match config_problem(config@) {
            Some(problem) => r matches Err(e) && e@ == problem,
            None => r matches Ok(contents) && contents@ == file_text(json@),
        },
{
    match validate_config(config) {
        Ok(()) => Ok(file_contents(json)),
        Err(e) => Err(e),
    }
}

/// The credentials that were handed in, without white space around them.
pub open spec fn tidied(client_id: Seq<char>, client_secret: Seq<char>) -> ConfigView {
    ConfigView { client_id: trimmed(client_id), client_secret: trimmed(client_secret) }
}

/// Makes a config of credentials that were handed in.
pub fn tidy(client_id: &str, client_secret: &str) -> (r: AppConfig)
    ensures
        r@ == tidied(client_id@, client_secret@),
{
    AppConfig { client_id: trim(client_id), client_secret: trim(client_secret) }
}

/// The directory of all files, by the values of `XDG_CONFIG_HOME` and `HOME`.
pub open spec fn config_dir_of(xdg_config_home: Option<Seq<u8>>, home: Option<Seq<u8>>) -> Seq<u8> {
    match xdg_config_home {
        Some(dir) => path_in(dir, "discord-mute-rs"@),
        None => {
            let home = match home {
                Some(dir) => dir,
                None => vstd::utf8::encode_utf8("."@),
            };
            path_in(path_in(home, ".config"@), "discord-mute-rs"@)
        },
    }
}

/// The directory of all files: `$XDG_CONFIG_HOME/discord-mute-rs`, else
/// `$HOME/.config/discord-mute-rs`, else the latter under the current
/// directory.
pub fn config_dir(xdg_config_home: Option<Vec<u8>>, home: Option<Vec<u8>>) -> (r: Vec<u8>)
    ensures
        r@ == config_dir_of(
            opt_bytes(xdg_config_home),
            opt_bytes(home),
        ),
{
    if let Some(dir) = xdg_config_home {
        return join_path(dir.as_slice(), "discord-mute-rs");
    }
    let home = match home {
        Some(dir) => dir,
        None => ".".as_bytes_vec(),
    };
    join_path(join_path(home.as_slice(), ".config").as_slice(), "discord-mute-rs")
}

/// Where the credentials are kept.
pub fn config_path(xdg_config_home: Option<Vec<u8>>, home: Option<Vec<u8>>) -> (r: Vec<u8>)
    ensures
        r@ == path_in(
            config_dir_of(
                opt_bytes(xdg_config_home),
                opt_bytes(home),
            ),
            "config.json"@,
        ),
{
    join_path(config_dir(xdg_config_home, home).as_slice(), "config.json")
}

proof fn lemma_trimmed_edges(s: Seq<char>)
    ensures
        trimmed(s).len() > 0 ==> !is_white_space(trimmed(s).first())
            && !is_white_space(trimmed(s).last()),
    decreases s.len(),
{
    if s.len() > 0 && is_white_space(s.first()) {
        lemma_trimmed_edges(s.drop_first());
    } else if s.len() > 0 && is_white_space(s.last()) {
        lemma_trimmed_edges(s.drop_last());
    }
}

/// A config that could be saved is loaded again as it was, character for
/// character, if the environment holds no credentials: with the blanks around
/// them, where there are any.
pub proof fn law_saved_config_loads(config: ConfigView, path: Seq<char>)
    requires
        config_problem(config) is None,
    ensures
        config_loaded(Some(config), None, None, path) == Ok::<ConfigView, ConfigErrorView>(config),
{
}

/// Credentials that were handed in can be saved exactly if neither half is
/// blank.
pub proof fn law_tidied_credentials_can_be_saved(client_id: Seq<char>, client_secret: Seq<char>)
    ensures
        config_problem(tidied(client_id, client_secret)) is None <==> trimmed(client_id).len() > 0
            && trimmed(client_secret).len() > 0,
{
    lemma_trimmed_edges(client_id);
    lemma_trimmed_edges(client_secret);
}

/// To tidy credentials a second time changes nothing.
pub proof fn law_tidying_is_idempotent(client_id: Seq<char>, client_secret: Seq<char>)
    ensures
        ({
            let once = tidied(client_id, client_secret);
            tidied(once.client_id, once.client_secret) == once
        }),
{
    lemma_trimmed_edges(client_id);
    lemma_trimmed_edges(client_secret);
}

/// The environment always goes before the file.
pub proof fn law_environment_overrides_file(
    file: Option<ConfigView>,
    id: Seq<char>,
    secret: Seq<char>,
)
    ensures
        effective_config(file, Some(id), Some(secret)) == Some(
            ConfigView { client_id: id, client_secret: secret },
        ),
{
}

/// A directory of all files never ends in a slash, so names go in behind one.
pub(crate) proof fn lemma_config_dir_takes_names(
    xdg_config_home: Option<Seq<u8>>,
    home: Option<Seq<u8>>,
)
    ensures
        config_dir_of(xdg_config_home, home).len() > 0,
        config_dir_of(xdg_config_home, home).last() != 0x2f,
{
    let name = vstd::utf8::encode_utf8("discord-mute-rs"@);
    lemma_ends_plainly();
    let dir = config_dir_of(xdg_config_home, home);
    assert(dir.len() >= name.len());
    assert(dir.skip(dir.len() - name.len()) =~= name);
    assert(dir.last() == name.last());
}

proof fn lemma_encoded_ends(s: Seq<char>)
    requires
        s.len() > 0,
        (s.last() as u32) < 0x80,
    ensures
        vstd::utf8::encode_utf8(s).len() > 0,
        vstd::utf8::encode_utf8(s).last() == s.last() as u32,
    decreases s.len(),
{
    let c = s.last() as u32;
    assert(c < 0x80 ==> c & 0x7f == c) by (bit_vector);
    if s.len() > 1 {
        assert(s.drop_first().last() == s.last());
        lemma_encoded_ends(s.drop_first());
    } else {
        reveal_with_fuel(vstd::utf8::encode_utf8, 2);
        assert(s.drop_first() =~= seq![]);
        assert(vstd::utf8::encode_utf8(s) =~= vstd::utf8::encode_scalar(c));
    }
}

proof fn lemma_ends_plainly()
    ensures
        vstd::utf8::encode_utf8("discord-mute-rs"@).len() > 0,
        vstd::utf8::encode_utf8("discord-mute-rs"@).last() == 0x73,
{
    reveal_strlit("discord-mute-rs");
    lemma_encoded_ends("discord-mute-rs"@);
}

/// All files are in `discord-mute-rs`, under `XDG_CONFIG_HOME` if that is set,
/// and else under `.config` at home; where that is not known either, under this
/// directory.
pub proof fn law_where_files_are_kept(xdg: Seq<u8>, home: Seq<u8>, other: Option<Seq<u8>>)
    ensures
        config_dir_of(Some(xdg), other) == path_in(xdg, "discord-mute-rs"@),
        config_dir_of(None, Some(home)) == path_in(
            path_in(home, ".config"@),
            "discord-mute-rs"@,
        ),
        config_dir_of(None, None) == path_in(
            path_in(vstd::utf8::encode_utf8("."@), ".config"@),
            "discord-mute-rs"@,
        ),
        xdg.len() > 0 && xdg.last() != 0x2f ==> config_dir_of(Some(xdg), other) == xdg
            + seq![0x2fu8] + vstd::utf8::encode_utf8("discord-mute-rs"@),
{
    reveal_strlit("discord-mute-rs");
    crate::paths::lemma_plain_name("discord-mute-rs"@);
    crate::paths::law_joining_paths(xdg, vstd::utf8::encode_utf8("discord-mute-rs"@));
}

/// Credentials are wrong exactly if one of them is blank, and the identifier is
/// told of first.
pub proof fn law_what_is_wrong_with_credentials(config: ConfigView)
    ensures
        ({
            let blank_id = forall|i: int|
                0 <= i < config.client_id.len() ==> is_white_space(#[trigger] config.client_id[i]);
            let blank_secret = forall|i: int|
                0 <= i < config.client_secret.len() ==> is_white_space(
                    #[trigger] config.client_secret[i],
                );
            &&& blank_id <==> config_problem(config) == Some(ConfigErrorView::EmptyClientId)
            &&& !blank_id && blank_secret <==> config_problem(config) == Some(
                ConfigErrorView::EmptyClientSecret,
            )
            &&& !blank_id && !blank_secret <==> config_problem(config) is None
        }),
{
    crate::text::law_only_white_space_is_blank(config.client_id);
    crate::text::law_only_white_space_is_blank(config.client_secret);
}

/// Each half of the credentials comes from the environment if that has it, and
/// else from the file; a half that neither has is empty. Without a file and
/// without either half in the environment there is nothing to go by.
pub proof fn law_where_credentials_come_from(
    file: ConfigView,
    id: Seq<char>,
    secret: Seq<char>,
    path: Seq<char>,
)
    ensures
        effective_config(Some(file), Some(id), None) == Some(
            ConfigView { client_id: id, client_secret: file.client_secret },
        ),
        effective_config(Some(file), None, Some(secret)) == Some(
            ConfigView { client_id: file.client_id, client_secret: secret },
        ),
        effective_config(Some(file), None, None) == Some(file),
        effective_config(Some(file), Some(id), Some(secret)) == Some(
            ConfigView { client_id: id, client_secret: secret },
        ),
        effective_config(None, Some(id), Some(secret)) == Some(
            ConfigView { client_id: id, client_secret: secret },
        ),
        effective_config(None, Some(id), None) == Some(
            ConfigView { client_id: id, client_secret: seq![] },
        ),
        effective_config(None, None, Some(secret)) == Some(
            ConfigView { client_id: seq![], client_secret: secret },
        ),
        effective_config(None, None, None) is None,
        config_loaded(None, None, None, path) == Err::<ConfigView, ConfigErrorView>(
            ConfigErrorView::Missing(path),
        ),
{
}

/// Credentials are loaded as they come, or not at all: what is wrong with them is
/// then told.
pub proof fn law_credentials_are_loaded_as_they_come(
    file: Option<ConfigView>,
    id: Option<Seq<char>>,
    secret: Option<Seq<char>>,
    path: Seq<char>,
)
    requires
        effective_config(file, id, secret) is Some,
    ensures
        ({
            let config = effective_config(file, id, secret)->0;
            let loaded = config_loaded(file, id, secret, path);
            &&& loaded is Ok <==> config_problem(config) is None
            &&& loaded is Ok ==> loaded->Ok_0 == config
            &&& loaded is Err ==> Some(loaded->Err_0) == config_problem(config)
        }),
{
}

/// A file ends in a line feed, and is otherwise just its text.
pub proof fn law_files_end_in_a_line_feed(json: Seq<char>)
    ensures
        file_text(json).drop_last() == json,
        file_text(json).last() == '\n',
        file_text(json).len() == json.len() + 1,
{
    reveal_strlit("\n");
    assert(file_text(json).drop_last() =~= json);
}

/// What is wrong with credentials can be read in its error.
pub proof fn law_config_errors_read(path: Seq<char>)
    ensures
        ConfigError::spec_message(ConfigErrorView::Missing(path)) == "missing config at "@ + path
            + "; run `cargo run -- setup` first"@,
        ConfigError::spec_message(ConfigErrorView::EmptyClientId)
            == "Discord Client ID cannot be empty"@,
        ConfigError::spec_message(ConfigErrorView::EmptyClientSecret)
            == "Discord Client Secret cannot be empty"@,
{
}

/// What was handed in loses the white space around it, and nothing else.
pub proof fn law_tidying_takes_white_space_off(client_id: Seq<char>, client_secret: Seq<char>)
    ensures
        tidied(client_id, client_secret).client_id == trimmed(client_id),
        tidied(client_id, client_secret).client_secret == trimmed(client_secret),
{
}

} // verus!
