//! The bot's configuration: where its state and database live, and under which
//! address its web server listens and is reached.
use vstd::prelude::*;

use crate::errors::BotError;
use crate::text::{
    chars_of, concat2, concat3, has_prefix, lemma_trim_end_char, owned, string_of,
    strip_prefix_chars, trim_end_char, trim_end_char_chars,
};

verus! {

/// The value of an environment variable as the process found it.
pub enum EnvSetting {
    /// The variable is set to this text.
    Present(String),
    /// The variable is not set.
    Unset,
    /// The variable is set but could not be read; the text describes why.
    Unreadable(String),
}

/// Where the database is: the file it is kept in and its connection string.
pub struct DatabaseLocation {
    pub filename: String,
    pub url: String,
}

/// The resolved configuration shared by the bot and the web server.
pub struct AppState {
    pub state_directory: String,
    pub database_url: String,
    pub database_filename: String,
    pub base_url: String,
}

/// `a` and `b` hold the same text in every setting.
pub open spec fn same_settings(a: AppState, b: AppState) -> bool {
    &&& a.state_directory@ == b.state_directory@
    &&& a.database_url@ == b.database_url@
    &&& a.database_filename@ == b.database_filename@
    &&& a.base_url@ == b.base_url@
}

impl Clone for AppState {
    fn clone(&self) -> (st: Self)
        ensures
            same_settings(st, *self),
    {
        AppState {
            state_directory: self.state_directory.clone(),
            database_url: self.database_url.clone(),
            database_filename: self.database_filename.clone(),
            base_url: self.base_url.clone(),
        }
    }
}

/// `name` inside the directory `dir`, as `Path::join` builds it: a separator is
/// put in between unless `dir` is empty or already ends with one.
pub open spec fn join_path(dir: Seq<char>, name: Seq<char>) -> Seq<char> {
    if dir.len() > 0 && dir.last() != '/' {
        dir + seq!['/'] + name
    } else {
        dir + name
    }
}

/// The database location the `DATABASE_URL` setting leads to, as (filename,
/// connection string), or the error message when the setting is unreadable.
pub open spec fn database_location_spec(setting: EnvSetting, state_directory: Seq<char>) -> Result<
    (Seq<char>, Seq<char>),
    Seq<char>,
> {
    match setting {
        EnvSetting::Present(url) => if has_prefix(url@, "sqlite:"@) {
            Ok((url@.subrange(7, url@.len() as int), url@))
        } else {
            Ok((url@, "sqlite:"@ + url@))
        },
        EnvSetting::Unset => {
            let path = join_path(state_directory, "db.sqlite"@);
            Ok((path, "sqlite:"@ + path))
        },
        EnvSetting::Unreadable(reason) => Err(
            "Error while getting environment variable DATABASE_URL: "@ + reason@,
        ),
    }
}

/// The text of a setting, or `default` when it is absent.
pub open spec fn setting_or(value: Option<String>, default: Seq<char>) -> Seq<char> {
    match value {
        Some(v) => v@,
        None => default,
    }
}

/// The public base URL: the `WEB_SERVER_BASE_URL` setting, or `host:port`,
/// without trailing slashes.
pub open spec fn base_url_spec(host: Seq<char>, port: Seq<char>, base_url: Option<String>) -> Seq<char> {
    trim_end_char(setting_or(base_url, host + ":"@ + port), '/')
}

/// The value of an optional setting, or the given default.
fn setting_value(value: Option<String>, default: &str) -> (r: String)
    ensures
        r@ == setting_or(value, default@),
{
    match value {
        Some(v) => v,
        None => owned(default),
    }
}

impl AppState {
    /// The state directory named by `BOT_STATE_DIRECTORY`, or `icalbot`.
    pub fn state_directory_setting(value: Option<String>) -> (dir: String)
        ensures
            dir@ == setting_or(value, "icalbot"@),
    {
        setting_value(value, "icalbot")
    }

    /// Where the database lives, from the `DATABASE_URL` setting.
    ///
    /// A connection string starting with `sqlite:` names its file after that
    /// prefix; any other value is a file path and gets the prefix added; when the
    /// variable is unset the database is `db.sqlite` in the state directory.
    pub fn database_location(setting: EnvSetting, state_directory: &str) -> (r: Result<
        DatabaseLocation,
        BotError,
    >)
        ensures
            match (r, database_location_spec(setting, state_directory@)) {
                (Ok(loc), Ok((filename, url))) => loc.filename@ == filename && loc.url@ == url,
                (Err(e), Err(message)) => e@ == message,
                _ => false,
            },
    {
        match setting {
            EnvSetting::Present(url) => {
                let cs = chars_of(url.as_str());
                match strip_prefix_chars(cs.as_slice(), "sqlite:") {
                    Some(path) => {
                        proof {
                            reveal_strlit("sqlite:");
                            assert(path@ =~= url@.subrange(7, url@.len() as int));
                        }
                        Ok(DatabaseLocation { filename: string_of(path.as_slice()), url })
                    },
                    None => {
                        let full = concat2("sqlite:", url.as_str());
                        Ok(DatabaseLocation { filename: url, url: full })
                    },
                }
            },
            EnvSetting::Unset => {
                let dir = chars_of(state_directory);
                let path = if dir.len() > 0 && dir[dir.len() - 1] != '/' {
                    concat3(state_directory, "/", "db.sqlite")
                } else {
                    concat2(state_directory, "db.sqlite")
                };
                proof {
                    reveal_strlit("/");
                }
                let url = concat2("sqlite:", path.as_str());
                Ok(DatabaseLocation { filename: path, url })
            },
            EnvSetting::Unreadable(reason) => Err(
                BotError::new(
                    concat2(
                        "Error while getting environment variable DATABASE_URL: ",
                        reason.as_str(),
                    ),
                ),
            ),
        }
    }

    /// The public base URL: the `WEB_SERVER_BASE_URL` setting, or
    /// `host:port` of the listen address, without trailing slashes.
    pub fn base_url_setting(host: &str, port: &str, base_url: Option<String>) -> (r: String)
        ensures
            r@ == base_url_spec(host@, port@, base_url),
            r@.len() == 0 || r@.last() != '/',
    {
        let base = match base_url {
            Some(b) => b,
            None => concat3(host, ":", port),
        };
        let cs = chars_of(base.as_str());
        let trimmed = trim_end_char_chars(cs.as_slice(), '/');
        proof {
            lemma_trim_end_char(cs@, '/');
        }
        string_of(trimmed.as_slice())
    }

    /// The configuration from its settings: the (already resolved) state
    /// directory, `DATABASE_URL`, the listen host and port (defaulting to
    /// `0.0.0.0` and `29273`) and `WEB_SERVER_BASE_URL`.
    ///
    /// Fails exactly when `DATABASE_URL` is set but unreadable.
    pub fn new(
        state_directory: String,
        database_url: EnvSetting,
        listen_host: Option<String>,
        listen_port: Option<String>,
        base_url: Option<String>,
    ) -> (r: Result<AppState, BotError>)
        ensures
            match (r, database_location_spec(database_url, state_directory@)) {
                (Ok(st), Ok((filename, url))) => {
                    &&& st.state_directory@ == state_directory@
                    &&& st.database_filename@ == filename
                    &&& st.database_url@ == url
                    &&& st.base_url@ == base_url_spec(
                        setting_or(listen_host, "0.0.0.0"@),
                        setting_or(listen_port, "29273"@),
                        base_url,
                    )
                    &&& (st.base_url@.len() == 0 || st.base_url@.last() != '/')
                },
                (Err(e), Err(message)) => e@ == message,
                _ => false,
            },
    {
        let location = match AppState::database_location(database_url, state_directory.as_str()) {
            Ok(loc) => loc,
            Err(e) => {
                return Err(e);
            },
        };
        let host = setting_value(listen_host, "0.0.0.0");
        let port = setting_value(listen_port, "29273");
        let base = AppState::base_url_setting(host.as_str(), port.as_str(), base_url);
        Ok(
            AppState {
                state_directory,
                database_url: location.url,
                database_filename: location.filename,
                base_url: base,
            },
        )
    }

    /// The listen address, `host:port`, from the `WEB_SERVER_LISTEN_ADDRESS`
    /// and `WEB_SERVER_LISTEN_PORT` settings as they stand when it is asked for,
    /// defaulting to `0.0.0.0` and `29273`.
    pub fn listen_address(&self, listen_host: Option<String>, listen_port: Option<String>) -> (a: String)
        ensures
            a@ == setting_or(listen_host, "0.0.0.0"@) + ":"@ + setting_or(listen_port, "29273"@),
    {
        let host = setting_value(listen_host, "0.0.0.0");
        let port = setting_value(listen_port, "29273");
        concat3(host.as_str(), ":", port.as_str())
    }

    /// The full calendar URL for a guild with the given discriminator:
    /// `{base_url}/ical/{discriminator}/ical.ics`.
    pub fn calendar_url(&self, discriminator: &str) -> (u: String)
        ensures
            u@ == calendar_url_spec(self.base_url@, discriminator@),
    {
        let mut u = concat3(self.base_url.as_str(), "/ical/", discriminator);
        u.append("/ical.ics");
        u
    }
}

/// `{base_url}/ical/{discriminator}/ical.ics`.
pub open spec fn calendar_url_spec(base_url: Seq<char>, discriminator: Seq<char>) -> Seq<char> {
    base_url + "/ical/"@ + discriminator + "/ical.ics"@
}

} // verus!
