//! Database settings chosen by an environment selector.
//!
//! The process environment is handed in as a list of name/value pairs; the
//! selector `ENV` picks one of two profiles, and each profile reads its four
//! settings from variables of its own.

use vstd::prelude::*;
use vstd::string::StringExecFns;
use crate::text::same_text;

verus! {

/// The two named configuration profiles.
#[derive(Clone, Copy, Debug, PartialEq, Eq, Structural)]
pub enum Profile {
    Local,
    Production,
}

/// The four settings that every profile supplies.
#[derive(Clone, Copy, Debug, PartialEq, Eq, Structural)]
pub enum Setting {
    User,
    Password,
    Host,
    Name,
}

/// Why no configuration could be read from an environment.
#[derive(Clone, Copy, Debug, PartialEq, Eq, Structural)]
pub enum ConfigError {
    /// The selector variable is not set.
    MissingSelector,
    /// The selector is set, but to the name of no profile.
    UnknownProfile,
    /// The chosen profile lacks one of its settings; the first one missing
    /// in the order user, password, host, name is reported.
    MissingSetting(Profile, Setting),
}

/// Connection settings of one profile.
#[derive(Clone, Debug)]
pub struct DbConfig {
    pub db_user: String,
    pub db_password: String,
    pub db_host: String,
    pub db_name: String,
}

/// What a `DbConfig` holds, as plain text.
pub struct DbConfigView {
    pub user: Seq<char>,
    pub password: Seq<char>,
    pub host: Seq<char>,
    pub name: Seq<char>,
}

impl View for DbConfig {
    type V = DbConfigView;

    open spec fn view(&self) -> DbConfigView {
        DbConfigView {
            user: self.db_user@,
            password: self.db_password@,
            host: self.db_host@,
            name: self.db_name@,
        }
    }
}

/// Name of the selector variable.
pub open spec fn selector_name() -> Seq<char> {
    "ENV"@
}

/// The profile that a selector value names, if any.
pub open spec fn profile_named(value: Seq<char>) -> Option<Profile> {
    if value == "local"@ {
        Some(Profile::Local)
    } else if value == "production"@ {
        Some(Profile::Production)
    } else {
        None
    }
}

/// Name of the variable from which `profile` reads `setting`.
pub open spec fn variable_name(profile: Profile, setting: Setting) -> Seq<char> {
    match (profile, setting) {
        (Profile::Local, Setting::User) => "DB_USER_DEV"@,
        (Profile::Local, Setting::Password) => "DB_PASSWORD_DEV"@,
        (Profile::Local, Setting::Host) => "DB_HOST_DEV"@,
        (Profile::Local, Setting::Name) => "DB_NAME_DEV"@,
        (Profile::Production, Setting::User) => "DB_USER"@,
        (Profile::Production, Setting::Password) => "DB_PASSWORD"@,
        (Profile::Production, Setting::Host) => "DB_HOST"@,
        (Profile::Production, Setting::Name) => "DB_NAME"@,
    }
}

/// Value of the first pair in `vars` whose name is `name`.
pub open spec fn value_of(vars: Seq<(Seq<char>, Seq<char>)>, name: Seq<char>) -> Option<Seq<char>>
    decreases vars.len(),
{
    if vars.len() == 0 {
        None
    } else if vars[0].0 == name {
        Some(vars[0].1)
    } else {
        value_of(vars.drop_first(), name)
    }
}

/// The settings of `profile` as `vars` gives them, or the first one missing.
pub open spec fn profile_settings(
    vars: Seq<(Seq<char>, Seq<char>)>,
    profile: Profile,
) -> Result<DbConfigView, ConfigError> {
    match value_of(vars, variable_name(profile, Setting::User)) {
        None => Err(ConfigError::MissingSetting(profile, Setting::User)),
        Some(user) => match value_of(vars, variable_name(profile, Setting::Password)) {
            None => Err(ConfigError::MissingSetting(profile, Setting::Password)),
            Some(password) => match value_of(vars, variable_name(profile, Setting::Host)) {
                None => Err(ConfigError::MissingSetting(profile, Setting::Host)),
                Some(host) => match value_of(vars, variable_name(profile, Setting::Name)) {
                    None => Err(ConfigError::MissingSetting(profile, Setting::Name)),
                    Some(name) => Ok(DbConfigView { user, password, host, name }),
                },
            },
        },
    }
}

/// The configuration that an environment describes.
pub open spec fn configured(vars: Seq<(Seq<char>, Seq<char>)>) -> Result<
    DbConfigView,
    ConfigError,
> {
    match value_of(vars, selector_name()) {
        None => Err(ConfigError::MissingSelector),
        Some(selector) => match profile_named(selector) {
            None => Err(ConfigError::UnknownProfile),
            Some(profile) => profile_settings(vars, profile),
        },
    }
}

/// The connection URL that a configuration stands for.
pub open spec fn connection_url(config: DbConfigView) -> Seq<char> {
    "postgres://"@ + config.user + ":"@ + config.password + "@"@ + config.host + "/"@
        + config.name + "?sslmode=require"@
}

/// The text that reports `error` to an operator.
pub open spec fn error_text(error: ConfigError) -> Seq<char> {
    match error {
        ConfigError::MissingSelector => selector_name() + " must be set in the .env file"@,
        ConfigError::UnknownProfile => selector_name() + " must be local or production"@,
        ConfigError::MissingSetting(profile, setting) => variable_name(profile, setting)
            + " must be set in the .env file"@,
    }
}

/// Looks `name` up in `vars`; the first pair of that name wins.
pub fn lookup<'a>(vars: &'a Vec<(String, String)>, name: &str) -> (found: Option<&'a String>)
    ensures
        match found {
            Some(value) => value_of(vars.deep_view(), name@) == Some(value@),
            None => value_of(vars.deep_view(), name@) is None,
        },
{
    let mut i: usize = 0;
    proof {
        assert(vars.deep_view().skip(0) == vars.deep_view());
    }
    while i < vars.len()
        invariant
            i <= vars.len(),
            value_of(vars.deep_view(), name@) == value_of(vars.deep_view().skip(i as int), name@),
        decreases vars.len() - i,
    {
        proof {
            let rest = vars.deep_view().skip(i as int);
            assert(rest[0] == vars@[i as int].deep_view());
            assert(rest.drop_first() == vars.deep_view().skip(i + 1));
        }
        if same_text(vars[i].0.as_str(), name) {
            return Some(&vars[i].1);
        }
        i += 1;
    }
    None
}

impl Profile {
    /// Reads a selector value: `local` or `production`, and nothing else.
    pub fn parse(value: &str) -> (profile: Option<Profile>)
        ensures
            profile == profile_named(value@),
    {
        if same_text(value, "local") {
            Some(Profile::Local)
        } else if same_text(value, "production") {
            Some(Profile::Production)
        } else {
            None
        }
    }

    /// Name of the variable from which this profile reads `setting`.
    pub fn variable(self, setting: Setting) -> (name: &'static str)
        ensures
            name@ == variable_name(self, setting),
    {
        match (self, setting) {
            (Profile::Local, Setting::User) => "DB_USER_DEV",
            (Profile::Local, Setting::Password) => "DB_PASSWORD_DEV",
            (Profile::Local, Setting::Host) => "DB_HOST_DEV",
            (Profile::Local, Setting::Name) => "DB_NAME_DEV",
            (Profile::Production, Setting::User) => "DB_USER",
            (Profile::Production, Setting::Password) => "DB_PASSWORD",
            (Profile::Production, Setting::Host) => "DB_HOST",
            (Profile::Production, Setting::Name) => "DB_NAME",
        }
    }
}

/// One setting of `profile`, or the error that names it as missing.
fn setting_of(vars: &Vec<(String, String)>, profile: Profile, setting: Setting) -> (value: Result<
    String,
    ConfigError,
>)
    ensures
        match value {
            Ok(text) => value_of(vars.deep_view(), variable_name(profile, setting)) == Some(text@),
            Err(error) => error == ConfigError::MissingSetting(profile, setting) && value_of(
                vars.deep_view(),
                variable_name(profile, setting),
            ) is None,
        },
{
    match lookup(vars, profile.variable(setting)) {
        Some(text) => Ok(text.clone()),
        None => Err(ConfigError::MissingSetting(profile, setting)),
    }
}

impl DbConfig {
    /// Reads the configuration out of an environment.
    ///
    /// Succeeds exactly when the selector names a profile and all four
    /// settings of that profile are present; every failure says what is
    /// missing.
    pub fn from_env(vars: &Vec<(String, String)>) -> (loaded: Result<DbConfig, ConfigError>)
        ensures
            match loaded {
                Ok(config) => configured(vars.deep_view()) == Ok::<DbConfigView, ConfigError>(
                    config@,
                ),
                Err(error) => configured(vars.deep_view()) == Err::<DbConfigView, ConfigError>(
                    error,
                ),
            },
    {
        let selector = match lookup(vars, "ENV") {
            Some(selector) => selector,
            None => return Err(ConfigError::MissingSelector),
        };
        let profile = match Profile::parse(selector.as_str()) {
            Some(profile) => profile,
            None => return Err(ConfigError::UnknownProfile),
        };
        let db_user = match setting_of(vars, profile, Setting::User) {
            Ok(text) => text,
            Err(error) => return Err(error),
        };
        let db_password = match setting_of(vars, profile, Setting::Password) {
            Ok(text) => text,
            Err(error) => return Err(error),
        };
        let db_host = match setting_of(vars, profile, Setting::Host) {
            Ok(text) => text,
            Err(error) => return Err(error),
        };
        let db_name = match setting_of(vars, profile, Setting::Name) {
            Ok(text) => text,
            Err(error) => return Err(error),
        };
        Ok(DbConfig { db_user, db_password, db_host, db_name })
    }

    /// The URL under which the database of this configuration is reached.
    pub fn connection(&self) -> (url: String)
        ensures
            url@ == connection_url(self@),
    {
        let mut url = "postgres://".to_owned();
        url.append(self.db_user.as_str());
        url.append(":");
        url.append(self.db_password.as_str());
        url.append("@");
        url.append(self.db_host.as_str());
        url.append("/");
        url.append(self.db_name.as_str());
        url.append("?sslmode=require");
        url
    }
}

impl ConfigError {
    /// A sentence for the operator that names what is missing.
    pub fn message(&self) -> (text: String)
        ensures
            text@ == error_text(*self),
    {
        match self {
            ConfigError::MissingSelector => {
                let mut text = "ENV".to_owned();
                text.append(" must be set in the .env file");
                text
            },
            ConfigError::UnknownProfile => {
                let mut text = "ENV".to_owned();
                text.append(" must be local or production");
                text
            },
            ConfigError::MissingSetting(profile, setting) => {
                let mut text = profile.variable(*setting).to_owned();
                text.append(" must be set in the .env file");
                text
            },
        }
    }
}

} // verus!
