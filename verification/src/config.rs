//! The configuration of one invocation and how it is resolved.

use vstd::prelude::*;

verus! {

/// Where to send the notification, and which command to run.
#[derive(Debug)]
pub struct NtfyConfig {
    /// The endpoint that receives the notification, topic included.
    pub url: String,
    /// The bearer token, where the endpoint asks for one.
    pub token: Option<String>,
    /// The executable, then its arguments.
    pub cmd_args: Vec<String>,
}

/// A configuration as plain values.
pub struct ConfigView {
    pub url: Seq<char>,
    pub token: Option<Seq<char>>,
    pub cmd_args: Seq<Seq<char>>,
}

impl ConfigView {
    /// A command line names at least the executable.
    pub open spec fn wf(self) -> bool {
        self.cmd_args.len() >= 1
    }

    /// The executable.
    pub open spec fn program(self) -> Seq<char>
        recommends
            self.wf(),
    {
        self.cmd_args[0]
    }
}

impl View for NtfyConfig {
    type V = ConfigView;

    open spec fn view(&self) -> ConfigView {
        ConfigView {
            url: self.url@,
            token: self.token.deep_view(),
            cmd_args: self.cmd_args.deep_view(),
        }
    }
}

impl NtfyConfig {
    /// A command line names at least the executable.
    pub open spec fn wf(&self) -> bool {
        self@.wf()
    }

    /// The executable.
    pub fn program(&self) -> (name: &str)
        requires
            self.wf(),
        ensures
            name@ == self@.program(),
    {
        self.cmd_args[0].as_str()
    }
}

/// Why no configuration could be made.
#[derive(Clone, Copy, Debug, PartialEq, Eq, Structural)]
pub enum ConfigError {
    /// The command line names no executable.
    MissingCommand,
    /// Neither the flag nor the environment gives the endpoint.
    MissingUrl,
}

impl ConfigError {
    /// The text shown to the user.
    pub open spec fn text(self) -> Seq<char> {
        match self {
            ConfigError::MissingCommand => "no command provided"@,
            ConfigError::MissingUrl =>
                "no url provided (either via environment variable or argument)"@,
        }
    }

    /// The text shown to the user.
    pub fn message(&self) -> (s: String)
        ensures
            s@ == self.text(),
    {
        match self {
            ConfigError::MissingCommand => String::from_str("no command provided"),
            ConfigError::MissingUrl => String::from_str(
                "no url provided (either via environment variable or argument)",
            ),
        }
    }
}

/// The first of two sources that gives a value: the flag before the
/// environment.
pub open spec fn preferred(flag: Option<Seq<char>>, env: Option<Seq<char>>) -> Option<Seq<char>> {
    match flag {
        Some(v) => Some(v),
        None => env,
    }
}

/// What [`resolve`] returns, over plain values.
pub open spec fn resolved(
    url_flag: Option<Seq<char>>,
    url_env: Option<Seq<char>>,
    token_flag: Option<Seq<char>>,
    token_env: Option<Seq<char>>,
    cmd_args: Seq<Seq<char>>,
) -> Result<ConfigView, ConfigError> {
    if cmd_args.len() == 0 {
        Err(ConfigError::MissingCommand)
    } else {
        match preferred(url_flag, url_env) {
            None => Err(ConfigError::MissingUrl),
            Some(url) => Ok(
                ConfigView { url, token: preferred(token_flag, token_env), cmd_args },
            ),
        }
    }
}

/// Picks the flag where it is given, else the environment's value.
fn prefer(flag: Option<String>, env: Option<String>) -> (r: Option<String>)
    ensures
        r.deep_view() == preferred(flag.deep_view(), env.deep_view()),
{
    match flag {
        Some(v) => Some(v),
        None => env,
    }
}

/// Makes the configuration from what the command line and the environment
/// hold. The endpoint is taken from the flag, else from the environment, and
/// must be in one of them; the token likewise, but may be absent; the command
/// line must name an executable.
pub fn resolve(
    url_flag: Option<String>,
    url_env: Option<String>,
    token_flag: Option<String>,
    token_env: Option<String>,
    cmd_args: Vec<String>,
) -> (res: Result<NtfyConfig, ConfigError>)
    ensures
        match res {
            Ok(c) => resolved(
                url_flag.deep_view(),
                url_env.deep_view(),
                token_flag.deep_view(),
                token_env.deep_view(),
                cmd_args.deep_view(),
            ) == Ok::<ConfigView, ConfigError>(c@) && c.wf(),
            Err(e) => resolved(
                url_flag.deep_view(),
                url_env.deep_view(),
                token_flag.deep_view(),
                token_env.deep_view(),
                cmd_args.deep_view(),
            ) == Err::<ConfigView, ConfigError>(e),
        },
{
    if cmd_args.len() == 0 {
        return Err(ConfigError::MissingCommand);
    }
    match prefer(url_flag, url_env) {
        None => Err(ConfigError::MissingUrl),
        Some(url) => {
            let token = prefer(token_flag, token_env);
            Ok(NtfyConfig { url, token, cmd_args })
        },
    }
}

} // verus!
