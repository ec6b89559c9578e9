//! How the local server is set up to let callers in.

use crate::text::{
    chars_of, eq_ignore_ascii_case, eq_ignore_ascii_case_str, opt_view, string_of, trim,
    trim_chars,
};
use vstd::prelude::*;

verus! {

#[derive(Clone, Copy, Debug, PartialEq, Eq, Structural)]
pub enum AuthMode {
    Disabled,
    SingleUser,
}

#[derive(Clone, Debug)]
pub struct AuthConfig {
    pub mode: AuthMode,
    pub bootstrap_token: Option<String>,
}

impl Default for AuthConfig {
    fn default() -> (out: Self)
        ensures
            out.mode == AuthMode::Disabled,
            out.bootstrap_token is None,
    {
        AuthConfig { mode: AuthMode::Disabled, bootstrap_token: None }
    }
}

#[derive(Clone, Debug)]
pub struct ServerConfig {
    pub auth: AuthConfig,
}

impl Default for ServerConfig {
    fn default() -> (out: Self)
        ensures
            out.auth.mode == AuthMode::Disabled,
            out.auth.bootstrap_token is None,
    {
        ServerConfig { auth: AuthConfig { mode: AuthMode::Disabled, bootstrap_token: None } }
    }
}

/// The mode that the setting `value` asks for: a single user where it
/// says so, in one of three spellings and without regard to case; no
/// authentication otherwise, and where nothing is set.
pub open spec fn auth_mode_of(value: Option<Seq<char>>) -> AuthMode {
    let mode = match value {
        Some(value) => trim(value),
        None => Seq::empty(),
    };
    if eq_ignore_ascii_case(mode, "single_user"@) || eq_ignore_ascii_case(mode, "single-user"@)
        || eq_ignore_ascii_case(mode, "singleuser"@) {
        AuthMode::SingleUser
    } else {
        AuthMode::Disabled
    }
}

/// The bootstrap token that the setting `value` gives: the value trimmed,
/// or none where it is blank or not set.
pub open spec fn bootstrap_token_of(value: Option<Seq<char>>) -> Option<Seq<char>> {
    match value {
        Some(value) => if trim(value).len() == 0 {
            None
        } else {
            Some(trim(value))
        },
        None => None,
    }
}

impl ServerConfig {
    /// The configuration that the two settings of the environment give,
    /// each as its value if it is set.
    pub fn from_env_values(auth_mode: Option<&str>, bootstrap_token: Option<&str>) -> (out: Self)
        ensures
            out.auth.mode == auth_mode_of(opt_view(auth_mode)),
            match out.auth.bootstrap_token {
                Some(token) => bootstrap_token_of(opt_view(bootstrap_token)) == Some(token@),
                None => bootstrap_token_of(opt_view(bootstrap_token)) is None,
            },
    {
        let mode_chars = match auth_mode {
            Some(value) => chars_of(value),
            None => Vec::new(),
        };
        let mode = if auth_mode.is_some() {
            trim_chars(&mode_chars)
        } else {
            mode_chars
        };
        let single = eq_ignore_ascii_case_str(&mode, "single_user") || eq_ignore_ascii_case_str(
            &mode,
            "single-user",
        ) || eq_ignore_ascii_case_str(&mode, "singleuser");
        let token = match bootstrap_token {
            Some(value) => {
                let chars = chars_of(value);
                let trimmed = trim_chars(&chars);
                if trimmed.len() == 0 {
                    None
                } else {
                    Some(string_of(&trimmed))
                }
            },
            None => None,
        };
        ServerConfig {
            auth: AuthConfig {
                mode: if single {
                    AuthMode::SingleUser
                } else {
                    AuthMode::Disabled
                },
                bootstrap_token: token,
            },
        }
    }
}

} // verus!
