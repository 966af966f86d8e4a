//! The configuration: the account, and the rules that a configuration file
//! must meet before it is used.

use crate::aur::Account;
use crate::helper::is_file_secure;
use crate::text::concat;
use vstd::prelude::*;

verus! {

/// What the configuration file holds.
#[derive(Default, PartialEq, Eq, Debug, Clone)]
pub struct Configuration {
    pub account: Account,
}

/// Why a configuration is refused.
#[derive(PartialEq, Eq, Debug, Clone, Copy)]
pub enum ConfigError {
    /// Others than the owner may read or write the file, or the owner may
    /// not.
    NotSecure,
    /// The user name is empty.
    UserRequired,
    /// The password is empty.
    PasswordRequired,
    /// The path of the cookie file is empty.
    CookieFileRequired,
}

/// The message of an error on the configuration file at `path`.
pub open spec fn config_error_text(e: ConfigError, path: Seq<char>) -> Seq<char> {
    match e {
        ConfigError::NotSecure => "`"@ + path + "` file is not secure."@,
        ConfigError::UserRequired => "User name is required."@,
        ConfigError::PasswordRequired => "Password is required."@,
        ConfigError::CookieFileRequired => "Cookie file path is required."@,
    }
}

impl ConfigError {
    /// The message of the error, for the configuration file at `path`.
    pub fn message(&self, path: &str) -> (r: String)
        ensures
            r@ == config_error_text(*self, path@),
    {
        match self {
            ConfigError::NotSecure => {
                let head = concat("`", path);
                concat(head.as_str(), "` file is not secure.")
            },
            ConfigError::UserRequired => "User name is required.".to_owned(),
            ConfigError::PasswordRequired => "Password is required.".to_owned(),
            ConfigError::CookieFileRequired => "Cookie file path is required.".to_owned(),
        }
    }
}

/// What verifying a configuration gives: the first of the rules that it
/// breaks, in the order security, user, password, cookie file.
pub open spec fn verified(mode: u32, config: Configuration) -> Result<(), ConfigError> {
    if mode & 0o666 != 0o600 {
        Err(ConfigError::NotSecure)
    } else if config.account.user@.len() == 0 {
        Err(ConfigError::UserRequired)
    } else if config.account.pass@.len() == 0 {
        Err(ConfigError::PasswordRequired)
    } else if config.account.cookie_file@.len() == 0 {
        Err(ConfigError::CookieFileRequired)
    } else {
        Ok(())
    }
}

impl Configuration {
    /// Hands the configuration of a file back where the file is secure,
    /// by its permission bits `mode`, and the configuration names a user,
    /// a password and a cookie file.
    pub fn load_and_verify_config(mode: u32, config: Configuration) -> (r: Result<
        Configuration,
        ConfigError,
    >)
        ensures
            match r {
                Ok(checked) => verified(mode, config) is Ok && checked == config,
                Err(e) => verified(mode, config) == Err::<(), ConfigError>(e),
            },
    {
        if !is_file_secure(mode) {
            return Err(ConfigError::NotSecure);
        }
        if config.account.user.as_str().unicode_len() == 0 {
            return Err(ConfigError::UserRequired);
        }
        if config.account.pass.as_str().unicode_len() == 0 {
            return Err(ConfigError::PasswordRequired);
        }
        if config.account.cookie_file.as_str().unicode_len() == 0 {
            return Err(ConfigError::CookieFileRequired);
        }
        Ok(config)
    }
}

} // verus!
