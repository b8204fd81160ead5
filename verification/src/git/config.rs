//! `git config`: the commands to run, and what to make of their output.

use vstd::prelude::*;
use vstd::string::*;
use crate::git::CommandModel;
use crate::git::Git;
use crate::git::GitCommand;
use crate::text::list4;
use crate::text::spec_split_once;
use crate::text::split_once;
use crate::text::str_eq;

verus! {

/// What went wrong with `git config --get`.
#[derive(Debug, Clone, Copy, PartialEq, Eq, Structural)]
pub enum ConfigError {
    /// The command failed with a status other than 1.
    Failed,
    /// The output of the command holds no NUL.
    NoNull,
    /// `core.bare` is neither `true` nor `false`.
    UnexpectedValue,
}

impl ConfigError {
    /// The message of the error.
    pub fn to_string(&self) -> (text: String)
        ensures
            text@ == match self {
                ConfigError::Failed => "`git config` failed"@,
                ConfigError::NoNull => "Output didn't contain any null bytes"@,
                ConfigError::UnexpectedValue => "Unexpected Git config value for `core.bare`"@,
            },
    {
        match self {
            ConfigError::Failed => String::from_str("`git config` failed"),
            ConfigError::NoNull => String::from_str("Output didn't contain any null bytes"),
            ConfigError::UnexpectedValue => String::from_str(
                "Unexpected Git config value for `core.bare`",
            ),
        }
    }
}

/// Git methods for dealing with config.
#[derive(Debug)]
pub struct GitConfig<'a> {
    git: &'a Git,
}

/// What `git config --get --null` says: the value up to the first NUL where the
/// command succeeded; no value where it ended with status 1, which stands for a
/// setting that is not set; an error otherwise.
pub open spec fn spec_config_value(success: bool, code: Option<i32>, stdout: Seq<char>) -> Result<
    Option<Seq<char>>,
    ConfigError,
> {
    if success {
        match spec_split_once(stdout, '\0') {
            Some((value, _)) => Ok(Some(value)),
            None => Err(ConfigError::NoNull),
        }
    } else if code == Some(1i32) {
        Ok(None)
    } else {
        Err(ConfigError::Failed)
    }
}

/// Whether the repository is bare, by the value of `core.bare`; not bare where the
/// setting is not set.
pub open spec fn spec_is_bare(value: Option<Seq<char>>) -> Result<bool, ConfigError> {
    match value {
        None => Ok(false),
        Some(text) => if text == "true"@ {
            Ok(true)
        } else if text == "false"@ {
            Ok(false)
        } else {
            Err(ConfigError::UnexpectedValue)
        },
    }
}

impl<'a> GitConfig<'a> {
    /// The `git` that the commands are made of.
    pub closed spec fn command(&self) -> CommandModel {
        self.git@
    }

    /// The config methods of `git`.
    pub fn new(git: &'a Git) -> (config: Self)
        ensures
            config.command() == git@,
    {
        GitConfig { git }
    }

    /// The command that gets a config setting by name, for [`Self::get_and`].
    pub fn get(&self, key: &str) -> (command: GitCommand)
        ensures
            command@ == self.command().with_args(seq!["config"@, "--get"@, "--null"@, key@]),
    {
        self.git.command_with(&list4("config", "--get", "--null", key))
    }

    /// The value that the command of [`Self::get`] reported; see [`spec_config_value`].
    /// `code` is the exit status, if the command ended with one.
    pub fn get_and(success: bool, code: Option<i32>, stdout: &str) -> (value: Result<
        Option<String>,
        ConfigError,
    >)
        ensures
            match value {
                Ok(Some(text)) => spec_config_value(success, code, stdout@) == Ok::<_, ConfigError>(
                    Some(text@),
                ),
                Ok(None) => spec_config_value(success, code, stdout@) == Ok::<_, ConfigError>(
                    None::<Seq<char>>,
                ),
                Err(error) => spec_config_value(success, code, stdout@) == Err::<
                    Option<Seq<char>>,
                    _,
                >(error),
            },
    {
        if success {
            match split_once(stdout, '\0') {
                Some((value, _rest)) => Ok(Some(value)),
                None => Err(ConfigError::NoNull),
            }
        } else {
            match code {
                Some(1i32) => Ok(None),
                _ => Err(ConfigError::Failed),
            }
        }
    }

    /// Check if this repository is bare, by the value of `core.bare`.
    pub fn is_bare(value: Option<&str>) -> (bare: Result<bool, ConfigError>)
        ensures
            bare == spec_is_bare(
                match value {
                    Some(text) => Some(text@),
                    None => None,
                },
            ),
    {
        match value {
            None => Ok(false),
            Some(text) => {
                if str_eq(text, "true") {
                    Ok(true)
                } else if str_eq(text, "false") {
                    Ok(false)
                } else {
                    Err(ConfigError::UnexpectedValue)
                }
            },
        }
    }

    /// The command that sets a local config setting.
    pub fn set(&self, key: &str, value: &str) -> (command: GitCommand)
        ensures
            command@ == self.command().with_args(seq!["config"@, "set"@, key@, value@]),
    {
        self.git.command_with(&list4("config", "set", key, value))
    }
}

} // verus!
