//! Forwarding of decoded barectf trace packets to a Modality backend: the
//! per-stream bookkeeping, the mapping of streams onto timelines, the
//! flattening of field values into attributes and the decisions of session
//! establishment.

use vstd::prelude::*;

pub use send::Sender;

pub mod attr;
pub mod convert;
pub mod forward;
pub mod laws;
pub mod rollover;
pub mod send;
pub mod session;
pub mod table;
pub mod text;
pub mod trusted;
pub mod types;

verus! {

/// The version of the plugin, as it is published on every timeline.
pub const PLUGIN_VERSION: &'static str = "0.1.0";

/// The settings that every entry point shares.
#[derive(Debug, Default, PartialEq, Eq)]
pub struct CommonConfig {
    /// The path of the barectf effective-configuration yaml file.
    pub config: Option<String>,
    /// The name of the event that signals the start of the trace. Seeing it
    /// again means that the traced system has restarted.
    pub start_event: Option<String>,
}

/// A configuration that holds the common settings.
pub trait HasCommonConfig {
    /// The common settings.
    spec fn spec_common_config(&self) -> CommonConfig;

    /// The common settings.
    fn common_config(&self) -> (common: &CommonConfig)
        ensures
            *common == self.spec_common_config(),
    ;
}

impl HasCommonConfig for CommonConfig {
    open spec fn spec_common_config(&self) -> CommonConfig {
        *self
    }

    fn common_config(&self) -> (common: &CommonConfig) {
        self
    }
}

/// Why the substitution of environment variables failed.
#[derive(Debug, PartialEq, Eq)]
pub enum EnvSubError {
    /// The value of the named variable is not valid Unicode.
    EnvVarNotUnicode(String),
    /// The named variable is not set and the text gives no default for it.
    EnvVarNotPresent(String),
}

impl CommonConfig {
    /// The path of the configuration file after the substitution of
    /// environment variables: no path where none is configured, else the
    /// substituted path or the error of the substitution.
    pub fn envsub_config_path(&self) -> (r: Result<Option<String>, EnvSubError>)
        ensures
            self.config is None ==> r == Ok::<Option<String>, EnvSubError>(None),
            self.config is Some ==> (r matches Ok(path) ==> path is Some),
    {
        match &self.config {
            Some(path) => Self::substituted_path(trusted::envsub(path.as_str())),
            None => Ok(None),
        }
    }

    /// What [`CommonConfig::envsub_config_path`] makes of the outcome of the
    /// substitution: the substituted text is the path, an error stays the
    /// error.
    pub fn substituted_path(substituted: Result<String, EnvSubError>) -> (r: Result<
        Option<String>,
        EnvSubError,
    >)
        ensures
            r == match substituted {
                Ok(path) => Ok::<Option<String>, EnvSubError>(Some(path)),
                Err(e) => Err(e),
            },
    {
        match substituted {
            Ok(path) => Ok(Some(path)),
            Err(e) => Err(e),
        }
    }
}

} // verus!
