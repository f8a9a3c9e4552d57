//! Configuration of the supervisor: which rollout authority to ask, and as whom.

use crate::text::same_text;
use vstd::prelude::*;
use vstd::string::*;

verus! {

pub const DEFAULT_CVM_SERVER_URL: &'static str = "http://127.0.0.1:3000";

pub const DEFAULT_CLIENT_ID: &'static str = "f944fc73-e1ca-442a-88bb-642d42a38a6c";

pub const DEFAULT_APP_ID: &'static str = "50b473ee-35b3-4252-8998-6be4d4130d3a";

pub const DEFAULT_ARCHITECTURE: &'static str = "x86_64-unknown-linux-gnu";

/// The version a client reports before it has run any build.
pub const VERSION_ZERO: &'static str = "0.0.0";

/// Why no configuration can be made for this machine.
#[derive(Debug, Clone, Copy, PartialEq, Eq, Structural)]
pub enum ConfigError {
    OSNotSupported,
    ArchitectureNotSupported,
}

impl ConfigError {
    /// The text shown to the operator; `os` and `arch` name the machine that was refused.
    pub fn message(&self, os: &str, arch: &str) -> (r: String)
        ensures
            r@ == match *self {
                ConfigError::OSNotSupported => "OS is not supported for "@ + os@,
                ConfigError::ArchitectureNotSupported => "Architecture is not supported for "@
                    + arch@,
            },
    {
        match self {
            ConfigError::OSNotSupported => {
                let mut r = String::from_str("OS is not supported for ");
                r.append(os);
                r
            },
            ConfigError::ArchitectureNotSupported => {
                let mut r = String::from_str("Architecture is not supported for ");
                r.append(arch);
                r
            },
        }
    }
}

/// What a supervisor needs to know before it starts.
#[derive(Debug)]
pub struct Config {
    pub cvm_server_url: String,
    pub client_id: String,
    pub app_id: String,
    pub architecture: String,
}

/// The architecture tag of a machine with operating system `os` and processor `arch`:
/// only 64-bit x86 under Linux or Windows has one.
pub open spec fn architecture_of(os: Seq<char>, arch: Seq<char>) -> Result<
    Seq<char>,
    ConfigError,
> {
    if arch != "x86_64"@ {
        Err(ConfigError::ArchitectureNotSupported)
    } else if os == "linux"@ {
        Ok("x86_64-unknown-linux-gnu"@)
    } else if os == "windows"@ {
        Ok("x86_64-pc-windows-gnu"@)
    } else {
        Err(ConfigError::OSNotSupported)
    }
}

/// A setting as it was found, or its default where it was not set.
pub open spec fn setting_or(value: Option<String>, default: Seq<char>) -> Seq<char> {
    match value {
        Some(v) => v@,
        None => default,
    }
}

impl Config {
    /// The configuration for a machine (`os`, `arch`), from the three settings as they
    /// were found in the environment; one that was not set takes its default.
    pub fn new(
        cvm_server_url: Option<String>,
        client_id: Option<String>,
        app_id: Option<String>,
        os: &str,
        arch: &str,
    ) -> (r: Result<Config, ConfigError>)
        ensures
            match r {
                Ok(config) => {
                    &&& architecture_of(os@, arch@) == Ok::<Seq<char>, ConfigError>(
                        config.architecture@,
                    )
                    &&& config.cvm_server_url@ == setting_or(
                        cvm_server_url,
                        DEFAULT_CVM_SERVER_URL@,
                    )
                    &&& config.client_id@ == setting_or(client_id, DEFAULT_CLIENT_ID@)
                    &&& config.app_id@ == setting_or(app_id, DEFAULT_APP_ID@)
                },
                Err(e) => architecture_of(os@, arch@) == Err::<Seq<char>, ConfigError>(e),
            },
    {
        let cvm_server_url = get_env_var_or(cvm_server_url, DEFAULT_CVM_SERVER_URL);
        let client_id = get_env_var_or(client_id, DEFAULT_CLIENT_ID);
        let app_id = get_env_var_or(app_id, DEFAULT_APP_ID);
        match get_architecture(os, arch) {
            Ok(architecture) => Ok(Config { cvm_server_url, client_id, app_id, architecture }),
            Err(e) => Err(e),
        }
    }
}

/// `value` where the setting was found, `default` where it was not.
pub fn get_env_var_or(value: Option<String>, default: &str) -> (r: String)
    ensures
        r@ == setting_or(value, default@),
{
    match value {
        Some(v) => v,
        None => String::from_str(default),
    }
}

/// The architecture tag that this machine asks builds for.
pub fn get_architecture(os: &str, arch: &str) -> (r: Result<String, ConfigError>)
    ensures
        match r {
            Ok(tag) => architecture_of(os@, arch@) == Ok::<Seq<char>, ConfigError>(tag@),
            Err(e) => architecture_of(os@, arch@) == Err::<Seq<char>, ConfigError>(e),
        },
{
    if !same_text(arch, "x86_64") {
        Err(ConfigError::ArchitectureNotSupported)
    } else if same_text(os, "linux") {
        Ok(String::from_str("x86_64-unknown-linux-gnu"))
    } else if same_text(os, "windows") {
        Ok(String::from_str("x86_64-pc-windows-gnu"))
    } else {
        Err(ConfigError::OSNotSupported)
    }
}

} // verus!
