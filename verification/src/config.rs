//! The settings the agent runs on, and the rules they must meet.

use crate::text::{lowercase, starts_with, str_eq, text_of, to_lowercase};
use vstd::prelude::*;
use vstd::string::StringExecFns;

verus! {

/// What is done to the guarded program when the license is refused.
#[derive(Debug, Clone, Copy, PartialEq, Eq, Structural)]
pub enum KillMethod {
    /// Stop the process.
    Stop,
    /// Stop the process and remove its file.
    Delete,
    /// Stop the process, overwrite its file in three passes, and remove it.
    Shred,
}

impl KillMethod {
    /// The method that a lowercase name stands for.
    pub open spec fn named(name: Seq<char>) -> Option<KillMethod> {
        if name == "stop"@ {
            Some(KillMethod::Stop)
        } else if name == "delete"@ {
            Some(KillMethod::Delete)
        } else if name == "shred"@ {
            Some(KillMethod::Shred)
        } else {
            None
        }
    }

    /// Reads a method from its name in lowercase: `stop`, `delete` or
    /// `shred`. No other text names a method.
    pub fn from_lowercase(name: &str) -> (method: Option<KillMethod>)
        ensures
            method == KillMethod::named(name@),
    {
        if str_eq(name, "stop") {
            Some(KillMethod::Stop)
        } else if str_eq(name, "delete") {
            Some(KillMethod::Delete)
        } else if str_eq(name, "shred") {
            Some(KillMethod::Shred)
        } else {
            None
        }
    }

    /// Reads a method from its name, whatever the case of its letters.
    pub fn from_str(s: &str) -> (method: Option<KillMethod>)
        ensures
            method == KillMethod::named(lowercase(s@)),
    {
        let lower = to_lowercase(s);
        KillMethod::from_lowercase(lower.as_str())
    }
}

/// The settings of one agent.
#[derive(Debug, Clone)]
pub struct Config {
    /// License identifier.
    pub license_id: String,
    /// Address of the verification server.
    pub server_url: String,
    /// Secret shared with the server, the key of request signatures.
    pub shared_secret: String,
    /// Milliseconds between two checks; 0 asks for one check only.
    pub check_interval_ms: u64,
    /// Whether the agent removes itself when the license is refused.
    pub self_destruct: bool,
    /// What is done to the guarded program when the license is refused.
    pub kill_method: KillMethod,
    /// How much is logged: `debug`, `info`, `error` or `none`.
    pub log_level: String,
    /// Where the guarded program lies, where the agent starts it itself.
    pub base_binary_path: Option<String>,
}

/// The value of `self_destruct` where the settings do not give one.
pub fn default_true() -> (enabled: bool)
    ensures
        enabled,
{
    true
}

/// The value of `kill_method` where the settings do not give one.
pub fn default_kill_method() -> (method: KillMethod)
    ensures
        method == KillMethod::Shred,
{
    KillMethod::Shred
}

/// The value of `log_level` where the settings do not give one.
pub fn default_log_level() -> (level: String)
    ensures
        level@ == "info"@,
{
    "info".to_owned()
}

/// Where the settings of the program at `exe` are kept: in the file of its
/// name with `.config` after it.
pub fn config_path(exe: &str) -> (path: String)
    ensures
        path@ == exe@ + ".config"@,
{
    exe.to_owned().concat(".config")
}

/// The server address in force: the one put in at build time where there is
/// one and it is not empty, else the configured one.
pub open spec fn effective_url(injected: Option<Seq<char>>, configured: Seq<char>) -> Seq<char> {
    match injected {
        Some(url) => if url.len() > 0 {
            url
        } else {
            configured
        },
        None => configured,
    }
}

/// Why settings are refused, or `None` where they are accepted. The first
/// rule broken decides.
pub open spec fn defect(license_id: Seq<char>, url: Seq<char>, secret: Seq<char>) -> Option<
    Seq<char>,
> {
    if license_id.len() == 0 {
        Some("license_id cannot be empty"@)
    } else if url.len() == 0 {
        Some("server_url cannot be empty"@)
    } else if secret.len() == 0 {
        Some("shared_secret cannot be empty"@)
    } else if !"http://"@.is_prefix_of(url) && !"https://"@.is_prefix_of(url) {
        Some("server_url must start with http:// or https://"@)
    } else {
        None
    }
}

impl Config {
    /// The server address in force. `injected` is the address put in at
    /// build time, if any: it goes before the configured one.
    pub fn get_server_url(&self, injected: Option<&str>) -> (url: String)
        ensures
            url@ == effective_url(text_of(injected), self.server_url@),
    {
        if let Some(build_url) = injected {
            if !build_url.is_empty() {
                return build_url.to_owned();
            }
        }
        self.server_url.clone()
    }

    /// Checks the settings: the license identifier, the server address in
    /// force and the shared secret are not empty, and the address is an
    /// http or https one. The error says which rule was broken first.
    pub fn validate(&self, injected: Option<&str>) -> (checked: Result<(), String>)
        ensures
            match defect(
                self.license_id@,
                effective_url(text_of(injected), self.server_url@),
                self.shared_secret@,
            ) {
                Some(message) => checked is Err && checked->Err_0@ == message,
                None => checked is Ok,
            },
    {
        if self.license_id.as_str().is_empty() {
            return Err("license_id cannot be empty".to_owned());
        }
        let effective_url = self.get_server_url(injected);
        if effective_url.as_str().is_empty() {
            return Err("server_url cannot be empty".to_owned());
        }
        if self.shared_secret.as_str().is_empty() {
            return Err("shared_secret cannot be empty".to_owned());
        }
        if !starts_with(effective_url.as_str(), "http://") && !starts_with(
            effective_url.as_str(),
            "https://",
        ) {
            return Err("server_url must start with http:// or https://".to_owned());
        }
        Ok(())
    }
}

} // verus!
