//! The installation configuration and the defaulting rules that build it
//! from the answers a configuration source yields.
//!
//! The answers themselves come from outside the library (a prompt, a file,
//! flags); the functions here state exactly which string yields which value,
//! and `new` assembles the whole configuration so that a shell identifier is
//! present if and only if shell initialization was requested.

use vstd::prelude::*;
use vstd::string::StringExecFns;

use crate::platform::OperatingSystem;
use crate::text::str_eq;

verus! {

/// A malformed configuration answer; fatal, carrying the answer itself.
#[derive(Debug, PartialEq, Eq)]
pub enum ConfigError {
    InvalidAnswer(String),
}

/// The parameters of one installation run, built once and read-only after.
#[derive(Debug, PartialEq, Eq)]
pub struct MicromambaConfig {
    /// Destination path of the downloaded binary.
    pub exe_path: String,
    /// Whether shell initialization runs after the download.
    pub init_shell: bool,
    /// Install root handed to the binary's shell-initialization subcommand.
    pub root_prefix: String,
    /// The shell to initialize; present if and only if `init_shell`.
    pub shell: Option<String>,
}

/// The root prefix a raw answer yields: the answer itself, or the default
/// when the answer is empty.
pub open spec fn root_prefix_of(answer: Seq<char>) -> Seq<char> {
    if answer.len() == 0 {
        "~/micromamba/"@
    } else {
        answer
    }
}

/// Whether a raw answer asks for shell initialization: empty and the yes
/// forms mean yes, the no forms mean no, anything else is malformed.
pub open spec fn init_shell_of(answer: Seq<char>) -> Option<bool> {
    if answer.len() == 0 || answer == "y"@ || answer == "Y"@ || answer == "yes"@ {
        Some(true)
    } else if answer == "n"@ || answer == "N"@ || answer == "no"@ {
        Some(false)
    } else {
        None
    }
}

/// The binary path a raw answer yields for the given operating system: the
/// answer itself, or the per-system default when the answer is empty.
pub open spec fn bin_path_of(os: OperatingSystem, answer: Seq<char>) -> Seq<char> {
    if answer.len() == 0 {
        match os {
            OperatingSystem::Windows => "~/micromamba/micromamba.exe"@,
            OperatingSystem::Macos => "~/.local/bin/micromamba"@,
            OperatingSystem::Linux => "~/.local/bin/micromamba"@,
        }
    } else {
        answer
    }
}

impl MicromambaConfig {
    /// A configuration is well formed when a shell identifier is present
    /// exactly where shell initialization was requested, and both paths are
    /// non-empty.
    pub open spec fn wf(&self) -> bool {
        &&& (self.init_shell <==> self.shell is Some)
        &&& self.root_prefix@.len() > 0
        &&& self.exe_path@.len() > 0
    }

    /// The install root a raw answer chooses: empty keeps the default
    /// `~/micromamba/`.
    pub fn get_root_prefix(answer: &str) -> (r: String)
        ensures
            r@ == root_prefix_of(answer@),
    {
        if answer.is_empty() {
            String::from_str("~/micromamba/")
        } else {
            answer.to_owned()
        }
    }

    /// Whether a raw answer asks for shell initialization: empty defaults to
    /// yes; `y`, `Y`, `yes` mean yes; `n`, `N`, `no` mean no; any other
    /// answer is a fatal `InvalidAnswer`.
    pub fn init_shell(answer: &str) -> (r: Result<bool, ConfigError>)
        ensures
            init_shell_of(answer@) matches Some(b) ==> r == Ok::<bool, ConfigError>(b),
            init_shell_of(answer@) is None ==> (r matches Err(ConfigError::InvalidAnswer(a))
                && a@ == answer@),
    {
        if answer.is_empty() || str_eq(answer, "y") || str_eq(answer, "Y") || str_eq(
            answer,
            "yes",
        ) {
            Ok(true)
        } else if str_eq(answer, "n") || str_eq(answer, "N") || str_eq(answer, "no") {
            Ok(false)
        } else {
            Err(ConfigError::InvalidAnswer(answer.to_owned()))
        }
    }

    /// The destination path a raw answer chooses for the binary: empty keeps
    /// the default for the operating system.
    pub fn get_bin_path(os: &OperatingSystem, answer: &str) -> (r: String)
        ensures
            r@ == bin_path_of(*os, answer@),
    {
        if answer.is_empty() {
            match os {
                OperatingSystem::Windows => String::from_str("~/micromamba/micromamba.exe"),
                OperatingSystem::Macos => String::from_str("~/.local/bin/micromamba"),
                OperatingSystem::Linux => String::from_str("~/.local/bin/micromamba"),
            }
        } else {
            answer.to_owned()
        }
    }

    /// Assemble a configuration from the four raw answers a configuration
    /// source yields, applying every defaulting rule. The shell answer is
    /// kept only where shell initialization was requested, so the result is
    /// always well formed; a malformed initialization answer is the one
    /// fatal error.
    pub fn new(
        os: &OperatingSystem,
        root_prefix_answer: &str,
        init_shell_answer: &str,
        shell_answer: &str,
        bin_path_answer: &str,
    ) -> (r: Result<MicromambaConfig, ConfigError>)
        ensures
            init_shell_of(init_shell_answer@) is None ==> (r matches Err(
                ConfigError::InvalidAnswer(a),
            ) && a@ == init_shell_answer@),
            init_shell_of(init_shell_answer@) matches Some(b) ==> (r matches Ok(c)
                && c.root_prefix@ == root_prefix_of(root_prefix_answer@)
                && c.init_shell == b
                && c.exe_path@ == bin_path_of(*os, bin_path_answer@)
                && (b ==> (c.shell matches Some(s) && s@ == shell_answer@))
                && (!b ==> c.shell is None)
                && c.wf()),
    {
        let root_prefix = Self::get_root_prefix(root_prefix_answer);
        let init_shell = match Self::init_shell(init_shell_answer) {
            Ok(b) => b,
            Err(e) => {
                return Err(e);
            },
        };
        let shell: Option<String> = if init_shell {
            Some(shell_answer.to_owned())
        } else {
            None
        };
        let exe_path = Self::get_bin_path(os, bin_path_answer);
        proof {
            reveal_strlit("~/micromamba/");
            reveal_strlit("~/micromamba/micromamba.exe");
            reveal_strlit("~/.local/bin/micromamba");
            assert("~/micromamba/"@.len() > 0);
            assert("~/micromamba/micromamba.exe"@.len() > 0);
            assert("~/.local/bin/micromamba"@.len() > 0);
        }
        Ok(MicromambaConfig { exe_path, init_shell, root_prefix, shell })
    }
}

} // verus!
