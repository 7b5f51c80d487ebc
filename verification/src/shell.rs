//! The argument list for the shell-initialization handoff to the downloaded
//! binary.

use vstd::prelude::*;
use vstd::string::StringExecFns;

use crate::config::MicromambaConfig;

verus! {

/// Why the shell-initialization arguments could not be built. Asking for
/// them without a shell identifier breaks the configuration's contract and
/// is fatal; nothing may be spawned then.
#[derive(Clone, Copy, Debug, PartialEq, Eq, Structural)]
pub enum ShellInitError {
    MissingShell,
}

/// Build the argument list the downloaded binary is invoked with to
/// initialize a shell: `shell init --prefix <root_prefix> --shell <shell>`.
/// A configuration without a shell identifier yields `MissingShell`, and no
/// argument list exists to spawn with.
pub fn shell_init_args(config: &MicromambaConfig) -> (r: Result<Vec<String>, ShellInitError>)
    ensures
        config.shell is None ==> r == Err::<Vec<String>, ShellInitError>(
            ShellInitError::MissingShell,
        ),
        config.shell matches Some(sh) ==> (r matches Ok(args)
            && args@.len() == 6
            && args@[0]@ == "shell"@
            && args@[1]@ == "init"@
            && args@[2]@ == "--prefix"@
            && args@[3]@ == config.root_prefix@
            && args@[4]@ == "--shell"@
            && args@[5]@ == sh@),
{
    let shell: &String = match &config.shell {
        Some(s) => s,
        None => {
            return Err(ShellInitError::MissingShell);
        },
    };
    let mut args: Vec<String> = Vec::new();
    args.push(String::from_str("shell"));
    args.push(String::from_str("init"));
    args.push(String::from_str("--prefix"));
    args.push(config.root_prefix.clone());
    args.push(String::from_str("--shell"));
    args.push(shell.clone());
    Ok(args)
}

} // verus!
