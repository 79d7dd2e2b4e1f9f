//! The construction policy of a command-backed reader: how a caller's
//! command text is handed to the operating system.

use vstd::prelude::*;

verus! {

/// The process invocation a reader constructs for a command text: the
/// command is wrapped in a shell call so the caller may use arbitrary shell
/// syntax, and standard output is captured through a pipe.
pub struct ShellInvocation {
    /// The program to run: always the shell.
    pub program: String,
    /// Its arguments: the shell's command flag, then the command text.
    pub args: Vec<String>,
}

impl ShellInvocation {
    /// Wrap a command text in a shell invocation: `sh -c <command>`.
    /// The command text is passed through verbatim, metacharacters and all.
    pub fn new(command: String) -> (r: ShellInvocation)
        ensures
            r.program@ == "sh"@,
            r.args@.len() == 2,
            r.args@[0]@ == "-c"@,
            r.args@[1] == command,
    {
        let program: String = String::from_str("sh");
        let flag: String = String::from_str("-c");
        let mut args: Vec<String> = Vec::new();
        args.push(flag);
        args.push(command);
        ShellInvocation { program, args }
    }
}

} // verus!
