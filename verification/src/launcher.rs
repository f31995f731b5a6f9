//! Planning the launch of the companion process.
//!
//! The companion server is started by handing its entry file to an external
//! interpreter found on the environment's executable search path. The
//! supervisor's share of that work is pure: it fixes which interpreter to
//! invoke and renders the resolved entry path into the single argument the
//! interpreter receives. The shell spawns the process from the resulting
//! command and reports the outcome back as an optional handle.

use vstd::prelude::*;
use crate::resolver::ServerEntryPath;
use crate::resolver::joined;

verus! {

/// Name of the interpreter that runs the companion server's entry file.
pub open spec fn interpreter_name() -> Seq<char> {
    "node"@
}

/// Everything the shell needs in order to start the companion process: the
/// program to invoke, found by name on the executable search path, and the
/// entry-point path, passed as the sole argument.
pub struct LaunchCommand {
    pub program: String,
    pub entry_arg: String,
}

/// The supervisor's stand-in for a handle to a running operating-system
/// process, identified by its process id. The value moves and is never
/// copied, so at most one owner can signal termination through it.
pub struct ProcessHandle {
    pub pid: u32,
}

/// Builds the command that starts the companion process from a resolved
/// entry path: the fixed interpreter, and the path rendered as an absolute
/// string for its argument.
pub fn launch_command(entry: &ServerEntryPath) -> (cmd: LaunchCommand)
    ensures
        cmd.program@ == interpreter_name(),
        cmd.entry_arg@ == joined(entry@),
{
    LaunchCommand { program: "node".to_owned(), entry_arg: entry.to_path_string() }
}

} // verus!
