//! Resolution and execution of external commands.

use vstd::prelude::*;

verus! {

/// Resolves logical command names to executable paths and runs them.
///
/// The service has this trait implemented outside the library: the real
/// implementation launches a process, which the library does not model.
/// `execute` therefore promises nothing of its result; callers state what
/// holds for every outcome.
pub trait Execution: Sized {
    /// The known commands: logical name to executable path.
    spec fn commands(&self) -> Map<Seq<char>, Seq<char>>;

    /// Looks up the executable path for `name`.
    fn get_command(&self, name: &str) -> (r: Result<String, String>)
        ensures
            match r {
                Ok(p) => self.commands().contains_key(name@) && p@ == self.commands()[name@],
                Err(_) => !self.commands().contains_key(name@),
            },
    ;

    /// Runs the executable at `cmd_path` with `cmd_args`, returning its
    /// captured output or an error message.
    fn execute(&self, cmd_path: String, cmd_args: Vec<String>) -> Result<String, String>;
}

/// The logical name under which the job-running binary is registered.
pub fn factotum_command_name() -> (r: &'static str)
    ensures
        r@ == "factotum"@,
{
    "factotum"
}

} // verus!
