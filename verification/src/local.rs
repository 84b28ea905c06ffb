//! Running a project on the local machine.

use vstd::prelude::*;

verus! {

/// The views of a sequence of strings, in the same order.
pub open spec fn text_views(words: Seq<String>) -> Seq<Seq<char>> {
    words.map_values(|word: String| word@)
}

/// The command line that runs the test harness of a deno project:
/// the program first, then its arguments.
pub open spec fn deno_command_line() -> Seq<Seq<char>> {
    seq!["deno"@, "run"@, "--unstable"@, "-A"@, "test.ts"@]
}

/// Plans a local run of a deno project from inside its directory: the
/// command line to spawn. A shell shows what the program printed.
pub fn run_deno_action() -> (command: Vec<String>)
    ensures
        text_views(command@) == deno_command_line(),
{
    let mut command: Vec<String> = Vec::new();
    command.push("deno".to_owned());
    command.push("run".to_owned());
    command.push("--unstable".to_owned());
    command.push("-A".to_owned());
    command.push("test.ts".to_owned());
    command
}

} // verus!
