use vstd::prelude::*;
use vstd::string::StringExecFns;

verus! {

/// The process invocation that launches the language server under a
/// system Java runtime.
#[derive(Debug, Clone, PartialEq, Eq)]
pub struct LaunchCommand {
    /// The executable: the `java` runtime found on the search path.
    pub command: String,
    /// Its arguments: `-jar` followed by the artifact's absolute path.
    pub args: Vec<String>,
    /// Extra environment entries; none are needed.
    pub env: Vec<(String, String)>,
}

/// The launch descriptor `java -jar <artifact>` for a resolved artifact.
pub fn launch_command(java_path: String, jar_path: String) -> (c: LaunchCommand)
    ensures
        c.command@ == java_path@,
        c.args@.len() == 2,
        c.args@[0]@ == "-jar"@,
        c.args@[1]@ == jar_path@,
        c.env@.len() == 0,
{
    let mut args: Vec<String> = Vec::new();
    args.push(String::from_str("-jar"));
    args.push(jar_path);
    LaunchCommand { command: java_path, args, env: Vec::new() }
}

} // verus!
