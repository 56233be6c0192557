//! Planning an invocation of the tool against a resource identifier,
//! and reducing the finished child process's outcome to the result the
//! host displays. The host spawns the planned command, blocks until it
//! terminates, and hands the exit status and captured standard error
//! back to `reduce_outcome`.

use crate::error::ToolError;
use vstd::prelude::*;

verus! {

/// The command line one invocation runs: the located binary and the
/// fixed argument template around the resource identifier.
#[derive(Debug)]
pub struct InvokeCommand {
    pub program: String,
    pub args: Vec<String>,
}

/// The fixed argument template: extract audio, as mp3, from the given
/// resource. Only the resource identifier varies with the caller.
pub open spec fn spec_invoke_args(resource: Seq<char>) -> Seq<Seq<char>> {
    seq!["-x"@, "--audio-format"@, "mp3"@, resource]
}

/// The fixed message a successful invocation returns, whatever the
/// child wrote to its standard output.
pub open spec fn spec_invoke_success_message() -> Seq<char> {
    "Download completed successfully"@
}

/// Plans an invocation of the binary at `located` (if any) against
/// `resource`. An empty resource always fails with `EmptyInput`,
/// whether or not a binary is present; an absent binary fails with
/// `NotFound` and nothing is ever spawned; otherwise the command is
/// the located binary with the fixed argument template.
pub fn plan_invocation(located: Option<String>, resource: &str) -> (r: Result<
    InvokeCommand,
    ToolError,
>)
    ensures
        resource@.len() == 0 ==> (r matches Err(e) && e is EmptyInput),
        resource@.len() > 0 && located is None ==> (r matches Err(e) && e is NotFound),
        located matches Some(binary) ==> (resource@.len() > 0 ==> (r matches Ok(cmd)
            && cmd.program@ == binary@ && cmd.args@.map_values(|s: String| s@)
            == spec_invoke_args(resource@))),
{
    if resource.is_empty() {
        return Err(ToolError::EmptyInput);
    }
    let path = match located {
        Some(path) => path,
        None => {
            return Err(ToolError::NotFound);
        },
    };
    let mut args: Vec<String> = Vec::new();
    args.push(String::from_str("-x"));
    args.push(String::from_str("--audio-format"));
    args.push(String::from_str("mp3"));
    args.push(resource.to_owned());
    proof {
        assert(args@.map_values(|s: String| s@) =~= spec_invoke_args(resource@));
    }
    Ok(InvokeCommand { program: path, args })
}

/// Reduces a terminated child process to the host-visible result: a
/// successful exit yields the fixed success message, regardless of the
/// child's standard output; any other exit yields `ProcessFailure`
/// carrying the captured standard-error text.
pub fn reduce_outcome(exit_success: bool, stderr: &str) -> (r: Result<String, ToolError>)
    ensures
        exit_success ==> (r matches Ok(m) && m@ == spec_invoke_success_message()),
        !exit_success ==> (r matches Err(e) && e matches ToolError::ProcessFailure(t)
            && t@ == stderr@),
{
    if exit_success {
        Ok(String::from_str("Download completed successfully"))
    } else {
        Err(ToolError::ProcessFailure(stderr.to_owned()))
    }
}

/// A failed invocation's host-visible message embeds the captured
/// standard-error text exactly: the message is a fixed prefix followed
/// by that text, so the text is a suffix of the message.
pub proof fn lemma_failure_message_embeds_stderr(t: String)
    ensures
        (ToolError::ProcessFailure(t)).spec_message() == "Download failed: "@ + t@,
        (ToolError::ProcessFailure(t)).spec_message().subrange(
            (ToolError::ProcessFailure(t)).spec_message().len() - t@.len(),
            (ToolError::ProcessFailure(t)).spec_message().len() as int,
        ) =~= t@,
{
    let m = (ToolError::ProcessFailure(t)).spec_message();
    assert(m.subrange(m.len() - t@.len(), m.len() as int) =~= t@);
}

} // verus!
