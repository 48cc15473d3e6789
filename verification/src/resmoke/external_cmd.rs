//! What came of running an external command.

use vstd::prelude::*;

use crate::utils::number::{decimal, format_decimal};

verus! {

/// How long a command may run if nothing else is said, in seconds.
pub const DEFAULT_TIMEOUT_SECS: u64 = 120;

/// What is left of a command that ended or was stopped.
#[derive(Debug)]
pub struct CommandEnd {
    /// Was the command stopped because it ran for too long?
    pub timed_out: bool,
    /// Did it report success?
    pub success: bool,
    /// What it wrote to its standard output.
    pub stdout: String,
    /// What it wrote to its standard error.
    pub stderr: String,
}

/// The text in which the failure of a command is reported.
pub open spec fn failure_message(end: CommandEnd, timeout_secs: u64) -> Seq<char> {
    if end.timed_out {
        "Command timed out after "@ + decimal(timeout_secs as nat) + " seconds."@
    } else {
        end.stderr@
    }
}

/// The output of a command that ended well and in time, or the text in which its failure is
/// reported.
pub open spec fn output_of(end: CommandEnd, timeout_secs: u64) -> Result<Seq<char>, Seq<char>> {
    if end.success && !end.timed_out {
        Ok(end.stdout@)
    } else {
        Err(failure_message(end, timeout_secs))
    }
}

/// Determine the output of a command, or the text in which its failure is reported.
///
/// # Arguments
///
/// * `end` - What is left of the command.
/// * `timeout_secs` - How long the command was allowed to run, in full seconds.
pub fn command_output(end: CommandEnd, timeout_secs: u64) -> (output: Result<String, String>)
    ensures
        match output {
            Ok(text) => output_of(end, timeout_secs) == Ok::<_, Seq<char>>(text@),
            Err(message) => output_of(end, timeout_secs) == Err::<Seq<char>, _>(message@),
        },
{
    if end.timed_out {
        let mut message: String = "Command timed out after ".to_owned();
        message.append(format_decimal(timeout_secs).as_str());
        message.append(" seconds.");
        Err(message)
    } else if !end.success {
        Err(end.stderr)
    } else {
        Ok(end.stdout)
    }
}

} // verus!
