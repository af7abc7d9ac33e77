use vstd::prelude::*;

verus! {

/// One entry of a command reply: the outcome of one sub-command.
#[derive(Debug, PartialEq, Eq)]
pub struct CommandResult {
    pub success: bool,
    /// The server's message when the sub-command failed.
    pub error: Option<String>,
    /// Set when the sub-command could not be parsed.
    pub parse_error: Option<bool>,
}

/// Why one sub-command of a run-command request did not succeed.
#[derive(Debug, PartialEq, Eq)]
pub enum CommandError {
    /// The server could not parse the sub-command.
    ParseError,
    /// The sub-command was parsed but failed, with the server's message
    /// where it sent one.
    Failed(Option<String>),
}

/// The outcome that one reply entry stands for.
pub open spec fn outcome_of(r: CommandResult) -> Result<(), CommandError> {
    if r.success {
        Ok(())
    } else if r.parse_error == Some(true) {
        Err(CommandError::ParseError)
    } else {
        Err(CommandError::Failed(r.error))
    }
}

/// Maps one reply entry to its outcome: success is `Ok`, a failure flagged
/// as a parse error is `ParseError`, any other failure is `Failed`.
pub fn command_outcome(r: &CommandResult) -> (out: Result<(), CommandError>)
    ensures
        out == outcome_of(*r),
{
    if r.success {
        Ok(())
    } else if r.parse_error == Some(true) {
        Err(CommandError::ParseError)
    } else {
        let message = match &r.error {
            Some(m) => Some(m.clone()),
            None => None,
        };
        Err(CommandError::Failed(message))
    }
}

/// Maps a run-command reply entry by entry, keeping its length and order:
/// the `i`-th outcome belongs to the `i`-th sub-command submitted.
pub fn command_outcomes(results: &Vec<CommandResult>) -> (out: Vec<Result<(), CommandError>>)
    ensures
        out@ == results@.map_values(|r: CommandResult| outcome_of(r)),
{
    let mut out: Vec<Result<(), CommandError>> = Vec::new();
    let mut i: usize = 0;
    while i < results.len()
        invariant
            i <= results@.len(),
            out@ == results@.subrange(0, i as int).map_values(|r: CommandResult| outcome_of(r)),
        decreases results@.len() - i,
    {
        out.push(command_outcome(&results[i]));
        proof {
            assert(results@.subrange(0, i + 1).map_values(|r: CommandResult| outcome_of(r))
                =~= results@.subrange(0, i as int).map_values(|r: CommandResult| outcome_of(r)).push(
                outcome_of(results@[i as int]),
            ));
        }
        i = i + 1;
    }
    assert(results@.subrange(0, results@.len() as int) =~= results@);
    out
}

} // verus!
