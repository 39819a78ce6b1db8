//! Interpreting the outcomes of external command invocations.
//!
//! Spawning is a black-box capability of the caller; it reports what
//! happened as a [`WaitOutcome`] or [`CaptureOutcome`], and the functions
//! here map every such observation to the domain result.

use crate::errors::ScaffoldError;
use vstd::prelude::*;

verus! {

/// What the caller observed after spawning a command with both output
/// streams discarded.
#[derive(Debug, Clone, PartialEq, Eq)]
pub enum WaitOutcome {
    /// The process could not be spawned; carries the spawn error text.
    SpawnFailed(String),
    /// The process ran to completion; `success` is the exit success flag and
    /// `status` a human-readable rendering of the exit status.
    Exited { success: bool, status: String },
}

/// What the caller observed after spawning a command with both output
/// streams captured: `text` is the decoded stdout on success and the decoded
/// stderr on failure, or `None` when the captured bytes were not valid text.
#[derive(Debug, Clone, PartialEq, Eq)]
pub enum CaptureOutcome {
    /// The process could not be spawned; carries the spawn error text.
    SpawnFailed(String),
    /// The process ran to completion.
    Exited { success: bool, text: Option<String> },
}

/// The result of a discard-streams invocation: success exactly when the
/// process spawned and exited zero; every failure is an `ExecutionFailure`
/// carrying the executable name and either the spawn error text or a
/// formatted exit-status message.
pub fn resolve_wait_outcome(cmd: &str, outcome: WaitOutcome) -> (r: Result<(), ScaffoldError>)
    ensures
        r is Ok <==> (outcome matches WaitOutcome::Exited { success, .. } && success),
        outcome matches WaitOutcome::SpawnFailed(d) ==> (r matches Err(e) && e matches ScaffoldError::ExecutionFailure(c, dd)
            && c@ == cmd@ && dd@ == d@),
        outcome matches WaitOutcome::Exited { success, status } ==> (!success ==> (r matches Err(e)
            && e matches ScaffoldError::ExecutionFailure(c, dd) && c@ == cmd@ && dd@
            == "Command failed with status "@ + status@)),
{
    match outcome {
        WaitOutcome::SpawnFailed(d) => Err(
            ScaffoldError::ExecutionFailure(String::from_str(cmd), d),
        ),
        WaitOutcome::Exited { success, status } => {
            if success {
                Ok(())
            } else {
                let mut detail = String::from_str("Command failed with status ");
                detail.append(status.as_str());
                Err(ScaffoldError::ExecutionFailure(String::from_str(cmd), detail))
            }
        },
    }
}

/// The result of a capture-streams invocation: the captured stdout text on
/// success, an `ExecutionFailure` carrying the captured stderr text on
/// non-zero exit, an `ExecutionFailure` with the spawn error text when the
/// process could not start, and an `OutputDecodeFailure` when the captured
/// bytes were not valid text.
pub fn resolve_capture_outcome(cmd: &str, outcome: CaptureOutcome) -> (r: Result<
    String,
    ScaffoldError,
>)
    ensures
        outcome matches CaptureOutcome::SpawnFailed(d) ==> (r matches Err(e) && e matches ScaffoldError::ExecutionFailure(c, dd)
            && c@ == cmd@ && dd@ == d@),
        outcome matches CaptureOutcome::Exited { success, text } ==> (success ==> (text matches Some(
            t,
        ) ==> (r matches Ok(out) && out@ == t@))),
        outcome matches CaptureOutcome::Exited { success, text } ==> (!success ==> (text matches Some(
            t,
        ) ==> (r matches Err(e) && e matches ScaffoldError::ExecutionFailure(c, dd) && c@ == cmd@
            && dd@ == t@))),
        (outcome matches CaptureOutcome::Exited { text: None, .. }) ==> (r matches Err(e)
            && e matches ScaffoldError::OutputDecodeFailure(c) && c@ == cmd@),
{
    match outcome {
        CaptureOutcome::SpawnFailed(d) => Err(
            ScaffoldError::ExecutionFailure(String::from_str(cmd), d),
        ),
        CaptureOutcome::Exited { success, text } => match text {
            Some(t) => {
                if success {
                    Ok(t)
                } else {
                    Err(ScaffoldError::ExecutionFailure(String::from_str(cmd), t))
                }
            },
            None => Err(ScaffoldError::OutputDecodeFailure(String::from_str(cmd))),
        },
    }
}

/// The views of the elements of a vector of strings.
pub open spec fn seq_views(v: Seq<String>) -> Seq<Seq<char>> {
    v.map_values(|s: String| s@)
}

/// The parts joined with single spaces.
pub open spec fn spec_join_spaces(parts: Seq<Seq<char>>) -> Seq<char>
    decreases parts.len(),
{
    if parts.len() == 0 {
        Seq::empty()
    } else if parts.len() == 1 {
        parts[0]
    } else {
        parts[0] + seq![' '] + spec_join_spaces(parts.drop_first())
    }
}

/// Appending one more part extends the joined form by a space and the part
/// (or is the part itself when there was nothing yet).
proof fn lemma_join_spaces_push(parts: Seq<Seq<char>>, x: Seq<char>)
    ensures
        parts.len() == 0 ==> spec_join_spaces(parts.push(x)) == x,
        parts.len() > 0 ==> spec_join_spaces(parts.push(x)) == spec_join_spaces(parts) + seq![' ']
            + x,
    decreases parts.len(),
{
    if parts.len() == 0 {
        assert(parts.push(x)[0] == x);
    } else {
        lemma_join_spaces_push(parts.drop_first(), x);
        assert(parts.push(x).drop_first() =~= parts.drop_first().push(x));
        if parts.len() == 1 {
            assert(spec_join_spaces(parts.push(x)) == parts[0] + seq![' '] + x);
        }
    }
}

/// The status line announcing an execution: `> executing: <cmd> <args...>`,
/// the arguments joined with single spaces.
pub fn execution_message(cmd: &str, args: &Vec<String>) -> (r: String)
    ensures
        r@ == "> executing: "@ + cmd@ + " "@ + spec_join_spaces(seq_views(args@)),
{
    let mut joined = String::new();
    let mut i: usize = 0;
    while i < args.len()
        invariant
            i <= args@.len(),
            joined@ == spec_join_spaces(seq_views(args@.subrange(0, i as int))),
        decreases args@.len() - i,
    {
        if i > 0 {
            joined.append(" ");
            proof {
                reveal_strlit(" ");
            }
        }
        joined.append(args[i].as_str());
        i = i + 1;
        proof {
            reveal_strlit(" ");
            let prev = seq_views(args@.subrange(0, i - 1));
            assert(seq_views(args@.subrange(0, i as int)) =~= prev.push(args@[i - 1]@));
            lemma_join_spaces_push(prev, args@[i - 1]@);
            assert(" "@ =~= seq![' ']);
        }
    }
    proof {
        assert(args@.subrange(0, args@.len() as int) =~= args@);
    }
    let mut r = String::from_str("> executing: ");
    r.append(cmd);
    r.append(" ");
    r.append(joined.as_str());
    r
}

} // verus!
