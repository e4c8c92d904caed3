//! The guard in front of creating a billable pod.

use vstd::prelude::*;

use crate::error::Error;

verus! {

/// What a `deploy` command goes on to do.
#[derive(Clone, Copy, Debug, PartialEq, Eq, Structural)]
pub enum DeployStep {
    /// Print the create request without creating anything.
    PrintRequest,
    /// Create the pod.
    CreatePod,
}

/// The message of the error for a zero duration.
pub open spec fn zero_duration_message() -> Seq<char> {
    "--duration must be at least 1 second"@
}

/// The message of the error for a deploy that was neither a dry run nor
/// confirmed.
pub open spec fn unconfirmed_message() -> Seq<char> {
    "deploy creates a billable Pod; inspect with --dry-run or confirm with --yes"@
}

/// What a `deploy` with the given smoke-test duration and flags does, or
/// the message it is refused with: a zero duration is refused, a dry run
/// only prints the request, and a pod is created only when the command
/// confirms it with `--yes`.
pub open spec fn planned_step(duration: u32, dry_run: bool, yes: bool) -> Result<
    DeployStep,
    Seq<char>,
> {
    if duration == 0 {
        Err(zero_duration_message())
    } else if dry_run {
        Ok(DeployStep::PrintRequest)
    } else if !yes {
        Err(unconfirmed_message())
    } else {
        Ok(DeployStep::CreatePod)
    }
}

/// Decides what a `deploy` command does (see [`planned_step`]).
pub fn deploy_step(duration: u32, dry_run: bool, yes: bool) -> (r: Result<DeployStep, Error>)
    ensures
        match planned_step(duration, dry_run, yes) {
            Ok(step) => r == Ok::<DeployStep, Error>(step),
            Err(msg) => (r matches Err(Error::Config(m)) && m@ == msg),
        },
        duration > 0 && yes && !dry_run ==> r == Ok::<DeployStep, Error>(DeployStep::CreatePod),
        duration > 0 && dry_run ==> r == Ok::<DeployStep, Error>(DeployStep::PrintRequest),
        r is Err ==> duration == 0 || (!dry_run && !yes),
{
    if duration == 0 {
        return Err(Error::Config("--duration must be at least 1 second".to_string()));
    }
    if dry_run {
        return Ok(DeployStep::PrintRequest);
    }
    if !yes {
        return Err(
            Error::Config(
                "deploy creates a billable Pod; inspect with --dry-run or confirm with --yes".to_string(),
            ),
        );
    }
    Ok(DeployStep::CreatePod)
}

/// A pod is created only by a confirmed deploy that is not a dry run and
/// has a positive duration; a dry run never creates one.
pub proof fn lemma_create_needs_confirmation(duration: u32, dry_run: bool, yes: bool)
    ensures
        planned_step(duration, dry_run, yes) == Ok::<DeployStep, Seq<char>>(DeployStep::CreatePod)
            ==> yes && !dry_run && duration > 0,
        dry_run ==> planned_step(duration, dry_run, yes) != Ok::<DeployStep, Seq<char>>(
            DeployStep::CreatePod,
        ),
{
}

/// A confirmed deploy that is not a dry run and has a positive duration
/// creates the pod, whatever the duration; a dry run with a positive
/// duration prints the request; a deploy is refused only for a zero
/// duration or for a missing confirmation.
pub proof fn lemma_confirmed_deploy_creates(duration: u32, dry_run: bool, yes: bool)
    ensures
        duration > 0 && yes && !dry_run ==> planned_step(duration, dry_run, yes) == Ok::<
            DeployStep,
            Seq<char>,
        >(DeployStep::CreatePod),
        duration > 0 && dry_run ==> planned_step(duration, dry_run, yes) == Ok::<
            DeployStep,
            Seq<char>,
        >(DeployStep::PrintRequest),
        planned_step(duration, dry_run, yes) is Err ==> duration == 0 || (!dry_run && !yes),
{
}

} // verus!
