//! Classification of what happened to a spawned tool invocation into the
//! operations' typed results.

use vstd::prelude::*;

verus! {

/// The contextual message attached to a packaging failure.
pub open spec fn pack_context() -> Seq<char> {
    "Packaging up your code failed"@
}

/// The contextual message attached to a publish failure.
pub open spec fn publish_context() -> Seq<char> {
    "Publishing to npm failed"@
}

/// The message of a login failure against `registry`.
pub open spec fn login_failure_message(registry: Seq<char>) -> Seq<char> {
    "Login to registry "@ + registry + " failed"@
}

/// What the capturing runner reports of an invocation it was asked to run.
pub enum RunReport {
    /// The tool ran and exited with status zero.
    Succeeded,
    /// The tool could not be run to a zero exit; `diagnostic` is the runner's
    /// account of it (captured output, or the OS error when the spawn itself
    /// failed).
    Failed { diagnostic: String },
}

/// What came of spawning an interactive invocation directly.
pub enum SpawnOutcome {
    /// The executable could not be started at all; `detail` is the OS error.
    LaunchFailed { detail: String },
    /// The tool ran to completion; `success` is whether it exited zero.
    Exited { success: bool },
}

/// One operation's failure.
pub enum NpmError {
    /// The tool's executable could not be started (not found, permissions).
    ProcessLaunch { detail: String },
    /// The tool ran under the capturing runner but failed; `context` names
    /// the operation and `cause` is the runner's diagnostic.
    CommandFailure { context: String, cause: String },
    /// The interactive login exited non-zero; nothing was captured, so the
    /// error carries only the target registry.
    LoginFailure { registry: String },
}

impl NpmError {
    /// The human-readable message of this error: the operation's context
    /// followed by the root cause, where both exist.
    pub fn message(&self) -> (m: String)
        ensures
            self matches NpmError::ProcessLaunch { detail } ==> m@ == detail@,
            self matches NpmError::CommandFailure { context, cause } ==> m@ == context@ + ": "@
                + cause@,
            self matches NpmError::LoginFailure { registry } ==> m@ == login_failure_message(
                registry@,
            ),
    {
        match self {
            NpmError::ProcessLaunch { detail } => detail.clone(),
            NpmError::CommandFailure { context, cause } => {
                let mut m = context.clone();
                m.append(": ");
                m.append(cause.as_str());
                m
            },
            NpmError::LoginFailure { registry } => {
                let mut m = String::from_str("Login to registry ");
                m.append(registry.as_str());
                m.append(" failed");
                m
            },
        }
    }
}

/// Turn the runner's report on a packaging invocation into the operation's
/// result: success passes through, any failure is tagged with the packaging
/// context.
pub fn pack_outcome(report: RunReport) -> (r: Result<(), NpmError>)
    ensures
        report is Succeeded <==> r is Ok,
        report matches RunReport::Failed { diagnostic } ==> r matches Err(e)
            && e matches NpmError::CommandFailure { context, cause } && context@ == pack_context()
            && cause == diagnostic,
{
    match report {
        RunReport::Succeeded => Ok(()),
        RunReport::Failed { diagnostic } => Err(
            NpmError::CommandFailure {
                context: String::from_str("Packaging up your code failed"),
                cause: diagnostic,
            },
        ),
    }
}

/// Turn the runner's report on a publish invocation into the operation's
/// result: success passes through, any failure is tagged with the publish
/// context.
pub fn publish_outcome(report: RunReport) -> (r: Result<(), NpmError>)
    ensures
        report is Succeeded <==> r is Ok,
        report matches RunReport::Failed { diagnostic } ==> r matches Err(e)
            && e matches NpmError::CommandFailure { context, cause } && context@
            == publish_context() && cause == diagnostic,
{
    match report {
        RunReport::Succeeded => Ok(()),
        RunReport::Failed { diagnostic } => Err(
            NpmError::CommandFailure {
                context: String::from_str("Publishing to npm failed"),
                cause: diagnostic,
            },
        ),
    }
}

/// Turn what came of the interactive login spawn into the operation's result:
/// a zero exit succeeds, a non-zero exit is a login failure carrying the
/// registry, and a spawn that never started propagates as a launch error.
pub fn login_outcome(registry: &String, outcome: SpawnOutcome) -> (r: Result<(), NpmError>)
    ensures
        outcome matches SpawnOutcome::Exited { success: true } <==> r is Ok,
        outcome matches SpawnOutcome::Exited { success: false } ==> r matches Err(e)
            && e matches NpmError::LoginFailure { registry: rg } && rg@ == registry@,
        outcome matches SpawnOutcome::LaunchFailed { detail } ==> r matches Err(e)
            && e matches NpmError::ProcessLaunch { detail: d } && d == detail,
{
    match outcome {
        SpawnOutcome::LaunchFailed { detail } => Err(NpmError::ProcessLaunch { detail }),
        SpawnOutcome::Exited { success: true } => Ok(()),
        SpawnOutcome::Exited { success: false } => Err(
            NpmError::LoginFailure { registry: registry.clone() },
        ),
    }
}

} // verus!
