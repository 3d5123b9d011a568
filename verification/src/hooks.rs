//! The caller-facing outcome of a hook-triggering event.
//!
//! Call sites that only need to know "may the operation proceed?" collapse
//! the invocation taxonomy: an absent hook and a successful hook both pass,
//! a failing hook blocks the operation and surfaces its captured output
//! verbatim so the user can diagnose it.

use vstd::prelude::*;

use crate::hookspath::{found_spec, FileStatus};
use crate::invoke::{classify_spec, HookResult as InvokeResult, ProcessOutput};
use crate::paths::Platform;

verus! {

/// The collapsed outcome of one hook-triggering event.
#[derive(Debug, Clone, PartialEq, Eq)]
pub enum HookResult {
    /// Everything went fine: the hook was absent or exited successfully.
    Okay,
    /// The hook rejected the operation; its captured output, standard
    /// output first, then standard error.
    NotOk(String),
}

/// Whether an invocation outcome collapses to success.
pub open spec fn collapses_ok(v: InvokeResult) -> bool {
    v is RanOk || v is NoHookFound
}

impl HookResult {
    /// Collapses an invocation outcome: an absent or successful hook
    /// passes; a failing hook carries its standard output followed by its
    /// standard error.
    pub fn from_invoke(v: InvokeResult) -> (r: HookResult)
        ensures
            collapses_ok(v) ==> r == HookResult::Okay,
            v matches InvokeResult::RunNotSuccessful { stdout, stderr, .. } ==> (r matches
                HookResult::NotOk(m) && m@ == stdout@ + stderr@),
    {
        match v {
            InvokeResult::RanOk { .. } => HookResult::Okay,
            InvokeResult::NoHookFound => HookResult::Okay,
            InvokeResult::RunNotSuccessful { stdout, stderr, .. } => HookResult::NotOk(
                stdout.concat(stderr.as_str()),
            ),
        }
    }
}

/// Law (absence is success): a hook name whose resolved file does not exist
/// is never launched — its outcome is settled as "no hook found" — and that
/// outcome collapses to success, never to a failure.
pub proof fn lemma_absence_is_success(p: Platform, status: FileStatus)
    requires
        !status.exists,
    ensures
        !found_spec(p, status),
        collapses_ok(InvokeResult::NoHookFound),
        !(InvokeResult::NoHookFound is RunNotSuccessful),
{
}

/// Law (failure classification): a hook that exited unsuccessfully is
/// classified as a failure carrying exactly the captured streams and the
/// exit code the process produced, and never collapses to success.
pub proof fn lemma_failure_reported_verbatim(hook: String, output: ProcessOutput)
    requires
        !output.success,
    ensures
        classify_spec(hook, output) == (InvokeResult::RunNotSuccessful {
            code: output.code,
            stdout: output.stdout,
            stderr: output.stderr,
            hook,
        }),
        !collapses_ok(classify_spec(hook, output)),
{
}

/// Law (success is silent): a hook that exited successfully collapses to
/// success whatever it wrote to its streams.
pub proof fn lemma_success_collapses_ok(hook: String, output: ProcessOutput)
    requires
        output.success,
    ensures
        collapses_ok(classify_spec(hook, output)),
{
}

} // verus!
