use vstd::prelude::*;

use crate::error::WebIntelError;

verus! {

/// The profile store's decision for one launch: where the browser's user
/// data directory comes from. The backing storage of the ephemeral variant
/// is created as a uniquely named temporary directory and destroyed exactly
/// once, after the process has been asked to terminate; the persistent
/// variant's directory is created if absent and outlives the handle.
#[derive(Debug, Clone, PartialEq, Eq)]
pub enum ProfilePlan {
    /// A uniquely named temporary directory, scoped to this launch.
    Ephemeral,
    /// A directory under the user cache root, kept across runs.
    Persistent(String),
}

/// Decides the profile directory for a launch. In ephemeral mode the plan
/// is always a temporary directory, whatever the cache root. In persistent
/// mode the plan appends the profile name to the user cache root; a machine
/// without a determinable cache root is a fatal profile-creation failure.
pub fn plan_profile(ephemeral: bool, cache_root: Option<String>, profile_name: &str) -> (r: Result<
    ProfilePlan,
    WebIntelError,
>)
    ensures
        ephemeral ==> r == Ok::<ProfilePlan, WebIntelError>(ProfilePlan::Ephemeral),
        !ephemeral ==> match cache_root {
            Some(root) => (r matches Ok(p) && p matches ProfilePlan::Persistent(path)
                && path@ == root@ + "/"@ + profile_name@),
            None => (r matches Err(e) && e matches WebIntelError::ProfileCreationFailure(m)
                && m@ == "Could not determine cache directory"@),
        },
{
    if ephemeral {
        Ok(ProfilePlan::Ephemeral)
    } else {
        match cache_root {
            Some(root) => {
                let path = root.concat("/").concat(profile_name);
                Ok(ProfilePlan::Persistent(path))
            },
            None => Err(
                WebIntelError::ProfileCreationFailure(
                    String::from_str("Could not determine cache directory"),
                ),
            ),
        }
    }
}

/// The steps of releasing a handle, in the order they must run.
#[derive(Debug, Clone, Copy, PartialEq, Eq, Structural)]
pub enum TeardownAction {
    /// Signal termination to the browser process.
    Terminate,
    /// Synchronously await the exit status, reaping the process.
    Reap,
    /// Delete the ephemeral profile directory.
    RemoveProfileDir,
}

/// The release sequence: terminate, reap, and — only for an ephemeral
/// profile — remove the directory, strictly after the process has been
/// stopped, so that the running process never observes its user data
/// directory vanishing.
pub open spec fn spec_teardown_plan(ephemeral: bool) -> Seq<TeardownAction> {
    if ephemeral {
        seq![TeardownAction::Terminate, TeardownAction::Reap, TeardownAction::RemoveProfileDir]
    } else {
        seq![TeardownAction::Terminate, TeardownAction::Reap]
    }
}

/// The plan for releasing a handle. The second argument records whether the
/// process is already known to have exited: the plan does not depend on it —
/// termination is signalled and the exit status reaped unconditionally, so
/// releasing a handle whose process already exited walks the same steps and
/// can neither fail nor hang on a decision of this crate.
pub fn teardown_plan(ephemeral: bool, process_already_exited: bool) -> (r: Vec<TeardownAction>)
    ensures
        r@ == spec_teardown_plan(ephemeral),
{
    let mut plan: Vec<TeardownAction> = Vec::new();
    plan.push(TeardownAction::Terminate);
    plan.push(TeardownAction::Reap);
    if ephemeral {
        plan.push(TeardownAction::RemoveProfileDir);
    }
    proof {
        assert(plan@ =~= spec_teardown_plan(ephemeral));
    }
    plan
}

/// An ephemeral profile's storage is removed on release, and only after the
/// process has been signalled and reaped: the removal step occurs exactly
/// once, as the last step.
pub proof fn lemma_ephemeral_storage_removed_last()
    ensures
        spec_teardown_plan(true).len() == 3,
        spec_teardown_plan(true)[2] == TeardownAction::RemoveProfileDir,
        forall|k: int| 0 <= k < 2 ==> spec_teardown_plan(true)[k] != TeardownAction::RemoveProfileDir,
        spec_teardown_plan(true)[0] == TeardownAction::Terminate,
        spec_teardown_plan(true)[1] == TeardownAction::Reap,
{
}

/// A persistent profile's directory is never removed by a release: no step
/// of the plan touches it.
pub proof fn lemma_persistent_storage_kept()
    ensures
        forall|k: int| 0 <= k < spec_teardown_plan(false).len() ==> spec_teardown_plan(false)[k]
            != TeardownAction::RemoveProfileDir,
{
}

} // verus!
