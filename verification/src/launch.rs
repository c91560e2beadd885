//! Turning a process spec into a launch plan: the exact, already-expanded
//! parameters the supervisor uses for the first spawn and for every re-spawn
//! of that process. A plan is computed once per spec at startup and never
//! re-validated afterwards.

use vstd::prelude::*;
use vstd::string::StringExecFns;
use crate::config::{EnvVar, ProcessSpec, SupervisorConfig};
use crate::expand::{env_expanded, expand_env, ExpandError};

verus! {

/// Everything needed to spawn (and later re-spawn) one process: executable
/// path, arguments, expanded environment overrides, the optional display
/// identity to install as the process's zeroth argument, and the optional
/// stdout redirection target.
pub struct LaunchPlan {
    pub path: String,
    pub args: Vec<String>,
    pub env: Vec<EnvVar>,
    pub arg0: Option<String>,
    pub stdout: Option<String>,
}

/// The display identity a named process is tagged with: purely for
/// observability, with no effect on what runs.
pub open spec fn tag_of(name: Seq<char>, path: Seq<char>) -> Seq<char> {
    "[spawner: "@ + name + "] -> "@ + path
}

/// Builds the display identity for a named process.
pub fn display_tag(name: &str, path: &str) -> (r: String)
    ensures
        r@ == tag_of(name@, path@),
{
    let mut tag = String::from_str("[spawner: ");
    tag.append(name);
    tag.append("] -> ");
    tag.append(path);
    tag
}

/// Whether `plan` is the launch plan of `src`: same path, arguments and
/// stdout target, environment expanded from `src.env`, and the display
/// identity present exactly when the spec is named.
pub open spec fn plan_matches(plan: LaunchPlan, src: ProcessSpec) -> bool {
    &&& plan.path == src.path
    &&& plan.args@ == src.args@
    &&& env_expanded(plan.env@, src.env@)
    &&& match src.name {
        Some(name) => plan.arg0 matches Some(tag) && tag@ == tag_of(name@, src.path@),
        None => plan.arg0 is None,
    }
    &&& plan.stdout == src.stdout
}

/// Computes the launch plan of one spec: expands its environment values
/// against the ambient environment and fixes path, arguments, display
/// identity and stdout target. Fails exactly when expansion fails, which
/// can only happen for an env value holding a `$`.
pub fn prepare_launch(src: &ProcessSpec) -> (r: Result<LaunchPlan, ExpandError>)
    ensures
        r matches Ok(plan) ==> plan_matches(plan, *src),
        r is Err ==> exists|i: int|
            0 <= i < src.env@.len() && (#[trigger] src.env@[i]).value@.contains('$'),
{
    let env = match expand_env(&src.env) {
        Ok(env) => env,
        Err(e) => {
            return Err(e);
        },
    };
    let arg0 = match &src.name {
        Some(name) => Some(display_tag(name.as_str(), src.path.as_str())),
        None => None,
    };
    let stdout = match &src.stdout {
        Some(target) => Some(target.clone()),
        None => None,
    };
    let args = src.args.clone();
    proof {
        assert forall|i: int| 0 <= i < src.args@.len() implies args@[i] == src.args@[i] by {
            assert(vstd::pervasive::cloned::<String>(src.args[i], args[i]));
        }
        assert(args@ =~= src.args@);
    }
    Ok(LaunchPlan { path: src.path.clone(), args, env, arg0, stdout })
}

/// Computes the launch plan of every spec in the manifest, in manifest
/// order. A single failing spec fails the whole startup: no partial result
/// is handed back.
pub fn prepare_all(config: &SupervisorConfig) -> (r: Result<Vec<LaunchPlan>, ExpandError>)
    ensures
        r matches Ok(plans) ==> {
            &&& plans@.len() == config.apps@.len()
            &&& forall|i: int|
                0 <= i < config.apps@.len() ==> plan_matches(
                    #[trigger] plans@[i],
                    config.apps@[i],
                )
        },
        r is Err ==> exists|i: int, j: int|
            0 <= i < config.apps@.len() && 0 <= j < config.apps@[i].env@.len() && (
            #[trigger] config.apps@[i].env@[j]).value@.contains('$'),
{
    let mut plans: Vec<LaunchPlan> = Vec::new();
    let mut idx: usize = 0;
    while idx < config.apps.len()
        invariant
            idx <= config.apps.len(),
            plans@.len() == idx,
            forall|i: int|
                0 <= i < idx ==> plan_matches(#[trigger] plans@[i], config.apps@[i]),
        decreases config.apps.len() - idx,
    {
        match prepare_launch(&config.apps[idx]) {
            Ok(plan) => {
                plans.push(plan);
            },
            Err(e) => {
                return Err(e);
            },
        }
        idx += 1;
    }
    Ok(plans)
}

} // verus!
