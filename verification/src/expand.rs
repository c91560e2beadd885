//! Resolution of shell-style environment-variable references in the `env`
//! values of a process spec. Expansion happens once, before the process is
//! first spawned; a reference to an unset variable is a fatal configuration
//! error that aborts startup.

use vstd::prelude::*;
use crate::config::EnvVar;

verus! {

/// A fatal configuration error: an environment value referenced a variable
/// that is not set in the ambient environment.
#[derive(Debug)]
pub struct ExpandError {
    /// The name of the variable that could not be resolved.
    pub var_name: String,
}

/// Relies on `shellexpand::env`: resolves `$VAR` and `${VAR}` references in
/// `value` against the ambient environment. Its source returns a value that
/// holds no `$` unchanged; a plain `$VAR` or `${VAR}` reference to an unset
/// variable fails with an error naming that variable, while the
/// `${VAR:-default}` form substitutes its default instead. Beyond that the
/// result depends on the ambient environment, so nothing more is promised of
/// it.
#[verifier::external_body]
fn expand_value(value: &str) -> (r: Result<String, String>)
    ensures
        r is Err ==> value@.contains('$'),
        r matches Ok(s) ==> value@.contains('$') || s@ == value@,
{
    match shellexpand::env(value) {
        Ok(expanded) => Ok(expanded.to_string()),
        Err(e) => Err(e.var_name),
    }
}

/// Whether `out` is `src` with every value expanded: same length, the keys
/// unchanged in order, and every value that references no variable unchanged.
pub open spec fn env_expanded(out: Seq<EnvVar>, src: Seq<EnvVar>) -> bool {
    &&& out.len() == src.len()
    &&& forall|i: int| 0 <= i < src.len() ==> (#[trigger] out[i]).key == src[i].key
    &&& forall|i: int|
        0 <= i < src.len() ==> (!(#[trigger] src[i]).value@.contains('$') ==> out[i].value@
            == src[i].value@)
}

/// Expands every value of the given environment overrides against the
/// ambient environment. On success the keys come back unchanged and in
/// order, and a value without a variable reference comes back as it was.
/// An error can only arise from a value that holds a `$`.
pub fn expand_env(env: &Vec<EnvVar>) -> (r: Result<Vec<EnvVar>, ExpandError>)
    ensures
        r matches Ok(out) ==> env_expanded(out@, env@),
        r is Err ==> exists|i: int|
            0 <= i < env@.len() && (#[trigger] env@[i]).value@.contains('$'),
{
    let mut out: Vec<EnvVar> = Vec::new();
    let mut idx: usize = 0;
    while idx < env.len()
        invariant
            idx <= env.len(),
            out.len() == idx,
            forall|i: int| 0 <= i < idx ==> (#[trigger] out@[i]).key == env@[i].key,
            forall|i: int|
                0 <= i < idx ==> (!(#[trigger] env@[i]).value@.contains('$') ==> out@[i].value@
                    == env@[i].value@),
        decreases env.len() - idx,
    {
        let entry = &env[idx];
        match expand_value(entry.value.as_str()) {
            Ok(value) => {
                out.push(EnvVar { key: entry.key.clone(), value });
            },
            Err(var_name) => {
                return Err(ExpandError { var_name });
            },
        }
        idx += 1;
    }
    Ok(out)
}

} // verus!
