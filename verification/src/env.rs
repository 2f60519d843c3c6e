use vstd::prelude::*;

verus! {

/// The name of the environment variable that overrides the configuration
/// home.
///
/// Classification never reads the environment itself: the caller looks
/// this variable up, fresh on every call, and passes whether it is
/// present. The name is fixed here so that every caller observes the
/// same variable.
pub fn config_home_env_key() -> (key: &'static str)
    ensures
        key@ == "APOLLO_CONFIG_HOME"@,
{
    "APOLLO_CONFIG_HOME"
}

} // verus!
