use vstd::prelude::*;

use crate::module_id::{add_runtime_suffix, runtime_suffix};

verus! {

/// The name of the entry that the runtime is added under.
pub const RUNTIME_INPUT_NAME: &'static str = "runtime";

/// The package whose imports are aliased to the configured interop helpers.
pub const HELPERS_ALIAS: &'static str = "@swc/helpers";

/// The resource pot that all runtime modules are grouped into.
pub const RUNTIME_POT_NAME: &'static str = "FARM_RUNTIME";

/// What the plugin adds to the compilation's configuration.
#[derive(Clone, Debug)]
pub struct RuntimeConfigChanges {
    /// An entry named `runtime`...
    pub input_name: String,
    /// ...for the runtime path with the marker.
    pub input_path: String,
    /// An alias from the helpers package...
    pub alias_name: String,
    /// ...to the configured helpers path.
    pub alias_path: String,
    /// A grouping rule, placed before all others, that puts every marked module...
    pub enforce_name: String,
    /// ...(the pattern it matches) into one resource pot of this name.
    pub enforce_test: String,
}

/// The configuration changes for a runtime at `runtime_path` with interop helpers at
/// `swc_helpers_path`.
pub fn config(runtime_path: &str, swc_helpers_path: &str) -> (r: RuntimeConfigChanges)
    ensures
        r.input_name@ == RUNTIME_INPUT_NAME@,
        r.input_path@ == runtime_path@ + runtime_suffix(),
        r.alias_name@ == HELPERS_ALIAS@,
        r.alias_path@ == swc_helpers_path@,
        r.enforce_name@ == RUNTIME_POT_NAME@,
        r.enforce_test@ == ".+"@ + runtime_suffix(),
{
    proof { reveal_strlit(".farm-runtime"); }
    RuntimeConfigChanges {
        input_name: String::from_str(RUNTIME_INPUT_NAME),
        input_path: add_runtime_suffix(runtime_path),
        alias_name: String::from_str(HELPERS_ALIAS),
        alias_path: String::from_str(swc_helpers_path),
        enforce_name: String::from_str(RUNTIME_POT_NAME),
        enforce_test: add_runtime_suffix(".+"),
    }
}

} // verus!
