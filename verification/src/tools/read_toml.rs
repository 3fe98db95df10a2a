//! The TOML reading tool; queries go through the JSON query rules.
use vstd::prelude::*;

verus! {

/// The `read_toml` tool.
pub struct ReadToml;

impl ReadToml {
    /// The tool's name.
    pub fn name() -> (r: &'static str)
        ensures
            r@ == "read_toml"@,
    {
        "read_toml"
    }

    /// The tool's description.
    pub fn description() -> (r: &'static str)
        ensures
            r@ == "Parse and query TOML files"@,
    {
        "Parse and query TOML files"
    }
}

} // verus!
