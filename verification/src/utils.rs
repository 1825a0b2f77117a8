//! Where the client's settings are read from.

use crate::text::concat;
use vstd::prelude::*;

verus! {

/// The run mode for which settings are read unless another is set.
pub const DEFAULT_RUN_MODE: &'static str = "dev";

/// The two files that hold the settings with the given prefix: the common
/// one, and the one of the run mode.
pub open spec fn resource_names(prefix: Seq<char>, run_mode: Seq<char>) -> (Seq<char>, Seq<char>) {
    (
        "resources/"@ + prefix + ".toml"@,
        "resources/"@ + prefix + "-"@ + run_mode + ".toml"@,
    )
}

/// The files to read the settings with the given prefix from, the common
/// one first. Without a run mode the mode is `dev`.
pub fn resource_files(prefix: &str, run_mode: Option<String>) -> (files: (String, String))
    ensures
        (files.0@, files.1@) == resource_names(
            prefix@,
            match run_mode {
                Some(mode) => mode@,
                None => "dev"@,
            },
        ),
{
    let mode = match run_mode {
        Some(mode) => mode,
        None => DEFAULT_RUN_MODE.to_owned(),
    };
    let common = concat(concat("resources/".to_owned(), prefix), ".toml");
    let special = concat(
        concat(concat(concat("resources/".to_owned(), prefix), "-"), mode.as_str()),
        ".toml",
    );
    (common, special)
}

} // verus!
