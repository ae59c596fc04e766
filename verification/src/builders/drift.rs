//! How the environments of two hosts are compared.
use vstd::prelude::*;

verus! {

/// What to do in order to compare two hosts.
pub const DIFF_INSTRUCTION: &'static str =
    "To compare two hosts: run ssh_env_snapshot on each host, save outputs to local files with save_output, and compare the files with a local diff.";

/// Builds the commands by which drift is found.
pub struct DriftCommandBuilder;

impl DriftCommandBuilder {
    pub fn build_diff_instruction() -> (r: &'static str)
        ensures
            r@ == DIFF_INSTRUCTION@,
    {
        DIFF_INSTRUCTION
    }
}

} // verus!
