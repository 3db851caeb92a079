//! The run configuration, threaded explicitly into the pipeline: the
//! input and output roots and the guard mode. The surrounding program
//! fills it in once per run.

use vstd::prelude::*;

use crate::act_patch::PatchType;

verus! {

/// One run's configuration.
#[derive(Debug)]
pub struct ActArgs {
    pub folder_path: String,
    pub out_folder_path: String,
    pub patch_type: PatchType,
}

} // verus!
