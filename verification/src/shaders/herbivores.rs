//! Compute shaders for the herbivore group, each built from the compiled
//! SPIR-V bytes of its stage.

use crate::shaders::{spirv_result_is_exact, SpirvError, SpirvModule};
use vstd::prelude::*;

verus! {

/// Pre-run shader for setting everything up.
pub fn pre_run(bytes: &[u8]) -> (r: Result<SpirvModule, SpirvError>)
    ensures
        spirv_result_is_exact(r, bytes@),
{
    SpirvModule::from_bytes(bytes)
}

/// The shader performing one step of the simulation.
pub fn simulate(bytes: &[u8]) -> (r: Result<SpirvModule, SpirvError>)
    ensures
        spirv_result_is_exact(r, bytes@),
{
    SpirvModule::from_bytes(bytes)
}

/// The shader performing the shuffling and evolution step.
pub fn shuffle(bytes: &[u8]) -> (r: Result<SpirvModule, SpirvError>)
    ensures
        spirv_result_is_exact(r, bytes@),
{
    SpirvModule::from_bytes(bytes)
}

} // verus!
