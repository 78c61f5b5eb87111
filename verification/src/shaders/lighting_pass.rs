//! Shader modules for the screen-space lighting pass, each built from the
//! compiled SPIR-V bytes of its stage.

use crate::shaders::{spirv_result_is_exact, SpirvError, SpirvModule};
use vstd::prelude::*;

verus! {

/// The vertex stage of the pass.
pub fn vertex_shader(bytes: &[u8]) -> (r: Result<SpirvModule, SpirvError>)
    ensures
        spirv_result_is_exact(r, bytes@),
{
    SpirvModule::from_bytes(bytes)
}

/// The fragment stage of the pass.
pub fn fragment_shader(bytes: &[u8]) -> (r: Result<SpirvModule, SpirvError>)
    ensures
        spirv_result_is_exact(r, bytes@),
{
    SpirvModule::from_bytes(bytes)
}

} // verus!
