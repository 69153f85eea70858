//! The shader-stage plan of the graphics pipeline: one vertex stage and one
//! fragment stage, each naming the shader module to run. Loading bytecode and
//! creating the modules happen outside this library; the plan is built here
//! from the modules' plain handles.

use vstd::prelude::*;

verus! {

/// The pipeline stage a shader module is bound to.
#[derive(Clone, Copy, PartialEq, Eq, Structural, Debug)]
pub enum ShaderStage {
    Vertex,
    Fragment,
}

/// One stage of the pipeline plan: the stage kind and the handle of the
/// shader module to run there. Every stage enters its module at its `main`
/// function.
#[derive(Clone, Copy, PartialEq, Eq, Structural, Debug)]
pub struct ShaderStageDesc {
    pub stage: ShaderStage,
    pub module: u64,
}

/// Plan the walkthrough's two pipeline stages: the vertex stage first, the
/// fragment stage second, each with its module.
pub fn shader_stage_plan(vert_module: u64, frag_module: u64) -> (r: Vec<ShaderStageDesc>)
    ensures
        r@ =~= seq![
            ShaderStageDesc { stage: ShaderStage::Vertex, module: vert_module },
            ShaderStageDesc { stage: ShaderStage::Fragment, module: frag_module },
        ],
{
    let mut plan: Vec<ShaderStageDesc> = Vec::new();
    plan.push(ShaderStageDesc { stage: ShaderStage::Vertex, module: vert_module });
    plan.push(ShaderStageDesc { stage: ShaderStage::Fragment, module: frag_module });
    plan
}

} // verus!
