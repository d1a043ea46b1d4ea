//! Descriptor set layouts from reflected shader modules.
//!
//! A shader binary is reflected (by outside tooling) into which descriptor
//! sets and bindings it declares; the functions here turn that reflection
//! into the descriptor set layout data the pipeline is built with.

use vstd::prelude::*;

verus! {

/// Why shader reflection data could not be used.
#[derive(Debug, Clone, PartialEq, Eq)]
pub enum SpirvError {
    Loading(String),
    Parsing(String),
}

/// The shader stages the pipeline knows how to place bindings in.
#[derive(Debug, Clone, Copy, PartialEq, Eq, Structural)]
pub enum ShaderStage {
    Vertex,
    Fragment,
}

/// The kinds of descriptor a reflected binding may declare.
#[derive(Debug, Clone, Copy, PartialEq, Eq, Structural)]
pub enum ReflectedDescriptorType {
    UniformBuffer,
    CombinedImageSampler,
    StorageBuffer,
}

/// One binding a shader declares: its binding number and what kind of
/// descriptor it takes.
#[derive(Debug, Clone, Copy, PartialEq, Eq, Structural)]
pub struct ReflectedBinding {
    pub binding: u32,
    pub descriptor_type: ReflectedDescriptorType,
}

/// One descriptor set a shader declares: its set number and its bindings.
#[derive(Debug, Clone, PartialEq, Eq)]
pub struct ReflectedDescriptorSet {
    pub set: u32,
    pub bindings: Vec<ReflectedBinding>,
}

/// What reflection reads out of one shader module: the stage it runs in
/// and the descriptor sets it declares.
#[derive(Debug, Clone, PartialEq, Eq)]
pub struct ReflectedModule {
    pub stage: ShaderStage,
    pub descriptor_sets: Vec<ReflectedDescriptorSet>,
}

/// Stage flag bit of the vertex stage, as the graphics API numbers it.
pub const SHADER_STAGE_VERTEX: u32 = 1;

/// Stage flag bit of the fragment stage, as the graphics API numbers it.
pub const SHADER_STAGE_FRAGMENT: u32 = 16;

/// Descriptor type code of a uniform buffer, as the graphics API numbers
/// it.
pub const DESCRIPTOR_TYPE_UNIFORM_BUFFER: i32 = 6;

/// One binding of a descriptor set layout, in the graphics API's terms.
#[derive(Debug, Clone, Copy, PartialEq, Eq, Structural)]
pub struct DescriptorSetLayoutBinding {
    pub binding: u32,
    pub descriptor_type: i32,
    pub descriptor_count: u32,
    pub stage_flags: u32,
}

/// The layout of one descriptor set: its set number and its bindings.
#[derive(Debug, Clone, PartialEq, Eq)]
pub struct DescriptorSetLayoutData {
    pub set_idx: usize,
    pub bindings: Vec<DescriptorSetLayoutBinding>,
}

/// The stage flag a reflected stage maps to.
pub open spec fn stage_flags_spec(stage: ShaderStage) -> u32 {
    match stage {
        ShaderStage::Vertex => SHADER_STAGE_VERTEX,
        ShaderStage::Fragment => SHADER_STAGE_FRAGMENT,
    }
}

/// Map a reflected shader stage to the API's stage flag bit.
pub fn map_shader_stage_flags(refl_stage: &ShaderStage) -> (r: u32)
    ensures
        r == stage_flags_spec(*refl_stage),
{
    match refl_stage {
        ShaderStage::Vertex => SHADER_STAGE_VERTEX,
        ShaderStage::Fragment => SHADER_STAGE_FRAGMENT,
    }
}

/// Map a reflected descriptor type to the API's code.  Only uniform
/// buffers are supported.
pub fn map_descriptor_type(refl_desc_ty: &ReflectedDescriptorType) -> (r: i32)
    requires
        *refl_desc_ty is UniformBuffer,
    ensures
        r == DESCRIPTOR_TYPE_UNIFORM_BUFFER,
{
    match refl_desc_ty {
        ReflectedDescriptorType::UniformBuffer => DESCRIPTOR_TYPE_UNIFORM_BUFFER,
        _ => vstd::pervasive::unreached(),
    }
}

/// The layout binding a reflected binding of a module in `stage` maps to:
/// one descriptor of its type, visible to that stage.
pub open spec fn layout_binding_spec(b: ReflectedBinding, stage: ShaderStage) -> DescriptorSetLayoutBinding {
    DescriptorSetLayoutBinding {
        binding: b.binding,
        descriptor_type: DESCRIPTOR_TYPE_UNIFORM_BUFFER,
        descriptor_count: 1,
        stage_flags: stage_flags_spec(stage),
    }
}

/// Whether every binding the module declares is of a supported descriptor
/// type.
pub open spec fn all_bindings_supported(module: ReflectedModule) -> bool {
    forall|i: int, j: int|
        0 <= i < module.descriptor_sets@.len() && 0 <= j
            < module.descriptor_sets@[i].bindings@.len()
            ==> module.descriptor_sets@[i].bindings@[j].descriptor_type
            is UniformBuffer
}

/// Whether `data` lays out exactly the descriptor sets `module` declares:
/// one layout per set, in order, each binding mapped by
/// [`layout_binding_spec`].
pub open spec fn layouts_match_module(data: Seq<DescriptorSetLayoutData>, module: ReflectedModule) -> bool {
    &&& data.len() == module.descriptor_sets@.len()
    &&& forall|i: int|
        0 <= i < data.len() ==> (#[trigger] data[i]).set_idx == module.descriptor_sets@[i].set
            as usize
    &&& forall|i: int|
        0 <= i < data.len() ==> (#[trigger] data[i]).bindings@.len()
            == module.descriptor_sets@[i].bindings@.len()
    &&& forall|i: int, j: int|
        0 <= i < data.len() && 0 <= j < data[i].bindings@.len() ==> (#[trigger] data[i].bindings@[j])
            == layout_binding_spec(module.descriptor_sets@[i].bindings@[j], module.stage)
}

/// Turn a reflected module into the descriptor set layouts the pipeline
/// needs: one layout per declared set, each binding with one descriptor
/// and the module's stage flag.
pub fn parse_descriptor_sets(module: &ReflectedModule) -> (r: Result<
    Vec<DescriptorSetLayoutData>,
    SpirvError,
>)
    requires
        all_bindings_supported(*module),
    ensures
        r matches Ok(data) && layouts_match_module(data@, *module),
{
    let shader_stage = map_shader_stage_flags(&module.stage);
    let n = module.descriptor_sets.len();
    let mut ret: Vec<DescriptorSetLayoutData> = Vec::new();

    for i in 0..n
        invariant
            n == module.descriptor_sets@.len(),
            all_bindings_supported(*module),
            shader_stage == stage_flags_spec(module.stage),
            ret@.len() == i,
            forall|k: int|
                0 <= k < i ==> (#[trigger] ret@[k]).set_idx == module.descriptor_sets@[k].set
                    as usize,
            forall|k: int|
                0 <= k < i ==> (#[trigger] ret@[k]).bindings@.len()
                    == module.descriptor_sets@[k].bindings@.len(),
            forall|k: int, j: int|
                0 <= k < i && 0 <= j < ret@[k].bindings@.len() ==> (#[trigger] ret@[k].bindings@[j])
                    == layout_binding_spec(
                    module.descriptor_sets@[k].bindings@[j],
                    module.stage,
                ),
    {
        let refl_desc_set = &module.descriptor_sets[i];
        let set_idx = refl_desc_set.set;
        let m = refl_desc_set.bindings.len();
        let mut bindings: Vec<DescriptorSetLayoutBinding> = Vec::new();
        for j in 0..m
            invariant
                all_bindings_supported(*module),
                0 <= i < module.descriptor_sets@.len(),
                m == module.descriptor_sets@[i as int].bindings@.len(),
                refl_desc_set == &module.descriptor_sets@[i as int],
                shader_stage == stage_flags_spec(module.stage),
                bindings@.len() == j,
                forall|k: int|
                    0 <= k < j ==> bindings@[k] == layout_binding_spec(
                        module.descriptor_sets@[i as int].bindings@[k],
                        module.stage,
                    ),
        {
            let refl_binding = &refl_desc_set.bindings[j];
            bindings.push(
                DescriptorSetLayoutBinding {
                    binding: refl_binding.binding,
                    descriptor_type: map_descriptor_type(&refl_binding.descriptor_type),
                    descriptor_count: 1,
                    stage_flags: shader_stage,
                },
            );
        }

        ret.push(DescriptorSetLayoutData { set_idx: set_idx as usize, bindings });
    }

    Ok(ret)
}

} // verus!
