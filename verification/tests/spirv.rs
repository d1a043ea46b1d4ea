use trekanten::spirv::map_shader_stage_flags;
use trekanten::spirv::parse_descriptor_sets;
use trekanten::spirv::ReflectedBinding;
use trekanten::spirv::ReflectedDescriptorSet;
use trekanten::spirv::ReflectedDescriptorType;
use trekanten::spirv::ReflectedModule;
use trekanten::spirv::ShaderStage;
use trekanten::spirv::DESCRIPTOR_TYPE_UNIFORM_BUFFER;
use trekanten::spirv::SHADER_STAGE_FRAGMENT;
use trekanten::spirv::SHADER_STAGE_VERTEX;

#[test]
fn parse_descriptor_set_layout() {
    // The reflection of a vertex shader declaring a single uniform buffer
    // object at set 0, binding 0.
    let module = ReflectedModule {
        stage: ShaderStage::Vertex,
        descriptor_sets: vec![ReflectedDescriptorSet {
            set: 0,
            bindings: vec![ReflectedBinding {
                binding: 0,
                descriptor_type: ReflectedDescriptorType::UniformBuffer,
            }],
        }],
    };
    let res = parse_descriptor_sets(&module).expect("Failed to parse!");
    assert_eq!(res.len(), 1);
    assert_eq!(res[0].bindings.len(), 1);
    assert_eq!(res[0].set_idx, 0);

    let binding = res[0].bindings[0];

    assert_eq!(binding.descriptor_type, DESCRIPTOR_TYPE_UNIFORM_BUFFER);
    assert_eq!(binding.binding, 0);
    assert_eq!(binding.descriptor_count, 1);
    assert_eq!(binding.stage_flags, SHADER_STAGE_VERTEX);
}

#[test]
fn stage_flags_map_to_api_bits() {
    assert_eq!(map_shader_stage_flags(&ShaderStage::Vertex), SHADER_STAGE_VERTEX);
    assert_eq!(map_shader_stage_flags(&ShaderStage::Fragment), SHADER_STAGE_FRAGMENT);
    assert_eq!(SHADER_STAGE_VERTEX, 0x1);
    assert_eq!(SHADER_STAGE_FRAGMENT, 0x10);
}

#[test]
fn fragment_module_marks_bindings_with_fragment_stage() {
    let module = ReflectedModule {
        stage: ShaderStage::Fragment,
        descriptor_sets: vec![ReflectedDescriptorSet {
            set: 2,
            bindings: vec![
                ReflectedBinding {
                    binding: 0,
                    descriptor_type: ReflectedDescriptorType::UniformBuffer,
                },
                ReflectedBinding {
                    binding: 3,
                    descriptor_type: ReflectedDescriptorType::UniformBuffer,
                },
            ],
        }],
    };
    let res = parse_descriptor_sets(&module).expect("Failed to parse!");
    assert_eq!(res.len(), 1);
    assert_eq!(res[0].set_idx, 2);
    assert_eq!(res[0].bindings.len(), 2);
    assert_eq!(res[0].bindings[0].binding, 0);
    assert_eq!(res[0].bindings[1].binding, 3);
    assert_eq!(res[0].bindings[1].stage_flags, SHADER_STAGE_FRAGMENT);
}

#[test]
fn module_without_sets_parses_empty() {
    let module = ReflectedModule { stage: ShaderStage::Vertex, descriptor_sets: vec![] };
    let res = parse_descriptor_sets(&module).expect("Failed to parse!");
    assert!(res.is_empty());
}
