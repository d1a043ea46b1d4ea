use trekanten::material;
use trekanten::material::MaterialDescriptor;
use trekanten::material::MaterialError;
use trekanten::pipeline::BuilderError;
use trekanten::pipeline::GraphicsPipelineDescriptor;
use trekanten::vertex::VertexDefinition;
use trekanten::vertex::VertexInputAttributeDescription;
use trekanten::vertex::VertexInputBindingDescription;

struct TriangleVertex;

impl VertexDefinition for TriangleVertex {
    fn binding_description() -> Vec<VertexInputBindingDescription> {
        vec![VertexInputBindingDescription { binding: 0, stride: 20, input_rate: 0 }]
    }

    fn attribute_description() -> Vec<VertexInputAttributeDescription> {
        vec![
            VertexInputAttributeDescription { location: 0, binding: 0, format: 103, offset: 0 },
            VertexInputAttributeDescription { location: 1, binding: 0, format: 106, offset: 8 },
        ]
    }
}

#[test]
fn pipeline_builder_full_descriptor() {
    let d = GraphicsPipelineDescriptor::builder()
        .vertex_shader(String::from("vert.spv"))
        .fragment_shader(String::from("frag.spv"))
        .vertex_type::<TriangleVertex>()
        .build()
        .expect("Failed to create graphics pipeline desc");
    assert_eq!(d.vert, "vert.spv");
    assert_eq!(d.frag, "frag.spv");
    assert_eq!(d.vert_binding_description.len(), 1);
    assert_eq!(d.vert_attribute_description.len(), 2);
}

#[test]
fn pipeline_builder_missing_vertex_shader() {
    let r = GraphicsPipelineDescriptor::builder()
        .fragment_shader(String::from("frag.spv"))
        .vertex_type::<TriangleVertex>()
        .build();
    assert!(matches!(r, Err(BuilderError::MissingVertexShader)));
}

#[test]
fn pipeline_builder_missing_fragment_shader() {
    let r = GraphicsPipelineDescriptor::builder()
        .vertex_shader(String::from("vert.spv"))
        .vertex_type::<TriangleVertex>()
        .build();
    assert!(matches!(r, Err(BuilderError::MissingFragmentShader)));
}

#[test]
fn pipeline_builder_missing_vertex_description() {
    let r = GraphicsPipelineDescriptor::builder()
        .vertex_shader(String::from("vert.spv"))
        .fragment_shader(String::from("frag.spv"))
        .build();
    assert!(matches!(r, Err(BuilderError::MissingVertexDescription)));
}

#[test]
fn material_builder_full_descriptor() {
    let d = MaterialDescriptor::builder()
        .vertex_shader(String::from("vert.spv"))
        .fragment_shader(String::from("frag.spv"))
        .vertex_type::<TriangleVertex>()
        .build()
        .expect("Failed to create material desc");
    assert_eq!(d.vert, "vert.spv");
    assert_eq!(d.frag, "frag.spv");
}

#[test]
fn material_builder_reports_missing_parts() {
    let r = MaterialDescriptor::builder().build();
    assert!(matches!(
        r,
        Err(MaterialError::Builder(material::BuilderError::MissingVertexShader))
    ));

    let r = MaterialDescriptor::builder().vertex_shader(String::from("v")).build();
    assert!(matches!(
        r,
        Err(MaterialError::Builder(material::BuilderError::MissingFragmentShader))
    ));

    let r = MaterialDescriptor::builder()
        .vertex_shader(String::from("v"))
        .fragment_shader(String::from("f"))
        .build();
    assert!(matches!(
        r,
        Err(MaterialError::Builder(material::BuilderError::MissingVertexDescription))
    ));
}
