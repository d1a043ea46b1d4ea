//! Graphics pipeline descriptors and their builder.
//!
//! Building the pipeline itself is the API's work; what is decided here is
//! the descriptor the pipeline is built from — which shaders, and which
//! vertex layout — and that nothing needed was left out.

use vstd::prelude::*;
use crate::spirv::SpirvError;
use crate::vertex::VertexDefinition;
use crate::vertex::VertexInputAttributeDescription;
use crate::vertex::VertexInputBindingDescription;

verus! {

/// Why creating a shader module failed, by the API result code returned.
#[derive(Debug, Clone, Copy, PartialEq, Eq, Structural)]
pub enum ShaderModuleError {
    Creation(i32),
}

/// Why a pipeline could not be built while driving the API: a missing
/// input caught by the builder, a shader or layout creation failure, or a
/// failure reading a shader from disk.
#[derive(Debug, Clone, PartialEq, Eq)]
pub enum PipelineError {
    IO(String),
    ShaderModule(ShaderModuleError),
    PipelineLayoutCreation(i32),
    PipelineCreation(i32),
    DescriptorSetLayout(i32),
    Builder(PipelineBuilderError),
}

/// What the pipeline builder found missing or wrong, checked in the order
/// the pipeline needs them.
#[derive(Debug, Clone, PartialEq, Eq)]
pub enum PipelineBuilderError {
    MissingVertexShader,
    MissingFragmentShader,
    MissingVertexDescription,
    MissingViewportState,
    MissingRenderPass,
    InvalidShader(SpirvError),
}

/// What the descriptor builder found missing.
#[derive(Debug, Clone, Copy, PartialEq, Eq, Structural)]
pub enum BuilderError {
    MissingVertexShader,
    MissingFragmentShader,
    MissingVertexDescription,
}

/// Everything a graphics pipeline is built from: the two shader paths and
/// the vertex input layout.
#[derive(Debug, Clone, PartialEq, Eq)]
pub struct GraphicsPipelineDescriptor {
    pub vert: String,
    pub frag: String,
    pub vert_binding_description: Vec<VertexInputBindingDescription>,
    pub vert_attribute_description: Vec<VertexInputAttributeDescription>,
}

impl GraphicsPipelineDescriptor {
    /// An empty builder.
    pub fn builder() -> (r: GraphicsPipelineDescriptorBuilder)
        ensures
            r.vert is None,
            r.frag is None,
            r.vert_binding_description@.len() == 0,
            r.vert_attribute_description@.len() == 0,
    {
        GraphicsPipelineDescriptorBuilder {
            vert: None,
            frag: None,
            vert_attribute_description: Vec::new(),
            vert_binding_description: Vec::new(),
        }
    }
}

/// Collects the parts of a [`GraphicsPipelineDescriptor`] before they are
/// checked for completeness.
#[derive(Debug, Clone, PartialEq, Eq)]
pub struct GraphicsPipelineDescriptorBuilder {
    pub vert: Option<String>,
    pub frag: Option<String>,
    pub vert_binding_description: Vec<VertexInputBindingDescription>,
    pub vert_attribute_description: Vec<VertexInputAttributeDescription>,
}

impl GraphicsPipelineDescriptorBuilder {
    /// Name the vertex shader by its path.
    pub fn vertex_shader(self, path: String) -> (r: GraphicsPipelineDescriptorBuilder)
        ensures
            r.vert == Some(path),
            r.frag == self.frag,
            r.vert_binding_description == self.vert_binding_description,
            r.vert_attribute_description == self.vert_attribute_description,
    {
        GraphicsPipelineDescriptorBuilder { vert: Some(path), ..self }
    }

    /// Name the fragment shader by its path.
    pub fn fragment_shader(self, path: String) -> (r: GraphicsPipelineDescriptorBuilder)
        ensures
            r.frag == Some(path),
            r.vert == self.vert,
            r.vert_binding_description == self.vert_binding_description,
            r.vert_attribute_description == self.vert_attribute_description,
    {
        GraphicsPipelineDescriptorBuilder { frag: Some(path), ..self }
    }

    /// Take the vertex layout from a vertex type.
    pub fn vertex_type<V: VertexDefinition>(self) -> (r: GraphicsPipelineDescriptorBuilder)
        ensures
            r.vert == self.vert,
            r.frag == self.frag,
    {
        let vert_binding_description = V::binding_description();
        let vert_attribute_description = V::attribute_description();
        GraphicsPipelineDescriptorBuilder {
            vert_binding_description,
            vert_attribute_description,
            ..self
        }
    }

    /// Check the collected parts and hand the descriptor out.  A missing
    /// vertex shader is reported before a missing fragment shader, and a
    /// vertex layout with no bindings or no attributes counts as missing.
    pub fn build(self) -> (r: Result<GraphicsPipelineDescriptor, BuilderError>)
        ensures
            self.vert is None ==> r == Err::<GraphicsPipelineDescriptor, BuilderError>(
                BuilderError::MissingVertexShader,
            ),
            self.vert is Some && self.frag is None ==> r == Err::<
                GraphicsPipelineDescriptor,
                BuilderError,
            >(BuilderError::MissingFragmentShader),
            self.vert is Some && self.frag is Some && (self.vert_binding_description@.len() == 0
                || self.vert_attribute_description@.len() == 0) ==> r == Err::<
                GraphicsPipelineDescriptor,
                BuilderError,
            >(BuilderError::MissingVertexDescription),
            self.vert is Some && self.frag is Some && self.vert_binding_description@.len() > 0
                && self.vert_attribute_description@.len() > 0 ==> (r matches Ok(d)
                && d.vert == self.vert.unwrap() && d.frag == self.frag.unwrap()
                && d.vert_binding_description == self.vert_binding_description
                && d.vert_attribute_description == self.vert_attribute_description),
    {
        let vert = match self.vert {
            Some(v) => v,
            None => {
                return Err(BuilderError::MissingVertexShader);
            },
        };
        let frag = match self.frag {
            Some(f) => f,
            None => {
                return Err(BuilderError::MissingFragmentShader);
            },
        };
        if self.vert_binding_description.len() == 0 || self.vert_attribute_description.len() == 0 {
            return Err(BuilderError::MissingVertexDescription);
        }

        let vert_binding_description = self.vert_binding_description;
        let vert_attribute_description = self.vert_attribute_description;

        Ok(
            GraphicsPipelineDescriptor {
                vert,
                frag,
                vert_binding_description,
                vert_attribute_description,
            },
        )
    }
}

} // verus!
