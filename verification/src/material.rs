//! Material descriptors and their builder.
//!
//! A material is a graphics pipeline dressed up: it is described by the
//! same two shaders and vertex layout, collected and checked here.

use vstd::prelude::*;
use crate::pipeline::PipelineError;
use crate::vertex::VertexDefinition;
use crate::vertex::VertexInputAttributeDescription;
use crate::vertex::VertexInputBindingDescription;

verus! {

/// What the material builder found missing.
#[derive(Debug, Clone, Copy, PartialEq, Eq, Structural)]
pub enum BuilderError {
    MissingVertexShader,
    MissingFragmentShader,
    MissingVertexDescription,
}

/// Why creating a material failed: its descriptor was incomplete, or the
/// pipeline could not be built from it.
#[derive(Debug, Clone, PartialEq, Eq)]
pub enum MaterialError {
    Builder(BuilderError),
    Pipeline(PipelineError),
}

/// Everything a material is created from: the two shader paths and the
/// vertex input layout.
#[derive(Debug, Clone, PartialEq, Eq)]
pub struct MaterialDescriptor {
    pub vert: String,
    pub frag: String,
    pub vert_binding_description: Vec<VertexInputBindingDescription>,
    pub vert_attribute_description: Vec<VertexInputAttributeDescription>,
}

impl MaterialDescriptor {
    /// An empty builder.
    pub fn builder() -> (r: MaterialDescriptorBuilder)
        ensures
            r.vert is None,
            r.frag is None,
            r.vert_binding_description@.len() == 0,
            r.vert_attribute_description@.len() == 0,
    {
        MaterialDescriptorBuilder {
            vert: None,
            frag: None,
            vert_attribute_description: Vec::new(),
            vert_binding_description: Vec::new(),
        }
    }
}

/// Collects the parts of a [`MaterialDescriptor`] before they are checked
/// for completeness.
#[derive(Debug, Clone, PartialEq, Eq)]
pub struct MaterialDescriptorBuilder {
    pub vert: Option<String>,
    pub frag: Option<String>,
    pub vert_binding_description: Vec<VertexInputBindingDescription>,
    pub vert_attribute_description: Vec<VertexInputAttributeDescription>,
}

impl MaterialDescriptorBuilder {
    /// Name the vertex shader by its path.
    pub fn vertex_shader(self, path: String) -> (r: MaterialDescriptorBuilder)
        ensures
            r.vert == Some(path),
            r.frag == self.frag,
            r.vert_binding_description == self.vert_binding_description,
            r.vert_attribute_description == self.vert_attribute_description,
    {
        MaterialDescriptorBuilder { vert: Some(path), ..self }
    }

    /// Name the fragment shader by its path.
    pub fn fragment_shader(self, path: String) -> (r: MaterialDescriptorBuilder)
        ensures
            r.frag == Some(path),
            r.vert == self.vert,
            r.vert_binding_description == self.vert_binding_description,
            r.vert_attribute_description == self.vert_attribute_description,
    {
        MaterialDescriptorBuilder { frag: Some(path), ..self }
    }

    /// Take the vertex layout from a vertex type.
    pub fn vertex_type<V: VertexDefinition>(self) -> (r: MaterialDescriptorBuilder)
        ensures
            r.vert == self.vert,
            r.frag == self.frag,
    {
        let vert_binding_description = V::binding_description();
        let vert_attribute_description = V::attribute_description();
        MaterialDescriptorBuilder { vert_binding_description, vert_attribute_description, ..self }
    }

    /// Check the collected parts and hand the descriptor out, reporting
    /// the first missing part in the order the pipeline needs them.
    pub fn build(self) -> (r: Result<MaterialDescriptor, MaterialError>)
        ensures
            self.vert is None ==> r == Err::<MaterialDescriptor, MaterialError>(
                MaterialError::Builder(BuilderError::MissingVertexShader),
            ),
            self.vert is Some && self.frag is None ==> r == Err::<MaterialDescriptor, MaterialError>(
                MaterialError::Builder(BuilderError::MissingFragmentShader),
            ),
            self.vert is Some && self.frag is Some && (self.vert_binding_description@.len() == 0
                || self.vert_attribute_description@.len() == 0) ==> r == Err::<
                MaterialDescriptor,
                MaterialError,
            >(MaterialError::Builder(BuilderError::MissingVertexDescription)),
            self.vert is Some && self.frag is Some && self.vert_binding_description@.len() > 0
                && self.vert_attribute_description@.len() > 0 ==> (r matches Ok(d)
                && d.vert == self.vert.unwrap() && d.frag == self.frag.unwrap()
                && d.vert_binding_description == self.vert_binding_description
                && d.vert_attribute_description == self.vert_attribute_description),
    {
        let vert = match self.vert {
            Some(v) => v,
            None => {
                return Err(MaterialError::Builder(BuilderError::MissingVertexShader));
            },
        };
        let frag = match self.frag {
            Some(f) => f,
            None => {
                return Err(MaterialError::Builder(BuilderError::MissingFragmentShader));
            },
        };
        if self.vert_binding_description.len() == 0 || self.vert_attribute_description.len() == 0 {
            return Err(MaterialError::Builder(BuilderError::MissingVertexDescription));
        }

        let vert_binding_description = self.vert_binding_description;
        let vert_attribute_description = self.vert_attribute_description;

        Ok(MaterialDescriptor { vert, frag, vert_binding_description, vert_attribute_description })
    }
}

} // verus!
