//! Vertex input layouts: how a vertex struct's fields map to attribute
//! descriptions.
//!
//! A vertex type is a packed struct of float vectors.  Its binding
//! description carries the struct's stride, and each field becomes an
//! attribute: located by field order, formatted by the field's size, and
//! offset by the sizes of the fields before it.

use vstd::prelude::*;

verus! {

/// Input rate code of per-vertex data, as the graphics API numbers it.
pub const VERTEX_INPUT_RATE_VERTEX: u32 = 0;

/// Format code of a single 32-bit float.
pub const FORMAT_R32_SFLOAT: i32 = 100;

/// Format code of a vector of two 32-bit floats.
pub const FORMAT_R32G32_SFLOAT: i32 = 103;

/// Format code of a vector of three 32-bit floats.
pub const FORMAT_R32G32B32_SFLOAT: i32 = 106;

/// Format code of a vector of four 32-bit floats.
pub const FORMAT_R32G32B32A32_SFLOAT: i32 = 109;

/// Format code of an undefined format.
pub const FORMAT_UNDEFINED: i32 = 0;

/// How one bound vertex buffer is stepped through: its binding number,
/// the byte stride between vertices, and the input rate.
#[derive(Debug, Clone, Copy, PartialEq, Eq, Structural)]
pub struct VertexInputBindingDescription {
    pub binding: u32,
    pub stride: u32,
    pub input_rate: u32,
}

/// Where one vertex attribute lives: its shader location, the binding it
/// is read from, its format code, and its byte offset inside a vertex.
#[derive(Debug, Clone, Copy, PartialEq, Eq, Structural)]
pub struct VertexInputAttributeDescription {
    pub location: u32,
    pub binding: u32,
    pub format: i32,
    pub offset: u32,
}

/// A vertex type's full input layout.
#[derive(Debug, Clone, PartialEq, Eq)]
pub struct VertexFormat {
    pub binding_description: Vec<VertexInputBindingDescription>,
    pub attribute_description: Vec<VertexInputAttributeDescription>,
}

/// A vertex type, by the descriptions of its layout.
pub trait VertexDefinition {
    fn binding_description() -> Vec<VertexInputBindingDescription>;

    fn attribute_description() -> Vec<VertexInputAttributeDescription>;
}

/// Something that can say how the vertices it holds are laid out.
pub trait VertexSource {
    fn binding_description(&self) -> Vec<VertexInputBindingDescription>;

    fn attribute_description(&self) -> Vec<VertexInputAttributeDescription>;
}

impl<V: VertexDefinition> VertexSource for Vec<V> {
    fn binding_description(&self) -> Vec<VertexInputBindingDescription> {
        V::binding_description()
    }

    fn attribute_description(&self) -> Vec<VertexInputAttributeDescription> {
        V::attribute_description()
    }
}

/// The format code of a field of `size` bytes: one float per four bytes,
/// up to four floats; everything else is undefined.
pub open spec fn size_format_code(size: u32) -> i32 {
    if size == 4 {
        FORMAT_R32_SFLOAT
    } else if size == 8 {
        FORMAT_R32G32_SFLOAT
    } else if size == 12 {
        FORMAT_R32G32B32_SFLOAT
    } else if size == 16 {
        FORMAT_R32G32B32A32_SFLOAT
    } else {
        FORMAT_UNDEFINED
    }
}

/// Map a field's byte size to its attribute format code.
pub fn size_to_vk_format(size: u32) -> (r: i32)
    ensures
        r == size_format_code(size),
{
    if size == 4 {
        FORMAT_R32_SFLOAT
    } else if size == 8 {
        FORMAT_R32G32_SFLOAT
    } else if size == 12 {
        FORMAT_R32G32B32_SFLOAT
    } else if size == 16 {
        FORMAT_R32G32B32A32_SFLOAT
    } else {
        FORMAT_UNDEFINED
    }
}

/// The sum of the first `i` field sizes: the byte offset of field `i` in
/// a packed struct.
pub open spec fn offset_of_field(sizes: Seq<u32>, i: int) -> int
    decreases i,
{
    if i <= 0 {
        0
    } else {
        offset_of_field(sizes, i - 1) + sizes[i - 1]
    }
}

/// Field offsets only grow with the field index.
proof fn lemma_offset_monotonic(sizes: Seq<u32>, i: int, j: int)
    requires
        0 <= i <= j,
    ensures
        offset_of_field(sizes, i) <= offset_of_field(sizes, j),
    decreases j - i,
{
    if i < j {
        lemma_offset_monotonic(sizes, i, j - 1);
    }
}

/// The single binding description of a packed vertex struct of `stride`
/// bytes, bound at binding zero with per-vertex rate.
pub fn binding_description_for(stride: u32) -> (r: Vec<VertexInputBindingDescription>)
    ensures
        r@ == seq![
            VertexInputBindingDescription {
                binding: 0,
                stride,
                input_rate: VERTEX_INPUT_RATE_VERTEX,
            },
        ],
{
    let mut v: Vec<VertexInputBindingDescription> = Vec::new();
    v.push(VertexInputBindingDescription { binding: 0, stride, input_rate: VERTEX_INPUT_RATE_VERTEX });
    proof {
        assert(v@ =~= seq![
            VertexInputBindingDescription {
                binding: 0,
                stride,
                input_rate: VERTEX_INPUT_RATE_VERTEX,
            },
        ]);
    }
    v
}

/// The attribute descriptions of a packed vertex struct whose fields have
/// the given byte sizes: field `i` is attribute `i`, formatted by its
/// size, at the offset its predecessors sum to.
pub fn attribute_descriptions_for(field_sizes: &Vec<u32>) -> (r: Vec<
    VertexInputAttributeDescription,
>)
    requires
        field_sizes@.len() <= u32::MAX,
        offset_of_field(field_sizes@, field_sizes@.len() as int) <= u32::MAX,
    ensures
        r@.len() == field_sizes@.len(),
        forall|i: int|
            0 <= i < r@.len() ==> r@[i] == (VertexInputAttributeDescription {
                location: i as u32,
                binding: 0,
                format: size_format_code(field_sizes@[i]),
                offset: offset_of_field(field_sizes@, i) as u32,
            }),
{
    let n = field_sizes.len();
    let mut attributes: Vec<VertexInputAttributeDescription> = Vec::new();
    let mut offset: u32 = 0;

    for i in 0..n
        invariant
            n == field_sizes@.len(),
            n <= u32::MAX,
            offset_of_field(field_sizes@, n as int) <= u32::MAX,
            offset == offset_of_field(field_sizes@, i as int),
            attributes@.len() == i,
            forall|k: int|
                0 <= k < i ==> attributes@[k] == (VertexInputAttributeDescription {
                    location: k as u32,
                    binding: 0,
                    format: size_format_code(field_sizes@[k]),
                    offset: offset_of_field(field_sizes@, k) as u32,
                }),
    {
        let size = field_sizes[i];
        attributes.push(
            VertexInputAttributeDescription {
                location: i as u32,
                binding: 0,
                format: size_to_vk_format(size),
                offset,
            },
        );
        proof {
            lemma_offset_monotonic(field_sizes@, i + 1, n as int);
        }
        offset = offset + size;
    }
    attributes
}

} // verus!
