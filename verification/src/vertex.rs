//! Vertices and the layout of a vertex buffer.

use crate::format::VertexFormat;
use crate::vector::{push_vector3, Vector3};
use crate::words::{lemma_words_bytes_concat, words_bytes};
use vstd::prelude::*;

verus! {

/// A vertex type: it declares the formats of its attributes, in the order
/// in which they lie in the vertex buffer, and gives its bytes.
pub trait Vertex {
    /// The formats of the attributes.
    fn get_attribute_formats() -> Vec<VertexFormat>;

    /// The bytes of this vertex as they go into the vertex buffer.
    fn to_bytes(&self) -> Vec<u8>;
}

/// Whether vertex data is advanced per vertex or per instance.
#[derive(Clone, Copy, Debug, PartialEq, Eq, Structural)]
pub enum InputStepMode {
    Vertex,
    Instance,
}

/// One attribute of a vertex buffer.
#[derive(Clone, Copy, Debug, PartialEq, Eq, Structural)]
pub struct VertexAttributeDescriptor {
    /// Byte offset of the attribute within a vertex.
    pub offset: u64,
    pub format: VertexFormat,
    /// Location of the attribute in the shader.
    pub shader_location: u32,
}

/// The layout of a vertex buffer.
#[derive(Debug)]
pub struct VertexBufferDescriptor {
    /// Bytes from one vertex to the next.
    pub stride: u64,
    pub step_mode: InputStepMode,
    pub attributes: Vec<VertexAttributeDescriptor>,
}

/// Bytes taken by attributes of these formats, tightly packed.
pub open spec fn attributes_size(formats: Seq<VertexFormat>) -> nat
    decreases formats.len(),
{
    if formats.len() == 0 {
        0
    } else {
        attributes_size(formats.drop_last()) + formats.last().size_spec()
    }
}

/// The attribute at position `i` of a tightly packed vertex with attributes
/// of these formats: it starts where the attributes before it end, and its
/// shader location is its position.
pub open spec fn attribute_at(formats: Seq<VertexFormat>, i: int) -> VertexAttributeDescriptor {
    VertexAttributeDescriptor {
        offset: attributes_size(formats.take(i)) as u64,
        format: formats[i],
        shader_location: i as u32,
    }
}

/// Whether `layout` is the per-vertex layout of tightly packed vertices with
/// attributes of these formats.
pub open spec fn is_packed_layout(
    layout: VertexBufferDescriptor,
    formats: Seq<VertexFormat>,
) -> bool {
    &&& layout.stride == attributes_size(formats)
    &&& layout.step_mode == InputStepMode::Vertex
    &&& layout.attributes@.len() == formats.len()
    &&& forall|i: int|
        0 <= i < formats.len() ==> #[trigger] layout.attributes@[i] == attribute_at(formats, i)
}

/// Lays out tightly packed vertices with attributes of these formats.
/// There is no such layout only if there are more than `u32::MAX`
/// attributes, which cannot be given shader locations.
pub fn vertex_buffer_layout(formats: &Vec<VertexFormat>) -> (layout: Option<VertexBufferDescriptor>)
    ensures
        layout is Some <==> formats@.len() <= u32::MAX,
        layout is Some ==> is_packed_layout(layout->0, formats@),
{
    let n = formats.len();
    if n > u32::MAX as usize {
        return None;
    }
    let mut attributes: Vec<VertexAttributeDescriptor> = Vec::new();
    let mut offset: u64 = 0;
    let mut i: usize = 0;
    while i < n
        invariant
            n == formats@.len(),
            n <= u32::MAX,
            i <= n,
            offset == attributes_size(formats@.take(i as int)),
            offset <= 16 * i,
            attributes@.len() == i,
            forall|k: int| 0 <= k < i ==> #[trigger] attributes@[k] == attribute_at(formats@, k),
        decreases n - i,
    {
        let format = formats[i];
        attributes.push(VertexAttributeDescriptor { offset, format, shader_location: i as u32 });
        proof {
            let next = formats@.take(i + 1);
            assert(next.drop_last() =~= formats@.take(i as int));
            assert(next.last() == formats@[i as int]);
        }
        offset = offset + format.size();
        i = i + 1;
    }
    proof {
        assert(formats@.take(n as int) =~= formats@);
    }
    Some(VertexBufferDescriptor { stride: offset, step_mode: InputStepMode::Vertex, attributes })
}

} // verus!

verus! {

/// Whether two lists of formats are the same list.
pub fn same_formats(a: &Vec<VertexFormat>, b: &Vec<VertexFormat>) -> (same: bool)
    ensures
        same == (a@ == b@),
{
    if a.len() != b.len() {
        return false;
    }
    let mut i: usize = 0;
    while i < a.len()
        invariant
            a@.len() == b@.len(),
            i <= a@.len(),
            forall|k: int| 0 <= k < i ==> a@[k] == b@[k],
        decreases a@.len() - i,
    {
        if a[i] != b[i] {
            return false;
        }
        i = i + 1;
    }
    assert(a@ =~= b@);
    true
}

/// A copy of a list of formats.
pub fn copy_formats(formats: &Vec<VertexFormat>) -> (copy: Vec<VertexFormat>)
    ensures
        copy@ == formats@,
{
    let mut copy: Vec<VertexFormat> = Vec::new();
    let mut i: usize = 0;
    while i < formats.len()
        invariant
            i <= formats@.len(),
            copy@ == formats@.take(i as int),
        decreases formats@.len() - i,
    {
        copy.push(formats[i]);
        assert(formats@.take(i + 1) =~= formats@.take(i as int).push(formats@[i as int]));
        i = i + 1;
    }
    assert(formats@.take(formats@.len() as int) =~= formats@);
    copy
}

/// A vertex with a position and a normal.
#[derive(Clone, Copy, Debug, PartialEq, Eq, Structural)]
pub struct VertexBasic {
    pub position: Vector3,
    pub normal: Vector3,
}

impl VertexBasic {
    /// The six words of the vertex: position, then normal.
    pub open spec fn words(self) -> Seq<u32> {
        self.position.words() + self.normal.words()
    }
}

impl Vertex for VertexBasic {
    /// Two attributes of three floats each.
    fn get_attribute_formats() -> (formats: Vec<VertexFormat>)
        ensures
            formats@ == seq![VertexFormat::Float3, VertexFormat::Float3],
    {
        let mut formats: Vec<VertexFormat> = Vec::new();
        formats.push(VertexFormat::Float3);
        formats.push(VertexFormat::Float3);
        assert(formats@ =~= seq![VertexFormat::Float3, VertexFormat::Float3]);
        formats
    }

    /// The 24 bytes of the six words.
    fn to_bytes(&self) -> (bytes: Vec<u8>)
        ensures
            bytes@ == words_bytes(self.words()),
            bytes@.len() == 24,
    {
        let mut bytes: Vec<u8> = Vec::new();
        push_vector3(&mut bytes, self.position);
        push_vector3(&mut bytes, self.normal);
        proof {
            lemma_words_bytes_concat(self.position.words(), self.normal.words());
            crate::words::lemma_words_bytes_len(self.words());
            assert(bytes@ =~= words_bytes(self.words()));
        }
        bytes
    }
}

} // verus!
