//! Binding layouts and bindings: the description of one resource slot of a
//! bind group, and the resources instantiated from it.

use crate::flags::ShaderStage;
use vstd::prelude::*;

pub mod buffer;
pub mod sampler;
pub mod texture;

verus! {

/// Dimensions of the view a shader has of a texture.
#[derive(Clone, Copy, Debug, PartialEq, Eq, Structural)]
pub enum TextureViewDimension {
    D1,
    D2,
    D2Array,
    Cube,
    CubeArray,
    D3,
}

/// Type of the components a shader reads from a texture.
#[derive(Clone, Copy, Debug, PartialEq, Eq, Structural)]
pub enum TextureComponentType {
    Float,
    Sint,
    Uint,
}

/// Shape of the resource in a slot.
#[derive(Clone, Copy, Debug, PartialEq, Eq, Structural)]
pub enum BindingType {
    /// A buffer of uniform values, with the least size a bound buffer must
    /// have, if one is declared.
    UniformBuffer { dynamic: bool, min_binding_size: Option<u64> },
    /// A sampler, for comparison sampling or not.
    Sampler { comparison: bool },
    /// A texture read through a sampler.
    SampledTexture {
        dimension: TextureViewDimension,
        component_type: TextureComponentType,
        multisampled: bool,
    },
}

/// One slot of a bind group layout: where it is bound, which stages see it,
/// and the shape of the resource in it.
#[derive(Clone, Copy, Debug, PartialEq, Eq, Structural)]
pub struct BindGroupLayoutEntry {
    pub binding: u32,
    pub visibility: ShaderStage,
    pub ty: BindingType,
    /// Number of array elements, for a slot that holds an array of textures.
    pub count: Option<u32>,
}

/// The description of a resource slot, from which bindings are created.
pub trait BindingLayout {
    /// The slot this layout describes.
    spec fn entry(&self) -> BindGroupLayoutEntry;

    /// The slot this layout describes.
    fn get_entry(&self) -> (entry: BindGroupLayoutEntry)
        ensures
            entry == self.entry(),
    ;
}

/// A resource as it is handed to a bind group. The number is the one under
/// which the table of resources knows it.
#[derive(Clone, Copy, Debug, PartialEq, Eq, Structural)]
pub enum BindingResource {
    Buffer(usize),
    Sampler(usize),
    TextureView(usize),
}

impl BindingResource {
    /// The number of the resource.
    pub open spec fn id_spec(self) -> usize {
        match self {
            BindingResource::Buffer(id) => id,
            BindingResource::Sampler(id) => id,
            BindingResource::TextureView(id) => id,
        }
    }

    /// The number of the resource.
    #[verifier::when_used_as_spec(id_spec)]
    pub fn id(self) -> (id: usize)
        ensures
            id == self.id_spec(),
    {
        match self {
            BindingResource::Buffer(id) => id,
            BindingResource::Sampler(id) => id,
            BindingResource::TextureView(id) => id,
        }
    }
}

/// A resource that can be bound.
pub trait Binding {
    /// The resource behind this binding.
    spec fn resource(&self) -> BindingResource;

    /// The resource behind this binding.
    fn get_resource(&self) -> (resource: BindingResource)
        ensures
            resource == self.resource(),
    ;
}

/// The resources created so far, each with the slot it was created for. A
/// resource is known by its position in this table, which never changes.
#[derive(Debug)]
pub struct Resources {
    entries: Vec<BindGroupLayoutEntry>,
}

impl View for Resources {
    type V = Seq<BindGroupLayoutEntry>;

    closed spec fn view(&self) -> Seq<BindGroupLayoutEntry> {
        self.entries@
    }
}

impl Resources {
    /// An empty table.
    pub fn new() -> (table: Resources)
        ensures
            table@ == Seq::<BindGroupLayoutEntry>::empty(),
    {
        Resources { entries: Vec::new() }
    }

    /// Number of resources created so far.
    pub fn len(&self) -> (n: usize)
        ensures
            n == self@.len(),
    {
        self.entries.len()
    }

    /// Enters a resource created for the slot `entry`, and returns its number:
    /// the count of resources entered before it.
    pub fn register(&mut self, entry: BindGroupLayoutEntry) -> (id: usize)
        ensures
            id == old(self)@.len(),
            final(self)@ == old(self)@.push(entry),
    {
        let id = self.entries.len();
        self.entries.push(entry);
        id
    }

    /// The slot the resource `id` was created for, if there is such a
    /// resource.
    pub fn entry_of(&self, id: usize) -> (entry: Option<BindGroupLayoutEntry>)
        ensures
            entry == if id < self@.len() {
                Some(self@[id as int])
            } else {
                None
            },
    {
        if id < self.entries.len() {
            Some(self.entries[id])
        } else {
            None
        }
    }
}

} // verus!
