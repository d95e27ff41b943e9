//! The objects of a scene: a transform and a color each, alone or as the
//! instances of one instanced draw.

use crate::binding::buffer::{BufferBinding, BufferBindingLayout};
use crate::binding::{BindGroupLayoutEntry, Binding, BindingLayout, BindingResource};
use crate::flags::ShaderStage;
use crate::graphics::{GraphicsManager, GraphicsView};
use crate::handle::BindingHandle;
use crate::vector::{push_matrix4, push_vector3, Matrix4, Vector3, ONE, ZERO};
use crate::words::{
    lemma_words_bytes, lemma_words_bytes_concat, lemma_words_bytes_single, push_word, word_at,
    words_bytes,
};
use vstd::prelude::*;

verus! {

/// Words of the uniform block of one object: a matrix, and a color padded to
/// four numbers.
pub const OBJECT_WORDS: u64 = 20;

/// Bytes of the uniform block of one object.
pub const OBJECT_BYTES: u64 = 80;

/// The state of one object: the matrix that places it in the world, and its
/// color.
#[derive(Clone, Copy, Debug, PartialEq, Eq, Structural)]
pub struct Object {
    pub transform: Matrix4,
    pub color: Vector3,
}

impl Object {
    /// A white object at the origin: the identity as transform.
    pub open spec fn initial() -> Object {
        Object { transform: Matrix4::identity_spec(), color: Vector3 { x: ONE, y: ONE, z: ONE } }
    }

    /// A white object at the origin.
    pub fn new() -> (object: Object)
        ensures
            object == Object::initial(),
    {
        Object { transform: Matrix4::identity(), color: Vector3 { x: ONE, y: ONE, z: ONE } }
    }

    /// The words of the uniform block: the transform, the color, a word of
    /// padding.
    pub open spec fn words(self) -> Seq<u32> {
        self.transform.words() + self.color.words() + seq![ZERO]
    }

    /// Sets the color from its red, green and blue parts, and leaves the
    /// transform as it is.
    pub fn set_color(&mut self, r: u32, g: u32, b: u32) -> (object: &mut Object)
        ensures
            *object == (Object { color: Vector3 { x: r, y: g, z: b }, ..*old(self) }),
            *final(self) == *final(object),
    {
        self.color = Vector3 { x: r, y: g, z: b };
        self
    }

    /// Sets the transform, and leaves the color as it is.
    pub fn set_transform(&mut self, transform: Matrix4) -> (object: &mut Object)
        ensures
            *object == (Object { transform, ..*old(self) }),
            *final(self) == *final(object),
    {
        self.transform = transform;
        self
    }

    /// The color that was set last.
    pub fn get_color(&self) -> (color: Vector3)
        ensures
            color == self.color,
    {
        self.color
    }

    /// The transform that was set last.
    pub fn get_transform(&self) -> (transform: Matrix4)
        ensures
            transform == self.transform,
    {
        self.transform
    }
}

/// Appends the bytes of the uniform block of `object`.
fn push_object(bytes: &mut Vec<u8>, object: Object)
    ensures
        final(bytes)@ == old(bytes)@ + words_bytes(object.words()),
{
    push_matrix4(bytes, object.transform);
    push_vector3(bytes, object.color);
    push_word(bytes, ZERO);
    proof {
        let t = object.transform.words();
        let c = object.color.words();
        let pad = seq![ZERO];
        lemma_words_bytes_single(ZERO);
        lemma_words_bytes_concat(t, c);
        lemma_words_bytes_concat(t + c, pad);
        assert(bytes@ =~= old(bytes)@ + words_bytes(object.words()));
    }
}

/// Layout of the slot of a single object.
#[derive(Clone, Copy, Debug, PartialEq, Eq, Structural)]
pub struct ShapeHandleLayout {
    pub layout: BufferBindingLayout,
}

impl ShapeHandleLayout {
    /// The layout of an object at `binding`, seen by the stages of
    /// `visibility`.
    pub fn new(binding: u32, visibility: ShaderStage) -> (layout: ShapeHandleLayout)
        ensures
            layout.layout == (BufferBindingLayout { binding, visibility, size: OBJECT_BYTES }),
    {
        ShapeHandleLayout {
            layout: BufferBindingLayout::new_uniform(binding, visibility, OBJECT_BYTES),
        }
    }

    /// Creates a white object at the origin, with a uniform buffer entered
    /// in the table of resources under the next free number.
    pub fn create_handle(&self, graphics: &mut GraphicsManager) -> (shape: ShapeHandle)
        ensures
            shape.object == Object::initial(),
            shape.binding.id == old(graphics)@.resources.len(),
            shape.binding.buffer.size == self.layout.size,
            shape.binding.buffer.usage@ == 72,
            !shape.binding.buffer.mapped_at_creation,
            final(graphics)@ == (GraphicsView {
                resources: old(graphics)@.resources.push(self.entry()),
                ..old(graphics)@
            }),
    {
        let binding = graphics.create_buffer(&self.layout);
        ShapeHandle { binding, object: Object::new() }
    }
}

impl BindingLayout for ShapeHandleLayout {
    open spec fn entry(&self) -> BindGroupLayoutEntry {
        self.layout.entry()
    }

    fn get_entry(&self) -> (entry: BindGroupLayoutEntry) {
        self.layout.get_entry()
    }
}

/// A single object: its uniform buffer and, mirrored on the CPU, its state.
#[derive(Clone, Copy, Debug, PartialEq, Eq, Structural)]
pub struct ShapeHandle {
    pub binding: BufferBinding,
    pub object: Object,
}

impl ShapeHandle {
    /// The state of the object, to read or to change.
    pub fn get_object(&mut self) -> (object: &mut Object)
        ensures
            *object == old(self).object,
            *final(self) == (ShapeHandle { object: *final(object), ..*old(self) }),
    {
        &mut self.object
    }
}

impl Binding for ShapeHandle {
    open spec fn resource(&self) -> BindingResource {
        BindingResource::Buffer(self.binding.id)
    }

    fn get_resource(&self) -> (resource: BindingResource) {
        BindingResource::Buffer(self.binding.id)
    }
}

impl BindingHandle for ShapeHandle {
    open spec fn contents(&self) -> Seq<u8> {
        words_bytes(self.object.words())
    }

    fn write(&self) -> (bytes: Vec<u8>) {
        let mut bytes: Vec<u8> = Vec::new();
        push_object(&mut bytes, self.object);
        assert(bytes@ =~= words_bytes(self.object.words()));
        bytes
    }
}

/// The words of the uniform blocks of `objects`, one block after the other.
pub open spec fn objects_words(objects: Seq<Object>) -> Seq<u32>
    decreases objects.len(),
{
    if objects.len() == 0 {
        Seq::empty()
    } else {
        objects_words(objects.drop_last()) + objects.last().words()
    }
}

/// The blocks take twenty words per object, and the block of the object at
/// position `k`, the instance `k` of an instanced draw, starts at the word
/// `20 * k`.
pub proof fn lemma_objects_words(objects: Seq<Object>, k: int)
    requires
        0 <= k < objects.len(),
    ensures
        objects_words(objects).len() == OBJECT_WORDS * objects.len(),
        objects_words(objects).subrange(OBJECT_WORDS * k, OBJECT_WORDS * k + OBJECT_WORDS)
            == objects[k].words(),
    decreases objects.len(),
{
    lemma_objects_words_len(objects);
    lemma_objects_words_len(objects.drop_last());
    let all = objects_words(objects);
    if k == objects.len() - 1 {
        assert(all.subrange(20 * k, 20 * k + 20) =~= objects[k].words());
    } else {
        lemma_objects_words(objects.drop_last(), k);
        assert(all.subrange(20 * k, 20 * k + 20) =~= objects_words(objects.drop_last()).subrange(
            20 * k,
            20 * k + 20,
        ));
    }
}

/// The blocks take twenty words per object.
pub proof fn lemma_objects_words_len(objects: Seq<Object>)
    ensures
        objects_words(objects).len() == OBJECT_WORDS * objects.len(),
    decreases objects.len(),
{
    if objects.len() > 0 {
        lemma_objects_words_len(objects.drop_last());
    }
}

/// Changing the object at position `i` leaves every other object as it is,
/// on the CPU and in the words written to the GPU.
pub proof fn lemma_instances_are_independent(objects: Seq<Object>, i: int, changed: Object, j: int)
    requires
        0 <= i < objects.len(),
        0 <= j < objects.len(),
        i != j,
    ensures
        objects.update(i, changed)[j] == objects[j],
        objects_words(objects.update(i, changed)).subrange(
            OBJECT_WORDS * j,
            OBJECT_WORDS * j + OBJECT_WORDS,
        ) == objects_words(objects).subrange(OBJECT_WORDS * j, OBJECT_WORDS * j + OBJECT_WORDS),
{
    lemma_objects_words(objects, j);
    lemma_objects_words(objects.update(i, changed), j);
}

/// Layout of the slot of the instances of an instanced object.
#[derive(Clone, Copy, Debug, PartialEq, Eq, Structural)]
pub struct InstancedObjectHandleLayout {
    pub layout: BufferBindingLayout,
    pub n_instances: u32,
}

impl InstancedObjectHandleLayout {
    /// The layout of `n_instances` instances at `binding`, seen by the
    /// stages of `visibility`.
    pub fn new(binding: u32, visibility: ShaderStage, n_instances: u32) -> (layout:
        InstancedObjectHandleLayout)
        ensures
            layout.n_instances == n_instances,
            layout.layout == (BufferBindingLayout {
                binding,
                visibility,
                size: (OBJECT_BYTES * n_instances) as u64,
            }),
    {
        let size: u64 = OBJECT_BYTES * (n_instances as u64);
        InstancedObjectHandleLayout {
            layout: BufferBindingLayout::new_uniform(binding, visibility, size),
            n_instances,
        }
    }

    /// Creates the instances, each a white object at the origin, with one
    /// uniform buffer for all of them entered in the table of resources
    /// under the next free number.
    pub fn create_handle(&self, graphics: &mut GraphicsManager) -> (instances:
        InstancedObjectHandle)
        ensures
            instances@.objects == Seq::new(self.n_instances as nat, |k: int| Object::initial()),
            instances@.binding.id == old(graphics)@.resources.len(),
            instances@.binding.buffer.size == self.layout.size,
            instances@.binding.buffer.usage@ == 72,
            !instances@.binding.buffer.mapped_at_creation,
            final(graphics)@ == (GraphicsView {
                resources: old(graphics)@.resources.push(self.entry()),
                ..old(graphics)@
            }),
    {
        let binding = graphics.create_buffer(&self.layout);
        let mut objects: Vec<Object> = Vec::new();
        let mut k: u32 = 0;
        while k < self.n_instances
            invariant
                k <= self.n_instances,
                objects@ == Seq::new(k as nat, |k: int| Object::initial()),
            decreases self.n_instances - k,
        {
            objects.push(Object::new());
            k = k + 1;
            assert(objects@ =~= Seq::new(k as nat, |k: int| Object::initial()));
        }
        InstancedObjectHandle { binding, objects }
    }
}

impl BindingLayout for InstancedObjectHandleLayout {
    open spec fn entry(&self) -> BindGroupLayoutEntry {
        self.layout.entry()
    }

    fn get_entry(&self) -> (entry: BindGroupLayoutEntry) {
        self.layout.get_entry()
    }
}

/// The mathematical content of an [`InstancedObjectHandle`].
pub struct InstancedObjectView {
    pub binding: BufferBinding,
    /// The state of the instances, by instance number.
    pub objects: Seq<Object>,
}

/// The instances of an instanced object: one uniform buffer and, mirrored on
/// the CPU, the state of each instance.
#[derive(Debug)]
pub struct InstancedObjectHandle {
    binding: BufferBinding,
    objects: Vec<Object>,
}

impl View for InstancedObjectHandle {
    type V = InstancedObjectView;

    closed spec fn view(&self) -> InstancedObjectView {
        InstancedObjectView { binding: self.binding, objects: self.objects@ }
    }
}

impl InstancedObjectHandle {
    /// The uniform buffer of the instances.
    pub fn binding(&self) -> (binding: BufferBinding)
        ensures
            binding == self@.binding,
    {
        self.binding
    }

    /// Number of instances.
    pub fn n_instances(&self) -> (n: usize)
        ensures
            n == self@.objects.len(),
    {
        self.objects.len()
    }

    /// The state of the instance `index`, if there is such an instance.
    pub fn object(&self, index: usize) -> (object: Option<Object>)
        ensures
            object == if index < self@.objects.len() {
                Some(self@.objects[index as int])
            } else {
                None
            },
    {
        if index < self.objects.len() {
            Some(self.objects[index])
        } else {
            None
        }
    }

    /// The state of the instance `index`, to read or to change. Whatever is
    /// done to it, the other instances and the buffer stay as they are.
    pub fn get_object(&mut self, index: usize) -> (object: &mut Object)
        requires
            index < old(self)@.objects.len(),
        ensures
            *object == old(self)@.objects[index as int],
            final(self)@ == (InstancedObjectView {
                objects: old(self)@.objects.update(index as int, *final(object)),
                ..old(self)@
            }),
    {
        &mut self.objects[index]
    }
}

impl Binding for InstancedObjectHandle {
    open spec fn resource(&self) -> BindingResource {
        BindingResource::Buffer(self@.binding.id)
    }

    fn get_resource(&self) -> (resource: BindingResource) {
        BindingResource::Buffer(self.binding.id)
    }
}

impl BindingHandle for InstancedObjectHandle {
    /// The blocks of the instances, by instance number.
    open spec fn contents(&self) -> Seq<u8> {
        words_bytes(objects_words(self@.objects))
    }

    fn write(&self) -> (bytes: Vec<u8>) {
        let mut bytes: Vec<u8> = Vec::new();
        let mut k: usize = 0;
        while k < self.objects.len()
            invariant
                k <= self.objects@.len(),
                bytes@ == words_bytes(objects_words(self.objects@.take(k as int))),
            decreases self.objects@.len() - k,
        {
            push_object(&mut bytes, self.objects[k]);
            proof {
                let next = self.objects@.take(k + 1);
                assert(next.drop_last() =~= self.objects@.take(k as int));
                assert(next.last() == self.objects@[k as int]);
                lemma_words_bytes_concat(
                    objects_words(self.objects@.take(k as int)),
                    self.objects@[k as int].words(),
                );
            }
            k = k + 1;
        }
        assert(self.objects@.take(self.objects@.len() as int) =~= self.objects@);
        bytes
    }
}

/// What is flushed for a single object is its state as it was set last: 80
/// bytes that hold the twenty words of its block.
pub proof fn lemma_shape_contents(shape: ShapeHandle, k: int)
    requires
        0 <= k < OBJECT_WORDS,
    ensures
        shape.contents().len() == OBJECT_BYTES,
        word_at(shape.contents(), 4 * k) == shape.object.words()[k],
{
    assert(shape.object.words().len() == 20);
    lemma_words_bytes(shape.object.words(), k);
}

/// What is flushed for the instances is their state as it was set last: the
/// word `k` of the instance `i` lies `80 * i + 4 * k` bytes into the buffer.
pub proof fn lemma_instances_contents(instances: InstancedObjectHandle, i: int, k: int)
    requires
        0 <= i < instances@.objects.len(),
        0 <= k < OBJECT_WORDS,
    ensures
        instances.contents().len() == OBJECT_BYTES * instances@.objects.len(),
        word_at(instances.contents(), OBJECT_BYTES * i + 4 * k) == instances@.objects[i].words()[k],
{
    let words = objects_words(instances@.objects);
    lemma_objects_words(instances@.objects, i);
    lemma_words_bytes(words, 20 * i + k);
    let block = words.subrange(20 * i, 20 * i + 20);
    assert(block[k] == words[20 * i + k]);
}

} // verus!
