//! The light of a scene: a direction and a color.

use crate::binding::buffer::{BufferBinding, BufferBindingLayout};
use crate::binding::{BindGroupLayoutEntry, Binding, BindingLayout, BindingResource};
use crate::flags::ShaderStage;
use crate::graphics::{GraphicsManager, GraphicsView};
use crate::handle::BindingHandle;
use crate::vector::{push_vector3, Vector3, ONE, ZERO};
use crate::words::{
    lemma_words_bytes, lemma_words_bytes_concat, lemma_words_bytes_single, push_word, word_at,
    words_bytes,
};
use vstd::prelude::*;

verus! {

/// Bytes of the uniform block of a light: two vectors of three numbers, each
/// padded to four.
pub const LIGHT_BYTES: u64 = 32;

/// Layout of the slot of a light.
#[derive(Clone, Copy, Debug, PartialEq, Eq, Structural)]
pub struct LightHandleLayout {
    pub layout: BufferBindingLayout,
}

impl LightHandleLayout {
    /// The layout of a light at `binding`, seen by the stages of
    /// `visibility`.
    pub fn new(binding: u32, visibility: ShaderStage) -> (layout: LightHandleLayout)
        ensures
            layout.layout == (BufferBindingLayout { binding, visibility, size: LIGHT_BYTES }),
    {
        LightHandleLayout {
            layout: BufferBindingLayout::new_uniform(binding, visibility, LIGHT_BYTES),
        }
    }

    /// Creates a white light that shines along the y axis, with a uniform
    /// buffer entered in the table of resources under the next free number.
    pub fn create_handle(&self, graphics: &mut GraphicsManager) -> (light: LightHandle)
        ensures
            light.binding.id == old(graphics)@.resources.len(),
            light.binding.buffer.size == self.layout.size,
            light.binding.buffer.usage@ == 72,
            !light.binding.buffer.mapped_at_creation,
            light.direction == (Vector3 { x: ZERO, y: ONE, z: ZERO }),
            light.color == (Vector3 { x: ONE, y: ONE, z: ONE }),
            final(graphics)@ == (GraphicsView {
                resources: old(graphics)@.resources.push(self.entry()),
                ..old(graphics)@
            }),
    {
        let binding = graphics.create_buffer(&self.layout);
        LightHandle {
            binding,
            direction: Vector3 { x: ZERO, y: ONE, z: ZERO },
            color: Vector3 { x: ONE, y: ONE, z: ONE },
        }
    }
}

impl BindingLayout for LightHandleLayout {
    open spec fn entry(&self) -> BindGroupLayoutEntry {
        self.layout.entry()
    }

    fn get_entry(&self) -> (entry: BindGroupLayoutEntry) {
        self.layout.get_entry()
    }
}

/// A light: its uniform buffer and, mirrored on the CPU, its direction and
/// its color.
#[derive(Clone, Copy, Debug, PartialEq, Eq, Structural)]
pub struct LightHandle {
    pub binding: BufferBinding,
    pub direction: Vector3,
    pub color: Vector3,
}

impl LightHandle {
    /// The words of the uniform block: the direction, a word of padding, the
    /// color, a word of padding.
    pub open spec fn words(self) -> Seq<u32> {
        self.direction.words() + seq![ZERO] + self.color.words() + seq![ZERO]
    }

    /// Sets the color and leaves the rest as it is.
    pub fn set_color(&mut self, color: Vector3) -> (light: &mut LightHandle)
        ensures
            *light == (LightHandle { color, ..*old(self) }),
            *final(self) == *final(light),
    {
        self.color = color;
        self
    }

    /// Sets the direction and leaves the rest as it is.
    pub fn set_direction(&mut self, direction: Vector3) -> (light: &mut LightHandle)
        ensures
            *light == (LightHandle { direction, ..*old(self) }),
            *final(self) == *final(light),
    {
        self.direction = direction;
        self
    }

    /// The color that was set last.
    pub fn get_color(&self) -> (color: Vector3)
        ensures
            color == self.color,
    {
        self.color
    }

    /// The direction that was set last.
    pub fn get_direction(&self) -> (direction: Vector3)
        ensures
            direction == self.direction,
    {
        self.direction
    }
}

impl Binding for LightHandle {
    open spec fn resource(&self) -> BindingResource {
        BindingResource::Buffer(self.binding.id)
    }

    fn get_resource(&self) -> (resource: BindingResource) {
        BindingResource::Buffer(self.binding.id)
    }
}

impl BindingHandle for LightHandle {
    open spec fn contents(&self) -> Seq<u8> {
        words_bytes(self.words())
    }

    fn write(&self) -> (bytes: Vec<u8>) {
        let mut bytes: Vec<u8> = Vec::new();
        push_vector3(&mut bytes, self.direction);
        push_word(&mut bytes, ZERO);
        push_vector3(&mut bytes, self.color);
        push_word(&mut bytes, ZERO);
        proof {
            let d = self.direction.words();
            let c = self.color.words();
            let pad = seq![ZERO];
            lemma_words_bytes_single(ZERO);
            lemma_words_bytes_concat(d, pad);
            lemma_words_bytes_concat(d + pad, c);
            lemma_words_bytes_concat(d + pad + c, pad);
            assert(bytes@ =~= words_bytes(self.words()));
        }
        bytes
    }
}

/// What is flushed for a light is its state as it was set last: 32 bytes
/// that hold the direction in the words 0 to 2 and the color in the words 4
/// to 6, with zeros in the words 3 and 7.
pub proof fn lemma_light_contents(light: LightHandle)
    ensures
        light.contents().len() == LIGHT_BYTES,
        word_at(light.contents(), 0) == light.direction.x,
        word_at(light.contents(), 4) == light.direction.y,
        word_at(light.contents(), 8) == light.direction.z,
        word_at(light.contents(), 12) == ZERO,
        word_at(light.contents(), 16) == light.color.x,
        word_at(light.contents(), 20) == light.color.y,
        word_at(light.contents(), 24) == light.color.z,
        word_at(light.contents(), 28) == ZERO,
{
    let words = light.words();
    assert(words.len() == 8);
    lemma_words_bytes(words, 0);
    lemma_words_bytes(words, 1);
    lemma_words_bytes(words, 2);
    lemma_words_bytes(words, 3);
    lemma_words_bytes(words, 4);
    lemma_words_bytes(words, 5);
    lemma_words_bytes(words, 6);
    lemma_words_bytes(words, 7);
}

} // verus!
