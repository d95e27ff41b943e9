//! The camera of a scene: where it stands, what it looks at, and how it
//! projects. The matrix that the shaders read is computed from these by the
//! caller, in floating point, and handed to the camera before it is updated.

use crate::binding::buffer::{BufferBinding, BufferBindingLayout};
use crate::binding::{BindGroupLayoutEntry, Binding, BindingLayout, BindingResource};
use crate::flags::ShaderStage;
use crate::graphics::{GraphicsManager, GraphicsView};
use crate::handle::BindingHandle;
use crate::vector::{push_matrix4, Matrix4, Vector3, MINUS_ONE, ONE, ZERO};
use crate::words::{lemma_words_bytes, word_at, words_bytes};
use vstd::prelude::*;

verus! {

/// Bytes of the uniform block of a camera: one matrix.
pub const CAMERA_BYTES: u64 = 64;

/// How a camera projects; all numbers are single-precision bit patterns.
#[derive(Clone, Copy, Debug, PartialEq, Eq, Structural)]
pub enum Projection {
    /// A perspective with a vertical field of view in degrees and the
    /// aspect ratio width by height.
    Perspective { fov: u32, aspect: u32 },
    /// The orthographic projection of a box.
    Ortho { left: u32, right: u32, bottom: u32, top: u32, near: u32, far: u32 },
}

/// Layout of the slot of a camera.
#[derive(Clone, Copy, Debug, PartialEq, Eq, Structural)]
pub struct CameraHandleLayout {
    pub layout: BufferBindingLayout,
}

impl CameraHandleLayout {
    /// The layout of a camera at `binding`, seen by the stages of
    /// `visibility`.
    pub fn new(binding: u32, visibility: ShaderStage) -> (layout: CameraHandleLayout)
        ensures
            layout.layout == (BufferBindingLayout { binding, visibility, size: CAMERA_BYTES }),
    {
        CameraHandleLayout {
            layout: BufferBindingLayout::new_uniform(binding, visibility, CAMERA_BYTES),
        }
    }

    /// The state of a new camera: `binding` with the camera at the origin,
    /// looking along the z axis, projecting the unit box orthographically,
    /// and with the identity as its matrix.
    pub open spec fn initial(binding: BufferBinding) -> CameraHandle {
        CameraHandle {
            binding,
            eye: Vector3 { x: ZERO, y: ZERO, z: ZERO },
            target: Vector3 { x: ZERO, y: ZERO, z: ONE },
            projection: Projection::Ortho {
                left: MINUS_ONE,
                right: ONE,
                bottom: MINUS_ONE,
                top: ONE,
                near: MINUS_ONE,
                far: ONE,
            },
            view_projection: Matrix4::identity_spec(),
        }
    }

    /// Creates a camera in its initial state, with a uniform buffer entered
    /// in the table of resources under the next free number.
    pub fn create_handle(&self, graphics: &mut GraphicsManager) -> (camera: CameraHandle)
        ensures
            camera == Self::initial(camera.binding),
            camera.binding.id == old(graphics)@.resources.len(),
            camera.binding.buffer.size == self.layout.size,
            camera.binding.buffer.usage@ == 72,
            !camera.binding.buffer.mapped_at_creation,
            final(graphics)@ == (GraphicsView {
                resources: old(graphics)@.resources.push(self.entry()),
                ..old(graphics)@
            }),
    {
        let binding = graphics.create_buffer(&self.layout);
        CameraHandle {
            binding,
            eye: Vector3 { x: ZERO, y: ZERO, z: ZERO },
            target: Vector3 { x: ZERO, y: ZERO, z: ONE },
            projection: Projection::Ortho {
                left: MINUS_ONE,
                right: ONE,
                bottom: MINUS_ONE,
                top: ONE,
                near: MINUS_ONE,
                far: ONE,
            },
            view_projection: Matrix4::identity(),
        }
    }
}

impl BindingLayout for CameraHandleLayout {
    open spec fn entry(&self) -> BindGroupLayoutEntry {
        self.layout.entry()
    }

    fn get_entry(&self) -> (entry: BindGroupLayoutEntry) {
        self.layout.get_entry()
    }
}

/// A camera: its uniform buffer and, mirrored on the CPU, its position, its
/// target, its projection and the matrix computed from them.
#[derive(Clone, Copy, Debug, PartialEq, Eq, Structural)]
pub struct CameraHandle {
    pub binding: BufferBinding,
    pub eye: Vector3,
    pub target: Vector3,
    pub projection: Projection,
    pub view_projection: Matrix4,
}

impl CameraHandle {
    /// Places the camera at `eye`, looking at `target`; the rest is left as
    /// it is.
    pub fn look_at(&mut self, eye: Vector3, target: Vector3) -> (camera: &mut CameraHandle)
        ensures
            *camera == (CameraHandle { eye, target, ..*old(self) }),
            *final(self) == *final(camera),
    {
        self.eye = eye;
        self.target = target;
        self
    }

    /// Makes the camera project in perspective; the rest is left as it is.
    pub fn set_perspective(&mut self, fov: u32, aspect: u32) -> (camera: &mut CameraHandle)
        ensures
            *camera == (CameraHandle {
                projection: Projection::Perspective { fov, aspect },
                ..*old(self)
            }),
            *final(self) == *final(camera),
    {
        self.projection = Projection::Perspective { fov, aspect };
        self
    }

    /// Makes the camera project the given box orthographically; the rest is
    /// left as it is.
    pub fn set_ortho(
        &mut self,
        left: u32,
        right: u32,
        bottom: u32,
        top: u32,
        near: u32,
        far: u32,
    ) -> (camera: &mut CameraHandle)
        ensures
            *camera == (CameraHandle {
                projection: Projection::Ortho { left, right, bottom, top, near, far },
                ..*old(self)
            }),
            *final(self) == *final(camera),
    {
        self.projection = Projection::Ortho { left, right, bottom, top, near, far };
        self
    }

    /// Stores the matrix that takes the world to the clip space of this
    /// camera; the rest is left as it is.
    pub fn set_view_projection(&mut self, view_projection: Matrix4) -> (camera: &mut CameraHandle)
        ensures
            *camera == (CameraHandle { view_projection, ..*old(self) }),
            *final(self) == *final(camera),
    {
        self.view_projection = view_projection;
        self
    }

    /// Where the camera stands.
    pub fn get_eye(&self) -> (eye: Vector3)
        ensures
            eye == self.eye,
    {
        self.eye
    }

    /// What the camera looks at.
    pub fn get_target(&self) -> (target: Vector3)
        ensures
            target == self.target,
    {
        self.target
    }

    /// How the camera projects.
    pub fn get_projection(&self) -> (projection: Projection)
        ensures
            projection == self.projection,
    {
        self.projection
    }

    /// The matrix that was stored last.
    pub fn get_view_projection(&self) -> (view_projection: Matrix4)
        ensures
            view_projection == self.view_projection,
    {
        self.view_projection
    }
}

impl Binding for CameraHandle {
    open spec fn resource(&self) -> BindingResource {
        BindingResource::Buffer(self.binding.id)
    }

    fn get_resource(&self) -> (resource: BindingResource) {
        BindingResource::Buffer(self.binding.id)
    }
}

impl BindingHandle for CameraHandle {
    /// The sixteen words of the matrix, column after column.
    open spec fn contents(&self) -> Seq<u8> {
        words_bytes(self.view_projection.words())
    }

    fn write(&self) -> (bytes: Vec<u8>) {
        let mut bytes: Vec<u8> = Vec::new();
        push_matrix4(&mut bytes, self.view_projection);
        assert(bytes@ =~= words_bytes(self.view_projection.words()));
        bytes
    }
}

/// What is flushed for a camera is the matrix that was stored last: 64
/// bytes that hold its sixteen words, column after column.
pub proof fn lemma_camera_contents(camera: CameraHandle, k: int)
    requires
        0 <= k < 16,
    ensures
        camera.contents().len() == CAMERA_BYTES,
        word_at(camera.contents(), 4 * k) == camera.view_projection.words()[k],
{
    assert(camera.view_projection.words().len() == 16);
    lemma_words_bytes(camera.view_projection.words(), k);
}

} // verus!
