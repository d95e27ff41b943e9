//! Handles: scene objects that own a bound resource and mirror its state on
//! the CPU. A handle is changed through its setters, and its state is
//! flushed to the GPU when it is updated; updating never changes the state.

use crate::binding::Binding;
use crate::graphics::GraphicsManager;
use vstd::prelude::*;

pub mod camera;
pub mod light;
pub mod object;
pub mod texture;

verus! {

/// Bytes to write into a buffer.
#[derive(Debug)]
pub struct BufferWrite {
    /// The number of the buffer in the table of resources.
    pub buffer: usize,
    /// Where in the buffer the bytes go.
    pub offset: u64,
    pub data: Vec<u8>,
}

/// A binding with state on the CPU.
pub trait BindingHandle: Binding {
    /// The bytes that mirror the state of the handle on the GPU; empty for a
    /// handle without state.
    spec fn contents(&self) -> Seq<u8>;

    /// The bytes that mirror the state of the handle on the GPU.
    fn write(&self) -> (bytes: Vec<u8>)
        ensures
            bytes@ == self.contents(),
    ;
}

impl GraphicsManager {
    /// Flushes the state of `handle`: says which bytes to write to the start
    /// of its buffer. A handle without state needs no write. The handle is
    /// left as it is.
    pub fn update_handle<H: BindingHandle>(&self, handle: &H) -> (write: Option<BufferWrite>)
        ensures
            match write {
                Some(write) => {
                    &&& handle.contents().len() > 0
                    &&& write.buffer == handle.resource().id_spec()
                    &&& write.offset == 0
                    &&& write.data@ == handle.contents()
                },
                None => handle.contents().len() == 0,
            },
    {
        let data = handle.write();
        if data.len() == 0 {
            None
        } else {
            Some(BufferWrite { buffer: handle.get_resource().id(), offset: 0, data })
        }
    }
}

} // verus!
