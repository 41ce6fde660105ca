//! A device buffer as the host sees it: how many elements of what stride it
//! holds, what it was allocated for, and what it is filled with. How the
//! buffer is bound follows from its usage and is kept nowhere else.

use vstd::prelude::*;
use crate::binding::BindGroupEntry;
use crate::binding::BindGroupLayoutEntry;
use crate::binding::BindingType;
use crate::binding::BufferBindingType;
use crate::binding::BufferSlice;
use crate::binding::buffer_layout_entry;
use crate::binding::inferred_binding;
use crate::error::ConstructionError;
use crate::usage::BufferUsage;
use crate::usage::ShaderStage;
use crate::words::cast_words;
use crate::words::memory_image;

verus! {

/// What a buffer is asked to be.
pub struct GPUBufferDescription {
    /// The words that the buffer is filled with when it is allocated, or
    /// `None` for a buffer that only the compute stages write.
    pub contents: Option<Vec<u32>>,
    /// The number of elements.
    pub element_count: u32,
    /// The number of bytes in one element.
    pub element_size: usize,
    /// What the buffer is allocated for.
    pub usage: BufferUsage,
}

/// The mathematical content of a `GPUBuffer`.
pub struct GPUBufferView {
    pub element_count: nat,
    pub size: nat,
    pub usage: BufferUsage,
    pub initial: Option<Seq<u8>>,
}

impl GPUBufferView {
    /// Whether the bytes that the buffer is filled with, if any, are as many
    /// as the buffer is said to hold.
    pub open spec fn filled_to_size(&self) -> bool {
        self.initial matches Some(bytes) ==> bytes.len() == self.size
    }
}

/// A buffer that is to be allocated, or was.
pub struct GPUBuffer {
    element_count: u32,
    size: u64,
    usage: BufferUsage,
    initial: Option<Vec<u8>>,
}

impl View for GPUBuffer {
    type V = GPUBufferView;

    closed spec fn view(&self) -> GPUBufferView {
        GPUBufferView {
            element_count: self.element_count as nat,
            size: self.size as nat,
            usage: self.usage,
            initial: match self.initial {
                Some(bytes) => Some(bytes@),
                None => None,
            },
        }
    }
}

impl GPUBuffer {
    /// The buffer that `buffer_desc` asks for. Its size is the element count
    /// times the element stride. With contents, it is filled with the words
    /// as this machine stores them; without, it is left for the compute
    /// stages to write.
    pub fn new(buffer_desc: GPUBufferDescription) -> (buffer: GPUBuffer)
        requires
            buffer_desc.element_count * buffer_desc.element_size <= u64::MAX,
        ensures
            buffer@.element_count == buffer_desc.element_count,
            buffer@.size == buffer_desc.element_count * buffer_desc.element_size,
            buffer@.usage == buffer_desc.usage,
            match buffer_desc.contents {
                Some(words) => buffer@.initial matches Some(bytes) && memory_image(
                    words@,
                    bytes,
                ),
                None => buffer@.initial is None,
            },
    {
        let element_count = buffer_desc.element_count;
        assert(element_count as u64 * buffer_desc.element_size as u64 == element_count
            * buffer_desc.element_size) by (nonlinear_arith)
            requires
                element_count * buffer_desc.element_size <= u64::MAX,
        ;
        let size: u64 = element_count as u64 * buffer_desc.element_size as u64;
        let usage = buffer_desc.usage;
        let initial = match buffer_desc.contents {
            Some(words) => Some(cast_words(&words)),
            None => None,
        };
        GPUBuffer { element_count, size, usage, initial }
    }

    /// The number of elements.
    pub fn element_count(&self) -> (n: u32)
        ensures
            n == self@.element_count,
    {
        self.element_count
    }

    /// The number of bytes.
    pub fn size(&self) -> (n: u64)
        ensures
            n == self@.size,
    {
        self.size
    }

    /// What the buffer is allocated for.
    pub fn usage(&self) -> (usage: BufferUsage)
        ensures
            usage == self@.usage,
    {
        self.usage
    }

    /// The bytes that the buffer is filled with when it is allocated.
    pub fn initial_bytes(&self) -> (bytes: Option<&Vec<u8>>)
        ensures
            match bytes {
                Some(b) => self@.initial == Some(b@),
                None => self@.initial is None,
            },
    {
        match &self.initial {
            Some(bytes) => Some(bytes),
            None => None,
        }
    }

    /// The whole of the buffer.
    pub fn contents(&self) -> (slice: BufferSlice)
        ensures
            slice.is_entire(),
    {
        BufferSlice { offset: 0, size: None }
    }

    /// The layout entry under which the buffer is bound at `binding`, seen by
    /// `visibility`. The kind of binding is inferred from the usage; a usage
    /// with neither storage nor uniform intent is an error.
    pub fn as_bgl_entry(&self, binding: u32, visibility: ShaderStage, read_only: bool) -> (entry:
        Result<BindGroupLayoutEntry, ConstructionError>)
        ensures
            match inferred_binding(self@.usage, read_only) {
                Some(ty) => entry == Ok::<BindGroupLayoutEntry, ConstructionError>(
                    buffer_layout_entry(binding, visibility, ty),
                ),
                None => entry == Err::<BindGroupLayoutEntry, ConstructionError>(
                    ConstructionError::UnsupportedBindingUsage,
                ),
            },
    {
        let ty;
        if self.usage.contains(BufferUsage::STORAGE) {
            ty = BufferBindingType::Storage { read_only };
        } else if self.usage.contains(BufferUsage::STORAGE_READ_ONLY) {
            ty = BufferBindingType::Storage { read_only: true };
        } else if self.usage.contains(BufferUsage::UNIFORM) {
            ty = BufferBindingType::Uniform;
        } else {
            return Err(ConstructionError::UnsupportedBindingUsage);
        }
        Ok(
            BindGroupLayoutEntry {
                binding,
                visibility,
                ty: BindingType::Buffer { ty, has_dynamic_offset: false, min_binding_size: None },
                count: None,
            },
        )
    }

    /// The entry that puts the whole of the buffer at `binding`.
    pub fn as_bg_entry(&self, binding: u32) -> (entry: BindGroupEntry)
        ensures
            entry.binding == binding,
            entry.resource.is_entire(),
    {
        BindGroupEntry { binding, resource: self.contents() }
    }
}

} // verus!
