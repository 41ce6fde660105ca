//! How a resource is described to a compute stage: the layout entry that says
//! what kind of binding sits at a slot, and the entry that puts a resource
//! there.

use vstd::prelude::*;
use crate::usage::BufferUsage;
use crate::usage::ShaderStage;
use crate::usage::lemma_device_bits;

verus! {

/// The two ways in which a stage can see a buffer.
#[derive(Clone, Copy, Debug, PartialEq, Eq, Structural)]
pub enum BufferBindingType {
    /// A small block of constants, never written by a shader.
    Uniform,
    /// A large array; `read_only` says whether the stage may write it.
    Storage { read_only: bool },
}

/// What a stage may do with a storage image.
#[derive(Clone, Copy, Debug, PartialEq, Eq, Structural)]
pub enum StorageTextureAccess {
    ReadOnly,
    WriteOnly,
    ReadWrite,
}

/// The texel formats that the pipeline and its display surface use.
#[derive(Clone, Copy, Debug, PartialEq, Eq, Structural)]
pub enum TextureFormat {
    Rgba8Unorm,
    Rgba8UnormSrgb,
    Bgra8Unorm,
    Bgra8UnormSrgb,
}

/// The number of dimensions of a texture.
#[derive(Clone, Copy, Debug, PartialEq, Eq, Structural)]
pub enum TextureDimension {
    D1,
    D2,
    D3,
}

/// The shape under which a stage views a texture.
#[derive(Clone, Copy, Debug, PartialEq, Eq, Structural)]
pub enum TextureViewDimension {
    D1,
    D2,
    D2Array,
    Cube,
    CubeArray,
    D3,
}

/// The kind of binding at a slot.
#[derive(Clone, Copy, Debug, PartialEq, Eq, Structural)]
pub enum BindingType {
    Buffer { ty: BufferBindingType, has_dynamic_offset: bool, min_binding_size: Option<u64> },
    Sampler { filtering: bool, comparison: bool },
    StorageTexture {
        access: StorageTextureAccess,
        format: TextureFormat,
        view_dimension: TextureViewDimension,
    },
}

/// One slot of a stage's binding layout.
#[derive(Clone, Copy, Debug, PartialEq, Eq, Structural)]
pub struct BindGroupLayoutEntry {
    pub binding: u32,
    pub visibility: ShaderStage,
    pub ty: BindingType,
    pub count: Option<u32>,
}

/// A range of a buffer. `size` is the number of bytes, or `None` for all that
/// follow `offset`.
#[derive(Clone, Copy, Debug, PartialEq, Eq, Structural)]
pub struct BufferSlice {
    pub offset: u64,
    pub size: Option<u64>,
}

impl BufferSlice {
    /// Whether the range is the whole buffer.
    pub open spec fn is_entire(&self) -> bool {
        self.offset == 0 && self.size is None
    }
}

/// A buffer range put at a slot.
#[derive(Clone, Copy, Debug, PartialEq, Eq, Structural)]
pub struct BindGroupEntry {
    pub binding: u32,
    pub resource: BufferSlice,
}

/// How a buffer of the given usage is bound when the caller asks for
/// `want_read_only`, or `None` where the usage allows no binding. Storage
/// intent is looked for first. A buffer allocated for reading and writing is
/// bound as the caller wants it; one allocated for reading only is bound
/// read-only whatever the caller wants.
pub open spec fn inferred_binding(usage: BufferUsage, want_read_only: bool) -> Option<
    BufferBindingType,
> {
    if usage.contains(BufferUsage::STORAGE) {
        Some(BufferBindingType::Storage { read_only: want_read_only })
    } else if usage.contains(BufferUsage::STORAGE_READ_ONLY) {
        Some(BufferBindingType::Storage { read_only: true })
    } else if usage.contains(BufferUsage::UNIFORM) {
        Some(BufferBindingType::Uniform)
    } else {
        None
    }
}

/// The layout entry for a buffer bound as `ty` at `binding`: the whole
/// buffer, at a fixed offset, with no minimum size and no array of bindings.
pub open spec fn buffer_layout_entry(
    binding: u32,
    visibility: ShaderStage,
    ty: BufferBindingType,
) -> BindGroupLayoutEntry {
    BindGroupLayoutEntry {
        binding,
        visibility,
        ty: BindingType::Buffer { ty, has_dynamic_offset: false, min_binding_size: None },
        count: None,
    }
}

/// A buffer allocated as storage that shaders read and write is described as
/// storage, read-only exactly where the caller asks for it, and never as a
/// uniform, whatever else its usage holds.
pub proof fn lemma_writable_storage_is_never_uniform(usage: BufferUsage, want_read_only: bool)
    requires
        usage.contains(BufferUsage::STORAGE),
    ensures
        inferred_binding(usage, want_read_only) == Some(
            BufferBindingType::Storage { read_only: want_read_only },
        ),
        inferred_binding(usage, want_read_only) != Some(BufferBindingType::Uniform),
{
}

/// A buffer that was not allocated as storage that shaders read and write is
/// never described as writable, whatever the caller asks for.
pub proof fn lemma_read_only_allocation_is_never_writable(usage: BufferUsage, want_read_only: bool)
    requires
        !usage.contains(BufferUsage::STORAGE),
    ensures
        inferred_binding(usage, want_read_only) != Some(
            BufferBindingType::Storage { read_only: false },
        ),
{
}

/// A usage that names neither storage nor uniform intent has no binding; one
/// that names only vertex intent is such a usage.
pub proof fn lemma_no_intent_no_binding(usage: BufferUsage, want_read_only: bool)
    ensures
        inferred_binding(usage, want_read_only) is None <==> !usage.is_storage()
            && !usage.contains(BufferUsage::UNIFORM),
        usage.bits == BufferUsage::VERTEX ==> inferred_binding(usage, want_read_only) is None,
{
    assert(BufferUsage::VERTEX & BufferUsage::STORAGE != BufferUsage::STORAGE
        && BufferUsage::VERTEX & BufferUsage::STORAGE_READ_ONLY != BufferUsage::STORAGE_READ_ONLY
        && BufferUsage::VERTEX & BufferUsage::UNIFORM != BufferUsage::UNIFORM) by (bit_vector);
}

/// The description of a binding never asks the device for more than the
/// allocation gave: a storage binding is inferred only where the device was
/// given the storage flag, a uniform binding only where it was given the
/// uniform flag.
pub proof fn lemma_binding_matches_allocation(usage: BufferUsage, want_read_only: bool)
    ensures
        inferred_binding(usage, want_read_only) matches Some(
            BufferBindingType::Storage { .. },
        ) ==> usage.device_bits() & BufferUsage::STORAGE == BufferUsage::STORAGE,
        inferred_binding(usage, want_read_only) == Some(BufferBindingType::Uniform)
            ==> usage.device_bits() & BufferUsage::UNIFORM == BufferUsage::UNIFORM,
{
    lemma_device_bits(usage);
}

} // verus!
