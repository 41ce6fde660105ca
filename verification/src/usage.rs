//! Flag sets that say what a device resource was allocated for and which
//! shader stages may see a binding.

use vstd::prelude::*;

verus! {

/// What a buffer was allocated for, as a set of flags held in the bits of one
/// word. A usage contains a flag when every bit of the flag is set in it.
#[derive(Clone, Copy, Debug, PartialEq, Eq, Structural)]
pub struct BufferUsage {
    pub bits: u32,
}

impl BufferUsage {
    /// The buffer may be mapped for reading.
    pub const MAP_READ: u32 = 1;
    /// The buffer may be mapped for writing.
    pub const MAP_WRITE: u32 = 2;
    /// The buffer may be the source of a copy.
    pub const COPY_SRC: u32 = 4;
    /// The buffer may be the destination of a copy.
    pub const COPY_DST: u32 = 8;
    /// The buffer may be the index buffer of a draw.
    pub const INDEX: u32 = 16;
    /// The buffer may be the vertex buffer of a draw.
    pub const VERTEX: u32 = 32;
    /// The buffer may be bound as a uniform.
    pub const UNIFORM: u32 = 64;
    /// The buffer may be bound as storage that shaders read and write.
    pub const STORAGE: u32 = 128;
    /// The buffer may be the indirect buffer of a draw.
    pub const INDIRECT: u32 = 256;
    /// The buffer may be bound as storage that shaders only read.
    pub const STORAGE_READ_ONLY: u32 = 512;
    /// Every flag that the device itself knows.
    pub const DEVICE_FLAGS: u32 = 511;

    /// The usage made of exactly the given bits.
    pub fn from_bits(bits: u32) -> (usage: BufferUsage)
        ensures
            usage.bits == bits,
    {
        BufferUsage { bits }
    }

    /// The bits of the usage.
    pub fn bits(&self) -> (bits: u32)
        ensures
            bits == self.bits,
    {
        self.bits
    }

    /// Whether every bit of `flags` is set in the usage.
    pub open spec fn spec_contains(&self, flags: u32) -> bool {
        self.bits & flags == flags
    }

    /// Whether every bit of `flags` is set in the usage.
    #[verifier::when_used_as_spec(spec_contains)]
    pub fn contains(&self, flags: u32) -> (held: bool)
        ensures
            held == self.spec_contains(flags),
    {
        self.bits & flags == flags
    }

    /// The usage that holds the flags of both.
    pub fn union(self, other: BufferUsage) -> (both: BufferUsage)
        ensures
            both.bits == self.bits | other.bits,
    {
        BufferUsage { bits: self.bits | other.bits }
    }

    /// Whether the usage names storage intent of either kind.
    pub open spec fn is_storage(&self) -> bool {
        self.contains(BufferUsage::STORAGE) || self.contains(BufferUsage::STORAGE_READ_ONLY)
    }

    /// The bits that the device is given when the buffer is allocated: a
    /// device knows one storage flag, so read-only storage intent is handed
    /// over as that flag, and bits that are no flag are dropped.
    pub open spec fn spec_device_bits(&self) -> u32 {
        if self.contains(BufferUsage::STORAGE_READ_ONLY) {
            (self.bits & BufferUsage::DEVICE_FLAGS) | BufferUsage::STORAGE
        } else {
            self.bits & BufferUsage::DEVICE_FLAGS
        }
    }

    /// The bits that the device is given when the buffer is allocated.
    #[verifier::when_used_as_spec(spec_device_bits)]
    pub fn device_bits(&self) -> (bits: u32)
        ensures
            bits == self.spec_device_bits(),
    {
        if self.contains(BufferUsage::STORAGE_READ_ONLY) {
            (self.bits & BufferUsage::DEVICE_FLAGS) | BufferUsage::STORAGE
        } else {
            self.bits & BufferUsage::DEVICE_FLAGS
        }
    }
}

/// The bits handed to the device hold only flags that the device knows,
/// the storage flag exactly where the usage names storage intent of either
/// kind, and the uniform flag exactly where the usage names uniform intent.
pub proof fn lemma_device_bits(usage: BufferUsage)
    ensures
        usage.device_bits() & BufferUsage::DEVICE_FLAGS == usage.device_bits(),
        usage.is_storage() <==> usage.device_bits() & BufferUsage::STORAGE == BufferUsage::STORAGE,
        usage.contains(BufferUsage::UNIFORM) <==> usage.device_bits() & BufferUsage::UNIFORM
            == BufferUsage::UNIFORM,
{
    let b: u32 = usage.bits;
    assert({
        &&& (b & 511u32) & 511u32 == b & 511u32
        &&& ((b & 511u32) | 128u32) & 511u32 == (b & 511u32) | 128u32
        &&& ((b & 511u32) | 128u32) & 128u32 == 128u32
        &&& ((b & 511u32) & 128u32 == 128u32) == (b & 128u32 == 128u32)
        &&& ((b & 511u32) & 64u32 == 64u32) == (b & 64u32 == 64u32)
        &&& (((b & 511u32) | 128u32) & 64u32 == 64u32) == (b & 64u32 == 64u32)
    }) by (bit_vector);
}

/// The shader stages that may see a binding, as a set of flags.
#[derive(Clone, Copy, Debug, PartialEq, Eq, Structural)]
pub struct ShaderStage {
    pub bits: u32,
}

impl ShaderStage {
    /// No stage sees the binding.
    pub const NONE: u32 = 0;
    /// The vertex shader of a render pipeline sees the binding.
    pub const VERTEX: u32 = 1;
    /// The fragment shader of a render pipeline sees the binding.
    pub const FRAGMENT: u32 = 2;
    /// The compute shader of a compute pipeline sees the binding.
    pub const COMPUTE: u32 = 4;

    /// The stage set made of exactly the given bits.
    pub fn from_bits(bits: u32) -> (stages: ShaderStage)
        ensures
            stages.bits == bits,
    {
        ShaderStage { bits }
    }

    /// The bits of the stage set.
    pub fn bits(&self) -> (bits: u32)
        ensures
            bits == self.bits,
    {
        self.bits
    }
}

/// What a texture was allocated for, as a set of flags.
#[derive(Clone, Copy, Debug, PartialEq, Eq, Structural)]
pub struct TextureUsage {
    pub bits: u32,
}

impl TextureUsage {
    /// The texture may be the source of a copy.
    pub const COPY_SRC: u32 = 1;
    /// The texture may be the destination of a copy.
    pub const COPY_DST: u32 = 2;
    /// The texture may be sampled.
    pub const SAMPLED: u32 = 4;
    /// The texture may be bound as a storage image.
    pub const STORAGE: u32 = 8;
    /// The texture may be a render target.
    pub const RENDER_ATTACHMENT: u32 = 16;

    /// The usage made of exactly the given bits.
    pub fn from_bits(bits: u32) -> (usage: TextureUsage)
        ensures
            usage.bits == bits,
    {
        TextureUsage { bits }
    }

    /// The bits of the usage.
    pub fn bits(&self) -> (bits: u32)
        ensures
            bits == self.bits,
    {
        self.bits
    }

    /// Whether every bit of `flags` is set in the usage.
    pub open spec fn spec_contains(&self, flags: u32) -> bool {
        self.bits & flags == flags
    }

    /// Whether every bit of `flags` is set in the usage.
    #[verifier::when_used_as_spec(spec_contains)]
    pub fn contains(&self, flags: u32) -> (held: bool)
        ensures
            held == self.spec_contains(flags),
    {
        self.bits & flags == flags
    }
}

} // verus!
