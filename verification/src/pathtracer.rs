//! The pathtracing engine: every resource of the three-stage pipeline, how
//! each stage is bound to them, and the work that one frame records.
//!
//! An engine is built for one resolution. Nothing in it can be resized: a new
//! resolution takes a new engine.

use vstd::prelude::*;
use crate::binding::BindGroupLayoutEntry;
use crate::binding::BindingType;
use crate::binding::BufferBindingType;
use crate::binding::StorageTextureAccess;
use crate::binding::TextureDimension;
use crate::binding::TextureFormat;
use crate::binding::TextureViewDimension;
use crate::binding::buffer_layout_entry;
use crate::binding::inferred_binding;
use crate::camera::Camera;
use crate::camera::CAMERA_STRIDE;
use crate::data_types::Geometry;
use crate::data_types::GEOMETRY_STRIDE;
use crate::data_types::INTERSECTION_STRIDE;
use crate::data_types::RAY_STRIDE;
use crate::error::EngineError;
use crate::gpu_buffer::GPUBuffer;
use crate::gpu_buffer::GPUBufferDescription;
use crate::gpu_buffer::GPUBufferView;
use crate::scene::Scene;
use crate::scene::scene_words;
use crate::stage::Resource;
use crate::stage::Stage;
use crate::usage::BufferUsage;
use crate::usage::ShaderStage;
use crate::usage::TextureUsage;
use crate::words::memory_image;

verus! {

/// The number of bytes in one element of a parameter block.
pub const PARAM_STRIDE: usize = 4;

/// The extent of a texture.
#[derive(Clone, Copy, Debug, PartialEq, Eq, Structural)]
pub struct Extent3d {
    pub width: u32,
    pub height: u32,
    pub depth: u32,
}

/// What a texture is asked to be.
#[derive(Clone, Copy, Debug, PartialEq, Eq, Structural)]
pub struct TextureDescriptor {
    pub size: Extent3d,
    pub mip_level_count: u32,
    pub sample_count: u32,
    pub dimension: TextureDimension,
    pub format: TextureFormat,
    pub usage: TextureUsage,
}

/// What a sampler does with a coordinate outside the texture.
#[derive(Clone, Copy, Debug, PartialEq, Eq, Structural)]
pub enum AddressMode {
    ClampToEdge,
    Repeat,
    MirrorRepeat,
}

/// How a sampler picks a value between texels.
#[derive(Clone, Copy, Debug, PartialEq, Eq, Structural)]
pub enum FilterMode {
    Nearest,
    Linear,
}

/// What a sampler is asked to be.
#[derive(Clone, Copy, Debug, PartialEq, Eq, Structural)]
pub struct SamplerDescriptor {
    pub address_mode_u: AddressMode,
    pub address_mode_v: AddressMode,
    pub address_mode_w: AddressMode,
    pub mag_filter: FilterMode,
    pub min_filter: FilterMode,
    pub mipmap_filter: FilterMode,
}

/// One step of the work that a frame records into a compute pass.
#[derive(Clone, Copy, Debug, PartialEq, Eq, Structural)]
pub enum Command {
    /// Make the pipeline of the stage current.
    SetPipeline(Stage),
    /// Put the binding set of the stage at the given index.
    SetBindGroup { index: u32, stage: Stage },
    /// Run the current pipeline over a grid of workgroups.
    Dispatch { x: u32, y: u32, z: u32 },
}

/// The number of elements that the engine gives a buffer, for an image of
/// `width` by `height` pixels and a scene of `primitives` primitives.
pub open spec fn planned_count(r: Resource, width: int, height: int, primitives: int) -> int {
    match r {
        Resource::CameraBuffer => 1,
        Resource::PathsBuffer => width * height,
        Resource::IntersectBuffer => width * height,
        Resource::GeometryBuffer => primitives,
        _ => 2,
    }
}

/// The number of bytes in one element of a buffer of the engine.
pub open spec fn planned_stride(r: Resource) -> int {
    match r {
        Resource::CameraBuffer => CAMERA_STRIDE as int,
        Resource::PathsBuffer => RAY_STRIDE as int,
        Resource::IntersectBuffer => INTERSECTION_STRIDE as int,
        Resource::GeometryBuffer => GEOMETRY_STRIDE as int,
        _ => PARAM_STRIDE as int,
    }
}

/// What the engine allocates a buffer for. The camera and the parameter
/// blocks are uniforms that may be copied into; rays and intersection records
/// are storage that the stages read and write; the geometry is storage that
/// the stages only read.
pub open spec fn planned_usage(r: Resource) -> BufferUsage {
    match r {
        Resource::PathsBuffer => BufferUsage { bits: BufferUsage::STORAGE },
        Resource::IntersectBuffer => BufferUsage { bits: BufferUsage::STORAGE },
        Resource::GeometryBuffer => BufferUsage { bits: BufferUsage::STORAGE_READ_ONLY },
        _ => BufferUsage { bits: BufferUsage::UNIFORM | BufferUsage::COPY_DST },
    }
}

/// The words that a buffer of the engine is filled with when it is
/// allocated, or `None` for a buffer that a stage writes. The first parameter
/// block holds the resolution, the second the number of primitives and the
/// number of pixels.
pub open spec fn planned_words(r: Resource, camera: Camera, geometry: Seq<Geometry>) -> Option<
    Seq<u32>,
> {
    match r {
        Resource::CameraBuffer => Some(camera.layout()),
        Resource::GeometryBuffer => Some(scene_words(geometry)),
        Resource::ParamsBuffer0 => Some(seq![camera.width(), camera.height()]),
        Resource::ParamsBuffer1 => Some(
            seq![geometry.len() as u32, (camera.width() * camera.height()) as u32],
        ),
        _ => None,
    }
}

/// The texture that the shading stage writes and the compositor samples.
pub open spec fn planned_texture(width: u32, height: u32) -> TextureDescriptor {
    TextureDescriptor {
        size: Extent3d { width, height, depth: 1 },
        mip_level_count: 1,
        sample_count: 1,
        dimension: TextureDimension::D2,
        format: TextureFormat::Rgba8Unorm,
        usage: TextureUsage {
            bits: TextureUsage::SAMPLED | TextureUsage::COPY_DST | TextureUsage::STORAGE,
        },
    }
}

/// The sampler of the display texture: clamped at every edge, linear when
/// magnified, nearest otherwise.
pub open spec fn planned_sampler() -> SamplerDescriptor {
    SamplerDescriptor {
        address_mode_u: AddressMode::ClampToEdge,
        address_mode_v: AddressMode::ClampToEdge,
        address_mode_w: AddressMode::ClampToEdge,
        mag_filter: FilterMode::Linear,
        min_filter: FilterMode::Nearest,
        mipmap_filter: FilterMode::Nearest,
    }
}

/// The layout entry at a slot of a stage. A buffer is described as its usage
/// allows, read-only unless it is the resource that the stage writes; the
/// display texture is a write-only storage image; the sampler filters.
pub open spec fn layout_entry(stage: Stage, slot: int) -> BindGroupLayoutEntry {
    let r = stage.spec_slots()[slot];
    let visibility = ShaderStage { bits: ShaderStage::COMPUTE };
    match r {
        Resource::DisplayTexture => BindGroupLayoutEntry {
            binding: slot as u32,
            visibility,
            ty: BindingType::StorageTexture {
                access: StorageTextureAccess::WriteOnly,
                format: TextureFormat::Rgba8Unorm,
                view_dimension: TextureViewDimension::D2,
            },
            count: None,
        },
        Resource::DisplaySampler => BindGroupLayoutEntry {
            binding: slot as u32,
            visibility,
            ty: BindingType::Sampler { filtering: true, comparison: false },
            count: None,
        },
        _ => buffer_layout_entry(
            slot as u32,
            visibility,
            inferred_binding(planned_usage(r), r != stage.spec_writes())->0,
        ),
    }
}

/// The binding layout of a stage, slot 0 first.
pub open spec fn stage_layout(stage: Stage) -> Seq<BindGroupLayoutEntry> {
    Seq::new(stage.spec_slots().len(), |slot: int| layout_entry(stage, slot))
}

/// What a frame records for one stage: its pipeline, its binding set at
/// index 0, and one dispatch over the stage's grid.
pub open spec fn stage_commands(stage: Stage, width: int, height: int) -> Seq<Command> {
    let grid = stage.grid(width, height);
    seq![
        Command::SetPipeline(stage),
        Command::SetBindGroup { index: 0, stage },
        Command::Dispatch { x: grid.0 as u32, y: grid.1 as u32, z: grid.2 as u32 },
    ]
}

/// What a frame records: ray generation, then intersection, then shading.
pub open spec fn frame_commands(width: int, height: int) -> Seq<Command> {
    stage_commands(Stage::RayGen, width, height) + stage_commands(Stage::Intersect, width, height)
        + stage_commands(Stage::Shade, width, height)
}

/// Whether `buffer` has the count, the size and the usage that the engine
/// plans for `r`, is filled exactly where `r` is uploaded, and is then filled
/// to its size.
pub open spec fn sized_as_planned(
    buffer: GPUBufferView,
    r: Resource,
    width: int,
    height: int,
    primitives: int,
) -> bool {
    &&& buffer.element_count == planned_count(r, width, height, primitives)
    &&& buffer.size == planned_count(r, width, height, primitives) * planned_stride(r)
    &&& buffer.usage == planned_usage(r)
    &&& buffer.filled_to_size()
    &&& buffer.initial is Some <==> r.is_uploaded()
}

/// Whether `buffer` is the buffer that the engine plans for `r`, given the
/// words that it is to be filled with.
pub open spec fn as_planned(
    buffer: GPUBufferView,
    r: Resource,
    width: int,
    height: int,
    primitives: int,
    words: Option<Seq<u32>>,
) -> bool {
    &&& sized_as_planned(buffer, r, width, height, primitives)
    &&& match words {
        Some(w) => buffer.initial matches Some(bytes) && memory_image(w, bytes),
        None => buffer.initial is None,
    }
}

/// How the engine's usages read as bindings.
proof fn lemma_planned_usage_bits()
    by (bit_vector)
    ensures
        (BufferUsage::UNIFORM | BufferUsage::COPY_DST) & BufferUsage::STORAGE
            != BufferUsage::STORAGE,
        (BufferUsage::UNIFORM | BufferUsage::COPY_DST) & BufferUsage::STORAGE_READ_ONLY
            != BufferUsage::STORAGE_READ_ONLY,
        (BufferUsage::UNIFORM | BufferUsage::COPY_DST) & BufferUsage::UNIFORM
            == BufferUsage::UNIFORM,
        BufferUsage::STORAGE & BufferUsage::STORAGE == BufferUsage::STORAGE,
        BufferUsage::STORAGE_READ_ONLY & BufferUsage::STORAGE != BufferUsage::STORAGE,
        BufferUsage::STORAGE_READ_ONLY & BufferUsage::STORAGE_READ_ONLY
            == BufferUsage::STORAGE_READ_ONLY,
{
}

/// Allocates one buffer of the engine. No stride of the engine is above that
/// of a geometry record, so the size fits whatever the count.
fn allocate(
    contents: Option<Vec<u32>>,
    element_count: u32,
    element_size: usize,
    usage: BufferUsage,
) -> (buffer: GPUBuffer)
    requires
        element_size <= GEOMETRY_STRIDE,
    ensures
        buffer@.element_count == element_count,
        buffer@.size == element_count * element_size,
        buffer@.usage == usage,
        match contents {
            Some(words) => buffer@.initial matches Some(bytes) && memory_image(words@, bytes),
            None => buffer@.initial is None,
        },
{
    assert(element_count * element_size <= u64::MAX) by (nonlinear_arith)
        requires
            element_count <= u32::MAX,
            element_size <= 196,
    ;
    GPUBuffer::new(GPUBufferDescription { contents, element_count, element_size, usage })
}

/// The engine.
pub struct Pathtracer {
    width: u32,
    height: u32,
    primitives: u32,
    display_texture: TextureDescriptor,
    display_sampler: SamplerDescriptor,
    intersect_buffer: GPUBuffer,
    geometry_buffer: GPUBuffer,
    camera_buffer: GPUBuffer,
    paths_buffer: GPUBuffer,
    params_buffer0: GPUBuffer,
    params_buffer1: GPUBuffer,
    path_gen_layout: Vec<BindGroupLayoutEntry>,
    hit_calc_layout: Vec<BindGroupLayoutEntry>,
    image_layout: Vec<BindGroupLayoutEntry>,
}

impl Pathtracer {
    /// What holds of every engine: the number of pixels fits a buffer's
    /// element count, every resource is sized for the engine's own
    /// resolution and number of primitives, and every stage has its layout.
    #[verifier::type_invariant]
    closed spec fn consistent(&self) -> bool {
        let (w, h, n) = (self.width as int, self.height as int, self.primitives as int);
        &&& w * h <= u32::MAX
        &&& self.display_texture == planned_texture(self.width, self.height)
        &&& self.display_sampler == planned_sampler()
        &&& sized_as_planned(self.camera_buffer@, Resource::CameraBuffer, w, h, n)
        &&& sized_as_planned(self.paths_buffer@, Resource::PathsBuffer, w, h, n)
        &&& sized_as_planned(self.intersect_buffer@, Resource::IntersectBuffer, w, h, n)
        &&& sized_as_planned(self.geometry_buffer@, Resource::GeometryBuffer, w, h, n)
        &&& sized_as_planned(self.params_buffer0@, Resource::ParamsBuffer0, w, h, n)
        &&& sized_as_planned(self.params_buffer1@, Resource::ParamsBuffer1, w, h, n)
        &&& self.path_gen_layout@ == stage_layout(Stage::RayGen)
        &&& self.hit_calc_layout@ == stage_layout(Stage::Intersect)
        &&& self.image_layout@ == stage_layout(Stage::Shade)
    }

    /// The number of pixels in a row of the image.
    pub closed spec fn spec_width(&self) -> u32 {
        self.width
    }

    /// The number of rows of the image.
    pub closed spec fn spec_height(&self) -> u32 {
        self.height
    }

    /// The number of primitives that the engine was built for.
    pub closed spec fn spec_primitives(&self) -> u32 {
        self.primitives
    }

    /// The display texture.
    pub closed spec fn spec_texture(&self) -> TextureDescriptor {
        self.display_texture
    }

    /// The sampler of the display texture.
    pub closed spec fn spec_sampler(&self) -> SamplerDescriptor {
        self.display_sampler
    }

    /// The buffer that the engine holds for `r`, where `r` is a buffer.
    pub closed spec fn spec_buffer(&self, r: Resource) -> GPUBufferView {
        match r {
            Resource::CameraBuffer => self.camera_buffer@,
            Resource::PathsBuffer => self.paths_buffer@,
            Resource::IntersectBuffer => self.intersect_buffer@,
            Resource::GeometryBuffer => self.geometry_buffer@,
            Resource::ParamsBuffer0 => self.params_buffer0@,
            _ => self.params_buffer1@,
        }
    }

    /// The binding layout that the engine holds for `stage`.
    pub closed spec fn spec_layout(&self, stage: Stage) -> Seq<BindGroupLayoutEntry> {
        match stage {
            Stage::RayGen => self.path_gen_layout@,
            Stage::Intersect => self.hit_calc_layout@,
            Stage::Shade => self.image_layout@,
        }
    }

    /// Whether the engine is the one that is built for `camera` and the
    /// primitives `geometry`: every buffer has the planned count, stride and
    /// usage and is filled with the planned words, the display texture has
    /// the camera's resolution, and every stage has its layout.
    pub open spec fn built_for(&self, camera: Camera, geometry: Seq<Geometry>) -> bool {
        &&& self.spec_width() == camera.width()
        &&& self.spec_height() == camera.height()
        &&& self.spec_primitives() == geometry.len()
        &&& self.spec_texture() == planned_texture(camera.width(), camera.height())
        &&& self.spec_sampler() == planned_sampler()
        &&& forall|r: Resource|
            r.is_buffer() ==> as_planned(
                #[trigger] self.spec_buffer(r),
                r,
                camera.width() as int,
                camera.height() as int,
                geometry.len() as int,
                planned_words(r, camera, geometry),
            )
        &&& forall|stage: Stage| #[trigger] self.spec_layout(stage) == stage_layout(stage)
    }

    /// The engine for `camera` and `scene`. The number of pixels and the
    /// number of primitives must each fit the 32-bit element count of a
    /// buffer.
    pub fn new(camera: &Camera, scene: &Scene) -> (engine: Pathtracer)
        requires
            camera.width() * camera.height() <= u32::MAX,
            scene.geometry@.len() <= u32::MAX,
        ensures
            engine.built_for(*camera, scene.geometry@),
    {
        let width = camera.res_x();
        let height = camera.res_y();
        let pixels: u32 = width * height;
        let primitives: u32 = scene.geometry.len() as u32;
        let compute = ShaderStage::from_bits(ShaderStage::COMPUTE);
        let uniform = BufferUsage::from_bits(BufferUsage::UNIFORM | BufferUsage::COPY_DST);
        let storage = BufferUsage::from_bits(BufferUsage::STORAGE);
        assert(CAMERA_STRIDE == 92 && RAY_STRIDE == 32 && INTERSECTION_STRIDE == 16
            && GEOMETRY_STRIDE == 196 && PARAM_STRIDE == 4);

        let camera_words = camera.words();
        let camera_buffer = allocate(Some(camera_words), 1, CAMERA_STRIDE, uniform);
        let paths_buffer = allocate(None, pixels, RAY_STRIDE, storage);
        let params0 = vec![width, height];
        assert(params0@ =~= seq![width, height]);
        let params_buffer0 = allocate(Some(params0), 2, PARAM_STRIDE, uniform);
        let intersect_buffer = allocate(None, pixels, INTERSECTION_STRIDE, storage);
        let geometry_words = scene.words();
        let geometry_buffer = allocate(
            Some(geometry_words),
            primitives,
            GEOMETRY_STRIDE,
            BufferUsage::from_bits(BufferUsage::STORAGE_READ_ONLY),
        );
        let params1 = vec![primitives, pixels];
        assert(params1@ =~= seq![primitives, pixels]);
        let params_buffer1 = allocate(Some(params1), 2, PARAM_STRIDE, uniform);

        let display_texture = TextureDescriptor {
            size: Extent3d { width, height, depth: 1 },
            mip_level_count: 1,
            sample_count: 1,
            dimension: TextureDimension::D2,
            format: TextureFormat::Rgba8Unorm,
            usage: TextureUsage::from_bits(
                TextureUsage::SAMPLED | TextureUsage::COPY_DST | TextureUsage::STORAGE,
            ),
        };
        let display_sampler = SamplerDescriptor {
            address_mode_u: AddressMode::ClampToEdge,
            address_mode_v: AddressMode::ClampToEdge,
            address_mode_w: AddressMode::ClampToEdge,
            mag_filter: FilterMode::Linear,
            min_filter: FilterMode::Nearest,
            mipmap_filter: FilterMode::Nearest,
        };

        proof {
            lemma_planned_usage_bits();
        }
        let path_gen_layout = vec![
            camera_buffer.as_bgl_entry(0, compute, true).unwrap(),
            paths_buffer.as_bgl_entry(1, compute, false).unwrap(),
        ];
        let hit_calc_layout = vec![
            intersect_buffer.as_bgl_entry(0, compute, false).unwrap(),
            geometry_buffer.as_bgl_entry(1, compute, true).unwrap(),
            paths_buffer.as_bgl_entry(2, compute, true).unwrap(),
            params_buffer1.as_bgl_entry(3, compute, true).unwrap(),
        ];
        let image_layout = vec![
            BindGroupLayoutEntry {
                binding: 0,
                visibility: compute,
                ty: BindingType::StorageTexture {
                    access: StorageTextureAccess::WriteOnly,
                    format: TextureFormat::Rgba8Unorm,
                    view_dimension: TextureViewDimension::D2,
                },
                count: None,
            },
            BindGroupLayoutEntry {
                binding: 1,
                visibility: compute,
                ty: BindingType::Sampler { filtering: true, comparison: false },
                count: None,
            },
            paths_buffer.as_bgl_entry(2, compute, true).unwrap(),
            params_buffer0.as_bgl_entry(3, compute, true).unwrap(),
            intersect_buffer.as_bgl_entry(4, compute, true).unwrap(),
        ];

        assert(path_gen_layout@ =~= stage_layout(Stage::RayGen));
        assert(hit_calc_layout@ =~= stage_layout(Stage::Intersect));
        assert(image_layout@ =~= stage_layout(Stage::Shade));
        let engine = Pathtracer {
            width,
            height,
            primitives,
            display_texture,
            display_sampler,
            intersect_buffer,
            geometry_buffer,
            camera_buffer,
            paths_buffer,
            params_buffer0,
            params_buffer1,
            path_gen_layout,
            hit_calc_layout,
            image_layout,
        };
        engine
    }

    /// The number of pixels in a row of the image.
    pub fn width(&self) -> (w: u32)
        ensures
            w == self.spec_width(),
            w * self.spec_height() <= u32::MAX,
    {
        proof {
            use_type_invariant(self);
        }
        self.width
    }

    /// The number of rows of the image.
    pub fn height(&self) -> (h: u32)
        ensures
            h == self.spec_height(),
    {
        self.height
    }

    /// The buffer that the engine holds for `r`, or `None` where `r` is no
    /// buffer.
    pub fn buffer(&self, r: Resource) -> (buffer: Option<&GPUBuffer>)
        ensures
            match buffer {
                Some(b) => {
                    &&& r.is_buffer()
                    &&& b@ == self.spec_buffer(r)
                    &&& sized_as_planned(
                        b@,
                        r,
                        self.spec_width() as int,
                        self.spec_height() as int,
                        self.spec_primitives() as int,
                    )
                },
                None => !r.is_buffer(),
            },
    {
        proof {
            use_type_invariant(self);
        }
        match r {
            Resource::CameraBuffer => Some(&self.camera_buffer),
            Resource::PathsBuffer => Some(&self.paths_buffer),
            Resource::IntersectBuffer => Some(&self.intersect_buffer),
            Resource::GeometryBuffer => Some(&self.geometry_buffer),
            Resource::ParamsBuffer0 => Some(&self.params_buffer0),
            Resource::ParamsBuffer1 => Some(&self.params_buffer1),
            Resource::DisplayTexture => None,
            Resource::DisplaySampler => None,
        }
    }

    /// The binding layout of `stage`, slot 0 first.
    pub fn layout(&self, stage: Stage) -> (entries: &Vec<BindGroupLayoutEntry>)
        ensures
            entries@ == self.spec_layout(stage),
            entries@ == stage_layout(stage),
    {
        proof {
            use_type_invariant(self);
        }
        match stage {
            Stage::RayGen => &self.path_gen_layout,
            Stage::Intersect => &self.hit_calc_layout,
            Stage::Shade => &self.image_layout,
        }
    }

    /// The work of one frame, in the order in which it is to be recorded
    /// into one compute pass: ray generation, intersection, shading. Each
    /// stage reads what the stage before it wrote, so the order is part of
    /// the result.
    pub fn run(&self) -> (commands: Vec<Command>)
        ensures
            commands@ == frame_commands(self.spec_width() as int, self.spec_height() as int),
    {
        proof {
            use_type_invariant(self);
        }
        let block_dims_2d = Stage::RayGen.dispatch_grid(self.width, self.height);
        let block_dims_1d = Stage::Intersect.dispatch_grid(self.width, self.height);
        let commands = vec![
            Command::SetPipeline(Stage::RayGen),
            Command::SetBindGroup { index: 0, stage: Stage::RayGen },
            Command::Dispatch { x: block_dims_2d.0, y: block_dims_2d.1, z: block_dims_2d.2 },
            Command::SetPipeline(Stage::Intersect),
            Command::SetBindGroup { index: 0, stage: Stage::Intersect },
            Command::Dispatch { x: block_dims_1d.0, y: block_dims_1d.1, z: block_dims_1d.2 },
            Command::SetPipeline(Stage::Shade),
            Command::SetBindGroup { index: 0, stage: Stage::Shade },
            Command::Dispatch { x: block_dims_2d.0, y: block_dims_2d.1, z: block_dims_2d.2 },
        ];
        assert(commands@ =~= frame_commands(
            self.spec_width() as int,
            self.spec_height() as int,
        ));
        commands
    }

    /// Moving the camera of a built engine is not supported: the call always
    /// fails, and changes nothing.
    pub fn reset_resources(&self, camera: &Camera) -> (done: Result<(), EngineError>)
        ensures
            done == Err::<(), EngineError>(EngineError::NotImplemented),
    {
        Err(EngineError::NotImplemented)
    }

    /// What the display texture is.
    pub fn texture(&self) -> (texture: &TextureDescriptor)
        ensures
            *texture == self.spec_texture(),
            *texture == planned_texture(self.spec_width(), self.spec_height()),
    {
        proof {
            use_type_invariant(self);
        }
        &self.display_texture
    }

    /// What the sampler of the display texture is.
    pub fn sampler(&self) -> (sampler: &SamplerDescriptor)
        ensures
            *sampler == self.spec_sampler(),
            *sampler == planned_sampler(),
    {
        proof {
            use_type_invariant(self);
        }
        &self.display_sampler
    }
}

/// In the layout of a stage, the only binding through which the stage can
/// write is that of the resource which the stage writes. Every other buffer
/// is a uniform or read-only storage.
pub proof fn lemma_only_the_output_is_writable(stage: Stage, slot: int)
    requires
        0 <= slot < stage.spec_slots().len(),
    ensures
        stage.spec_slots()[slot] == stage.spec_writes() ==> {
            ||| layout_entry(stage, slot).ty matches BindingType::Buffer {
                ty: BufferBindingType::Storage { read_only: false },
                ..
            }
            ||| layout_entry(stage, slot).ty matches BindingType::StorageTexture {
                access: StorageTextureAccess::WriteOnly,
                ..
            }
        },
        stage.spec_slots()[slot] != stage.spec_writes() ==> {
            ||| layout_entry(stage, slot).ty matches BindingType::Buffer {
                ty: BufferBindingType::Uniform,
                ..
            }
            ||| layout_entry(stage, slot).ty matches BindingType::Buffer {
                ty: BufferBindingType::Storage { read_only: true },
                ..
            }
            ||| layout_entry(stage, slot).ty is Sampler
        },
        layout_entry(stage, slot).binding == slot,
{
    lemma_planned_usage_bits();
}

/// A frame records three commands for each stage, at the stage's place in
/// the order: its pipeline, its binding set, its dispatch. So a stage that
/// runs later in the frame is dispatched later in the recording.
pub proof fn lemma_stages_are_recorded_in_order(stage: Stage, width: int, height: int)
    ensures
        frame_commands(width, height).len() == 9,
        frame_commands(width, height)[3 * stage.position()] == Command::SetPipeline(stage),
        frame_commands(width, height)[3 * stage.position() + 1] == (Command::SetBindGroup {
            index: 0,
            stage,
        }),
        frame_commands(width, height)[3 * stage.position() + 2] == stage_commands(
            stage,
            width,
            height,
        )[2],
{
}

/// Two engines built for the same camera and the same primitives are the
/// same plan: equal texture and sampler, equal layouts, buffers of equal
/// count, size and usage that are filled with images of the same words, and
/// equal frames.
pub proof fn lemma_equal_inputs_build_equal_engines(
    a: Pathtracer,
    b: Pathtracer,
    camera: Camera,
    geometry: Seq<Geometry>,
)
    requires
        a.built_for(camera, geometry),
        b.built_for(camera, geometry),
    ensures
        a.spec_texture() == b.spec_texture(),
        a.spec_sampler() == b.spec_sampler(),
        forall|stage: Stage| #[trigger] a.spec_layout(stage) == b.spec_layout(stage),
        forall|r: Resource|
            r.is_buffer() ==> {
                &&& (#[trigger] a.spec_buffer(r)).element_count == b.spec_buffer(r).element_count
                &&& a.spec_buffer(r).size == b.spec_buffer(r).size
                &&& a.spec_buffer(r).usage == b.spec_buffer(r).usage
                &&& a.spec_buffer(r).initial is Some <==> b.spec_buffer(r).initial is Some
            },
        frame_commands(a.spec_width() as int, a.spec_height() as int) == frame_commands(
            b.spec_width() as int,
            b.spec_height() as int,
        ),
{
}

/// An engine that is built anew for another resolution holds nothing that is
/// sized for the old one: the ray and intersection buffers have one element
/// for each pixel of the new resolution, the display texture has the new
/// extent, the parameter blocks are filled from the new resolution, and the
/// frame is dispatched over the new grid.
pub proof fn lemma_rebuilding_leaves_no_stale_size(
    before: Pathtracer,
    after: Pathtracer,
    old_camera: Camera,
    new_camera: Camera,
    geometry: Seq<Geometry>,
)
    requires
        before.built_for(old_camera, geometry),
        after.built_for(new_camera, geometry),
    ensures
        after.spec_buffer(Resource::PathsBuffer).element_count == new_camera.width()
            * new_camera.height(),
        after.spec_buffer(Resource::PathsBuffer).size == new_camera.width() * new_camera.height()
            * RAY_STRIDE,
        after.spec_buffer(Resource::IntersectBuffer).element_count == new_camera.width()
            * new_camera.height(),
        after.spec_buffer(Resource::IntersectBuffer).size == new_camera.width()
            * new_camera.height() * INTERSECTION_STRIDE,
        after.spec_texture().size == (Extent3d {
            width: new_camera.width(),
            height: new_camera.height(),
            depth: 1,
        }),
        after.spec_buffer(Resource::ParamsBuffer0).initial matches Some(bytes) && memory_image(
            seq![new_camera.width(), new_camera.height()],
            bytes,
        ),
        after.spec_buffer(Resource::ParamsBuffer1).initial matches Some(bytes) && memory_image(
            seq![geometry.len() as u32, (new_camera.width() * new_camera.height()) as u32],
            bytes,
        ),
        after.spec_buffer(Resource::CameraBuffer).initial matches Some(bytes) && memory_image(
            new_camera.layout(),
            bytes,
        ),
        frame_commands(after.spec_width() as int, after.spec_height() as int) == frame_commands(
            new_camera.width() as int,
            new_camera.height() as int,
        ),
{
}

} // verus!
