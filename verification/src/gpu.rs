//! The vocabulary in which the engine describes work for a graphics device,
//! and the device recorder that collects it.
//!
//! Nothing here touches a real device. Every resource the engine creates is
//! recorded as a [`DeviceCall`]; the position of the call in the record is the
//! resource's handle. The host application replays the record, in order,
//! against the graphics API of its choice.

use crate::instance::Instance;
use vstd::prelude::*;

verus! {

/// The 32-bit pattern of the real number one in single precision.
pub const ONE_SINGLE: u32 = 0x3F80_0000;

/// The 64-bit pattern of the real number one in double precision.
pub const ONE_DOUBLE: u64 = 0x3FF0_0000_0000_0000;

/// The shader stages that can see a binding.
#[derive(Clone, Copy, Debug, PartialEq, Eq, Structural)]
pub struct ShaderStages {
    pub vertex: bool,
    pub fragment: bool,
    pub compute: bool,
}

impl ShaderStages {
    /// Visible to the vertex and the fragment stage.
    pub open spec fn spec_vertex_fragment() -> ShaderStages {
        ShaderStages { vertex: true, fragment: true, compute: false }
    }

    /// Visible to the fragment stage only.
    pub open spec fn spec_fragment() -> ShaderStages {
        ShaderStages { vertex: false, fragment: true, compute: false }
    }

    /// Visible to the compute stage only.
    pub open spec fn spec_compute() -> ShaderStages {
        ShaderStages { vertex: false, fragment: false, compute: true }
    }

    /// Visible to the vertex and the fragment stage.
    #[verifier::when_used_as_spec(spec_vertex_fragment)]
    pub fn vertex_fragment() -> (r: ShaderStages)
        ensures
            r == Self::spec_vertex_fragment(),
    {
        ShaderStages { vertex: true, fragment: true, compute: false }
    }

    /// Visible to the fragment stage only.
    #[verifier::when_used_as_spec(spec_fragment)]
    pub fn fragment() -> (r: ShaderStages)
        ensures
            r == Self::spec_fragment(),
    {
        ShaderStages { vertex: false, fragment: true, compute: false }
    }

    /// Visible to the compute stage only.
    #[verifier::when_used_as_spec(spec_compute)]
    pub fn compute() -> (r: ShaderStages)
        ensures
            r == Self::spec_compute(),
    {
        ShaderStages { vertex: false, fragment: false, compute: true }
    }
}

/// How a buffer is bound.
#[derive(Clone, Copy, Debug, PartialEq, Eq, Structural)]
pub enum BufferBindingType {
    Uniform,
    Storage { read_only: bool },
}

/// The shape of a texture view.
#[derive(Clone, Copy, Debug, PartialEq, Eq, Structural)]
pub enum TextureViewDimension {
    D1,
    D2,
    D2Array,
    Cube,
    CubeArray,
    D3,
}

/// What a shader reads when it samples a texture.
#[derive(Clone, Copy, Debug, PartialEq, Eq, Structural)]
pub enum TextureSampleType {
    Float { filterable: bool },
    Depth,
    Sint,
    Uint,
}

/// The pixel formats the engine works with.
#[derive(Clone, Copy, Debug, PartialEq, Eq, Structural)]
pub enum TextureFormat {
    Rgba8Unorm,
    Rgba8UnormSrgb,
    Bgra8Unorm,
    Bgra8UnormSrgb,
    Rgba16Float,
    Rgba32Float,
    Depth32Float,
}

/// How a shader may access a storage texture.
#[derive(Clone, Copy, Debug, PartialEq, Eq, Structural)]
pub enum StorageTextureAccess {
    WriteOnly,
    ReadOnly,
    ReadWrite,
}

/// What one slot of a bind group holds.
#[derive(Clone, Copy, Debug, PartialEq, Eq, Structural)]
pub enum BindingType {
    Buffer { ty: BufferBindingType, has_dynamic_offset: bool, min_binding_size: Option<u64> },
    Sampler { filtering: bool, comparison: bool },
    Texture { sample_type: TextureSampleType, view_dimension: TextureViewDimension, multisampled: bool },
    StorageTexture { access: StorageTextureAccess, format: TextureFormat, view_dimension: TextureViewDimension },
}

/// One slot of a bind group layout.
#[derive(Clone, Copy, Debug, PartialEq, Eq, Structural)]
pub struct BindGroupLayoutEntry {
    pub binding: u32,
    pub visibility: ShaderStages,
    pub ty: BindingType,
}

impl BindGroupLayoutEntry {
    /// Slot 0 of a bind group that holds one uniform buffer, visible to the
    /// vertex and the fragment stage.
    pub open spec fn spec_uniform() -> BindGroupLayoutEntry {
        BindGroupLayoutEntry {
            binding: 0,
            visibility: ShaderStages::spec_vertex_fragment(),
            ty: BindingType::Buffer { ty: BufferBindingType::Uniform, has_dynamic_offset: false, min_binding_size: None },
        }
    }

    /// Slot 0 of a bind group that holds one uniform buffer, visible to the
    /// vertex and the fragment stage.
    #[verifier::when_used_as_spec(spec_uniform)]
    pub fn uniform() -> (entry: BindGroupLayoutEntry)
        ensures
            entry == Self::spec_uniform(),
    {
        BindGroupLayoutEntry {
            binding: 0,
            visibility: ShaderStages::vertex_fragment(),
            ty: BindingType::Buffer { ty: BufferBindingType::Uniform, has_dynamic_offset: false, min_binding_size: None },
        }
    }
}

/// A range of a buffer, bound as one resource. `size` of `None` binds up to the end.
#[derive(Clone, Copy, Debug, PartialEq, Eq, Structural)]
pub struct BufferBinding {
    pub buffer: usize,
    pub offset: u64,
    pub size: Option<u64>,
}

impl BufferBinding {
    /// The whole of a buffer.
    pub open spec fn spec_entire(buffer: usize) -> BufferBinding {
        BufferBinding { buffer, offset: 0, size: None }
    }

    /// The whole of a buffer.
    #[verifier::when_used_as_spec(spec_entire)]
    pub fn entire(buffer: usize) -> (binding: BufferBinding)
        ensures
            binding == Self::spec_entire(buffer),
    {
        BufferBinding { buffer, offset: 0, size: None }
    }
}

/// A concrete resource in a bind group, named by its handle.
#[derive(Clone, Copy, Debug, PartialEq, Eq, Structural)]
pub enum BindingResource {
    Buffer(BufferBinding),
    TextureView(usize),
    Sampler(usize),
}

/// One filled slot of a bind group.
#[derive(Clone, Copy, Debug, PartialEq, Eq, Structural)]
pub struct BindGroupEntry {
    pub binding: u32,
    pub resource: BindingResource,
}

/// A comparison, as used by depth tests and comparison samplers.
#[derive(Clone, Copy, Debug, PartialEq, Eq, Structural)]
pub enum CompareFunction {
    Never,
    Less,
    Equal,
    LessEqual,
    Greater,
    NotEqual,
    GreaterEqual,
    Always,
}

/// What a sampler does outside the unit square.
#[derive(Clone, Copy, Debug, PartialEq, Eq, Structural)]
pub enum AddressMode {
    ClampToEdge,
    Repeat,
    MirrorRepeat,
}

/// How a sampler interpolates.
#[derive(Clone, Copy, Debug, PartialEq, Eq, Structural)]
pub enum FilterMode {
    Nearest,
    Linear,
}

/// The dimensionality of a texture.
#[derive(Clone, Copy, Debug, PartialEq, Eq, Structural)]
pub enum TextureDimension {
    D1,
    D2,
    D3,
}

/// The extent of a texture.
#[derive(Clone, Copy, Debug, PartialEq, Eq, Structural)]
pub struct Extent3d {
    pub width: u32,
    pub height: u32,
    pub depth_or_array_layers: u32,
}

/// What a texture may be used for.
#[derive(Clone, Copy, Debug, PartialEq, Eq, Structural)]
pub struct TextureUsages {
    pub copy_src: bool,
    pub copy_dst: bool,
    pub texture_binding: bool,
    pub storage_binding: bool,
    pub render_attachment: bool,
}

/// What a buffer may be used for.
#[derive(Clone, Copy, Debug, PartialEq, Eq, Structural)]
pub struct BufferUsages {
    pub copy_src: bool,
    pub copy_dst: bool,
    pub index: bool,
    pub vertex: bool,
    pub uniform: bool,
    pub storage: bool,
}

/// A texture to create.
#[derive(Clone, Copy, Debug, PartialEq, Eq, Structural)]
pub struct TextureDescriptor {
    pub size: Extent3d,
    pub mip_level_count: u32,
    pub sample_count: u32,
    pub dimension: TextureDimension,
    pub format: TextureFormat,
    pub usage: TextureUsages,
}

/// A view of a texture to create. `mip_level_count` of `None` takes every
/// level from `base_mip_level` on.
#[derive(Clone, Copy, Debug, PartialEq, Eq, Structural)]
pub struct TextureViewDescriptor {
    pub texture: usize,
    pub base_mip_level: u32,
    pub mip_level_count: Option<u32>,
}

/// A sampler to create. The level-of-detail clamps are whole numbers of
/// levels; without an upper clamp every level can be reached.
#[derive(Clone, Copy, Debug, PartialEq, Eq, Structural)]
pub struct SamplerDescriptor {
    pub address_mode_u: AddressMode,
    pub address_mode_v: AddressMode,
    pub address_mode_w: AddressMode,
    pub mag_filter: FilterMode,
    pub min_filter: FilterMode,
    pub mipmap_filter: FilterMode,
    pub compare: Option<CompareFunction>,
    pub lod_min_clamp: i32,
    pub lod_max_clamp: Option<i32>,
}

impl BufferUsages {
    /// No use at all.
    pub open spec fn spec_none() -> BufferUsages {
        BufferUsages { copy_src: false, copy_dst: false, index: false, vertex: false, uniform: false, storage: false }
    }

    /// A uniform buffer that can be written after its creation.
    pub open spec fn spec_uniform() -> BufferUsages {
        BufferUsages { copy_src: false, copy_dst: true, index: false, vertex: false, uniform: true, storage: false }
    }

    /// No use at all.
    #[verifier::when_used_as_spec(spec_none)]
    pub fn none() -> (usage: BufferUsages)
        ensures
            usage == Self::spec_none(),
    {
        BufferUsages { copy_src: false, copy_dst: false, index: false, vertex: false, uniform: false, storage: false }
    }

    /// A uniform buffer that can be written after its creation.
    #[verifier::when_used_as_spec(spec_uniform)]
    pub fn uniform() -> (usage: BufferUsages)
        ensures
            usage == Self::spec_uniform(),
    {
        BufferUsages { copy_src: false, copy_dst: true, index: false, vertex: false, uniform: true, storage: false }
    }
}

/// A buffer to create without contents.
#[derive(Clone, Copy, Debug, PartialEq, Eq, Structural)]
pub struct BufferDescriptor {
    pub size: u64,
    pub usage: BufferUsages,
}

/// The layout of the pixel rows handed to a texture write.
#[derive(Clone, Copy, Debug, PartialEq, Eq, Structural)]
pub struct ImageDataLayout {
    pub offset: u64,
    pub bytes_per_row: Option<u32>,
    pub rows_per_image: Option<u32>,
}

/// The format of one vertex attribute.
#[derive(Clone, Copy, Debug, PartialEq, Eq, Structural)]
pub enum VertexFormat {
    Float32x2,
    Float32x3,
    Float32x4,
}

/// Whether a vertex buffer advances per vertex or per instance.
#[derive(Clone, Copy, Debug, PartialEq, Eq, Structural)]
pub enum VertexStepMode {
    Vertex,
    Instance,
}

/// One attribute of a vertex buffer.
#[derive(Clone, Copy, Debug, PartialEq, Eq, Structural)]
pub struct VertexAttribute {
    pub offset: u64,
    pub shader_location: u32,
    pub format: VertexFormat,
}

/// The layout of one vertex buffer.
#[derive(Clone, Debug, PartialEq, Eq)]
pub struct VertexBufferLayout {
    pub array_stride: u64,
    pub step_mode: VertexStepMode,
    pub attributes: Vec<VertexAttribute>,
}

/// The mathematical content of a [`VertexBufferLayout`].
pub struct VertexBufferLayoutView {
    pub array_stride: u64,
    pub step_mode: VertexStepMode,
    pub attributes: Seq<VertexAttribute>,
}

impl View for VertexBufferLayout {
    type V = VertexBufferLayoutView;

    open spec fn view(&self) -> VertexBufferLayoutView {
        VertexBufferLayoutView {
            array_stride: self.array_stride,
            step_mode: self.step_mode,
            attributes: self.attributes@,
        }
    }
}

/// How triangles are assembled.
#[derive(Clone, Copy, Debug, PartialEq, Eq, Structural)]
pub enum PrimitiveTopology {
    TriangleList,
    TriangleStrip,
}

/// Which side of a triangle is dropped.
#[derive(Clone, Copy, Debug, PartialEq, Eq, Structural)]
pub enum Face {
    Front,
    Back,
}

/// The depth test of a render pipeline. Depth writes are always on.
#[derive(Clone, Copy, Debug, PartialEq, Eq, Structural)]
pub struct DepthStencilState {
    pub format: TextureFormat,
    pub depth_compare: CompareFunction,
}

/// Where the text of a shader module comes from.
#[derive(Clone, Debug, PartialEq, Eq)]
pub enum ShaderSource {
    /// A file below the `shaders` directory of the assets.
    File(String),
    /// The blit shader that the engine carries for building mip chains.
    MipmapBlit,
}

/// A render pipeline to create. Every colour target replaces what it covers
/// and writes all channels; triangles wind counter-clockwise.
#[derive(Clone, Debug, PartialEq, Eq)]
pub struct RenderPipelineDescriptor {
    pub layout: Option<usize>,
    pub module: usize,
    pub vertex_entry_point: String,
    pub fragment_entry_point: String,
    pub buffers: Vec<VertexBufferLayout>,
    pub targets: Vec<TextureFormat>,
    pub topology: PrimitiveTopology,
    pub cull_mode: Option<Face>,
    pub depth_stencil: Option<DepthStencilState>,
}

/// The mathematical content of a [`RenderPipelineDescriptor`].
pub struct RenderPipelineDescriptorView {
    pub layout: Option<usize>,
    pub module: usize,
    pub vertex_entry_point: Seq<char>,
    pub fragment_entry_point: Seq<char>,
    pub buffers: Seq<VertexBufferLayoutView>,
    pub targets: Seq<TextureFormat>,
    pub topology: PrimitiveTopology,
    pub cull_mode: Option<Face>,
    pub depth_stencil: Option<DepthStencilState>,
}

impl View for RenderPipelineDescriptor {
    type V = RenderPipelineDescriptorView;

    open spec fn view(&self) -> RenderPipelineDescriptorView {
        RenderPipelineDescriptorView {
            layout: self.layout,
            module: self.module,
            vertex_entry_point: self.vertex_entry_point@,
            fragment_entry_point: self.fragment_entry_point@,
            buffers: Seq::new(self.buffers@.len(), |i: int| self.buffers@[i]@),
            targets: self.targets@,
            topology: self.topology,
            cull_mode: self.cull_mode,
            depth_stencil: self.depth_stencil,
        }
    }
}

/// The surface that frames are presented on, as far as the engine needs it.
#[derive(Clone, Copy, Debug, PartialEq, Eq, Structural)]
pub struct SurfaceConfiguration {
    pub format: TextureFormat,
    pub width: u32,
    pub height: u32,
}

/// One request to the graphics device.
#[derive(Clone, Debug, PartialEq, Eq)]
pub enum DeviceCall {
    CreateTexture { label: String, descriptor: TextureDescriptor },
    CreateView(TextureViewDescriptor),
    CreateSampler(SamplerDescriptor),
    /// A buffer without contents.
    CreateBuffer(BufferDescriptor),
    /// A buffer filled with 32-bit words.
    CreateBufferInit { usage: BufferUsages, contents: Vec<u32> },
    CreateBindGroupLayout { entries: Vec<BindGroupLayoutEntry> },
    CreatePipelineLayout { bind_group_layouts: Vec<usize> },
    CreateShaderModule { source: ShaderSource },
    CreateRenderPipeline(RenderPipelineDescriptor),
    CreateComputePipeline { layout: usize, module: usize, entry_point: String },
    CreateBindGroup { layout: usize, entries: Vec<BindGroupEntry> },
    /// Pixel rows written into mip level 0 of a texture.
    WriteTexture { texture: usize, data: Vec<u8>, layout: ImageDataLayout, size: Extent3d },
    /// A vertex buffer that holds one matrix for each of these instances.
    CreateInstanceBuffer { instances: Vec<Instance> },
    /// The layout that a pipeline made without one derived for its bind group `index`.
    GetBindGroupLayout { pipeline: usize, index: u32 },
    /// One render pass that clears `target` to white and draws four vertices
    /// into it with `pipeline` and `bind_group`.
    Blit { pipeline: usize, bind_group: usize, target: usize },
    /// The surface configured anew, for presenting in first-in-first-out order.
    ConfigureSurface(SurfaceConfiguration),
}

/// The mathematical content of a [`ShaderSource`].
pub enum ShaderSourceView {
    File(Seq<char>),
    MipmapBlit,
}

impl View for ShaderSource {
    type V = ShaderSourceView;

    open spec fn view(&self) -> ShaderSourceView {
        match self {
            ShaderSource::File(name) => ShaderSourceView::File(name@),
            ShaderSource::MipmapBlit => ShaderSourceView::MipmapBlit,
        }
    }
}

/// The mathematical content of a [`DeviceCall`].
pub enum DeviceCallView {
    CreateTexture { label: Seq<char>, descriptor: TextureDescriptor },
    CreateView(TextureViewDescriptor),
    CreateSampler(SamplerDescriptor),
    CreateBuffer(BufferDescriptor),
    CreateBufferInit { usage: BufferUsages, contents: Seq<u32> },
    CreateBindGroupLayout { entries: Seq<BindGroupLayoutEntry> },
    CreatePipelineLayout { bind_group_layouts: Seq<usize> },
    CreateShaderModule { source: ShaderSourceView },
    CreateRenderPipeline(RenderPipelineDescriptorView),
    CreateComputePipeline { layout: usize, module: usize, entry_point: Seq<char> },
    CreateBindGroup { layout: usize, entries: Seq<BindGroupEntry> },
    WriteTexture { texture: usize, data: Seq<u8>, layout: ImageDataLayout, size: Extent3d },
    CreateInstanceBuffer { instances: Seq<Instance> },
    GetBindGroupLayout { pipeline: usize, index: u32 },
    Blit { pipeline: usize, bind_group: usize, target: usize },
    ConfigureSurface(SurfaceConfiguration),
}

impl View for DeviceCall {
    type V = DeviceCallView;

    open spec fn view(&self) -> DeviceCallView {
        match self {
            DeviceCall::CreateTexture { label, descriptor } => DeviceCallView::CreateTexture {
                label: label@,
                descriptor: *descriptor,
            },
            DeviceCall::CreateView(d) => DeviceCallView::CreateView(*d),
            DeviceCall::CreateSampler(d) => DeviceCallView::CreateSampler(*d),
            DeviceCall::CreateBuffer(d) => DeviceCallView::CreateBuffer(*d),
            DeviceCall::CreateBufferInit { usage, contents } => DeviceCallView::CreateBufferInit {
                usage: *usage,
                contents: contents@,
            },
            DeviceCall::CreateBindGroupLayout { entries } => DeviceCallView::CreateBindGroupLayout {
                entries: entries@,
            },
            DeviceCall::CreatePipelineLayout { bind_group_layouts } => DeviceCallView::CreatePipelineLayout {
                bind_group_layouts: bind_group_layouts@,
            },
            DeviceCall::CreateShaderModule { source } => DeviceCallView::CreateShaderModule { source: source@ },
            DeviceCall::CreateRenderPipeline(d) => DeviceCallView::CreateRenderPipeline(d@),
            DeviceCall::CreateComputePipeline { layout, module, entry_point } => DeviceCallView::CreateComputePipeline {
                layout: *layout,
                module: *module,
                entry_point: entry_point@,
            },
            DeviceCall::CreateBindGroup { layout, entries } => DeviceCallView::CreateBindGroup {
                layout: *layout,
                entries: entries@,
            },
            DeviceCall::WriteTexture { texture, data, layout, size } => DeviceCallView::WriteTexture {
                texture: *texture,
                data: data@,
                layout: *layout,
                size: *size,
            },
            DeviceCall::CreateInstanceBuffer { instances } => DeviceCallView::CreateInstanceBuffer {
                instances: instances@,
            },
            DeviceCall::GetBindGroupLayout { pipeline, index } => DeviceCallView::GetBindGroupLayout {
                pipeline: *pipeline,
                index: *index,
            },
            DeviceCall::Blit { pipeline, bind_group, target } => DeviceCallView::Blit {
                pipeline: *pipeline,
                bind_group: *bind_group,
                target: *target,
            },
            DeviceCall::ConfigureSurface(config) => DeviceCallView::ConfigureSurface(*config),
        }
    }
}

/// Work for the graphics device that makes nothing new. It has no handle
/// and no place in the record: the host does it once and forgets it. What
/// every frame asks of the device is of this kind, so the record grows
/// only when something is made that was not there before.
#[derive(Clone, Debug, PartialEq, Eq)]
pub enum FrameWrite {
    /// Words written into a buffer, from its start.
    WriteBuffer { buffer: usize, contents: Vec<u32> },
    /// The instance buffer behind this handle built anew, to hold one
    /// matrix for each of these instances. The buffer that stood behind the
    /// handle is dropped.
    RebuildInstanceBuffer { buffer: usize, instances: Vec<Instance> },
}

/// The mathematical content of a [`FrameWrite`].
pub enum FrameWriteView {
    WriteBuffer { buffer: usize, contents: Seq<u32> },
    RebuildInstanceBuffer { buffer: usize, instances: Seq<Instance> },
}

impl View for FrameWrite {
    type V = FrameWriteView;

    open spec fn view(&self) -> FrameWriteView {
        match self {
            FrameWrite::WriteBuffer { buffer, contents } => FrameWriteView::WriteBuffer {
                buffer: *buffer,
                contents: contents@,
            },
            FrameWrite::RebuildInstanceBuffer { buffer, instances } => FrameWriteView::RebuildInstanceBuffer {
                buffer: *buffer,
                instances: instances@,
            },
        }
    }
}

/// The content of each write, in order.
pub open spec fn write_views(writes: Seq<FrameWrite>) -> Seq<FrameWriteView> {
    Seq::new(writes.len(), |i: int| writes[i]@)
}

/// The record of everything asked of the graphics device so far.
#[derive(Debug)]
pub struct Device {
    pub calls: Vec<DeviceCall>,
}

impl View for Device {
    type V = Seq<DeviceCallView>;

    open spec fn view(&self) -> Seq<DeviceCallView> {
        Seq::new(self.calls@.len(), |i: int| self.calls@[i]@)
    }
}

/// The two calls that expose one uniform buffer to shaders: a bind group
/// layout with a single uniform slot, and the bind group, made with that
/// layout, that binds the whole buffer to slot 0.
pub open spec fn uniform_group_calls(buffer: usize, layout: usize) -> Seq<DeviceCallView> {
    seq![
        DeviceCallView::CreateBindGroupLayout { entries: seq![BindGroupLayoutEntry::spec_uniform()] },
        DeviceCallView::CreateBindGroup {
            layout,
            entries: seq![
                BindGroupEntry { binding: 0, resource: BindingResource::Buffer(BufferBinding::spec_entire(buffer)) },
            ],
        },
    ]
}

impl Device {
    /// Records the layout and the bind group that expose one uniform buffer at
    /// slot 0, and returns their handles, the layout's first.
    pub fn create_uniform_group(&mut self, buffer: usize) -> (handles: (usize, usize))
        ensures
            handles.0 == old(self)@.len(),
            handles.1 == old(self)@.len() + 1,
            final(self)@ == old(self)@ + uniform_group_calls(buffer, handles.0),
    {
        let mut layout_entries = Vec::new();
        layout_entries.push(BindGroupLayoutEntry::uniform());
        let layout = self.record(DeviceCall::CreateBindGroupLayout { entries: layout_entries });
        let mut entries = Vec::new();
        entries.push(BindGroupEntry { binding: 0, resource: BindingResource::Buffer(BufferBinding::entire(buffer)) });
        let group = self.record(DeviceCall::CreateBindGroup { layout, entries });
        assert(self@ =~= old(self)@ + uniform_group_calls(buffer, layout));
        (layout, group)
    }

    /// A device of which nothing has been asked.
    pub fn new() -> (device: Device)
        ensures
            device@ == Seq::<DeviceCallView>::empty(),
    {
        let device = Device { calls: Vec::new() };
        assert(device@ =~= Seq::<DeviceCallView>::empty());
        device
    }

    /// Records a call and returns its handle: its position in the record.
    pub fn record(&mut self, call: DeviceCall) -> (handle: usize)
        ensures
            handle == old(self)@.len(),
            final(self)@ == old(self)@.push(call@),
    {
        let handle = self.calls.len();
        self.calls.push(call);
        assert(self@ =~= old(self)@.push(call@));
        handle
    }
}

} // verus!
