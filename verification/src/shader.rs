//! Shaders: the declaration of what a shader binds, the bind group layout
//! and pipeline layout that follow from it, and the pipeline itself.

use crate::camera::Camera;
use crate::gpu::{
    BindGroupLayoutEntry, BindingType, BufferBindingType, CompareFunction, DepthStencilState, Device, DeviceCall,
    DeviceCallView, Face, PrimitiveTopology, RenderPipelineDescriptor, RenderPipelineDescriptorView, ShaderSource,
    ShaderSourceView, ShaderStages, StorageTextureAccess, TextureFormat, TextureSampleType, TextureViewDimension,
    VertexBufferLayout, VertexBufferLayoutView,
};
use crate::instance::InstanceRaw;
use crate::light::SceneLighting;
use crate::mesh::{ModelVertex, Vertex};
use vstd::prelude::*;
use vstd::string::StringExecFns;

verus! {

/// A buffer that a shader binds.
#[derive(Clone, Copy, Debug, PartialEq, Eq, Structural)]
pub struct ShaderBindingBuffer {
    pub visible_in_stages: ShaderStages,
    pub uniform_or_storage: BufferBindingType,
    pub has_dynamic_offset: bool,
    pub min_binding_size: Option<u64>,
}

impl ShaderBindingBuffer {
    /// A uniform buffer of any size, visible to the vertex and the fragment stage.
    pub open spec fn spec_default() -> ShaderBindingBuffer {
        ShaderBindingBuffer {
            visible_in_stages: ShaderStages::spec_vertex_fragment(),
            uniform_or_storage: BufferBindingType::Uniform,
            has_dynamic_offset: false,
            min_binding_size: None,
        }
    }
}

impl Default for ShaderBindingBuffer {
    fn default() -> (binding: ShaderBindingBuffer)
        ensures
            binding == ShaderBindingBuffer::spec_default(),
    {
        ShaderBindingBuffer {
            visible_in_stages: ShaderStages::vertex_fragment(),
            uniform_or_storage: BufferBindingType::Uniform,
            has_dynamic_offset: false,
            min_binding_size: None,
        }
    }
}

/// A texture that a shader binds.
#[derive(Clone, Copy, Debug, PartialEq, Eq, Structural)]
pub struct ShaderBindingTexture {
    pub visible_in_stages: ShaderStages,
    pub multisampled: bool,
    pub dimensions: TextureViewDimension,
    pub sampled_value_data_type: TextureSampleType,
}

impl ShaderBindingTexture {
    /// A flat texture of filterable numbers, visible to the fragment stage.
    pub open spec fn spec_default() -> ShaderBindingTexture {
        ShaderBindingTexture {
            visible_in_stages: ShaderStages::spec_fragment(),
            multisampled: false,
            dimensions: TextureViewDimension::D2,
            sampled_value_data_type: TextureSampleType::Float { filterable: true },
        }
    }
}

impl Default for ShaderBindingTexture {
    fn default() -> (binding: ShaderBindingTexture)
        ensures
            binding == ShaderBindingTexture::spec_default(),
    {
        ShaderBindingTexture {
            visible_in_stages: ShaderStages::fragment(),
            multisampled: false,
            dimensions: TextureViewDimension::D2,
            sampled_value_data_type: TextureSampleType::Float { filterable: true },
        }
    }
}

/// One resource that a shader declares. A buffer takes one slot of the bind
/// group, a sampled texture two (the texture and its sampler), a storage
/// texture one.
#[derive(Clone, Copy, Debug, PartialEq, Eq, Structural)]
pub enum ShaderBinding {
    Buffer(ShaderBindingBuffer),
    Texture(ShaderBindingTexture),
    StorageTexture(ShaderBindingTexture, TextureFormat),
}

/// The number of slots that a declared binding takes.
pub open spec fn slots_of(binding: ShaderBinding) -> nat {
    match binding {
        ShaderBinding::Buffer(_) => 1,
        ShaderBinding::Texture(_) => 2,
        ShaderBinding::StorageTexture(_, _) => 1,
    }
}

/// The number of slots that the first `n` of `bindings` take together.
pub open spec fn slot_count(bindings: Seq<ShaderBinding>, n: int) -> nat
    decreases n,
{
    if n <= 0 {
        0
    } else {
        slot_count(bindings, n - 1) + slots_of(bindings[n - 1])
    }
}

/// The layout entries of one declared binding whose first slot is `slot`.
pub open spec fn entries_of(binding: ShaderBinding, slot: u32) -> Seq<BindGroupLayoutEntry> {
    match binding {
        ShaderBinding::Buffer(buffer) => seq![
            BindGroupLayoutEntry {
                binding: slot,
                visibility: buffer.visible_in_stages,
                ty: BindingType::Buffer {
                    ty: buffer.uniform_or_storage,
                    has_dynamic_offset: buffer.has_dynamic_offset,
                    min_binding_size: buffer.min_binding_size,
                },
            },
        ],
        ShaderBinding::Texture(texture) => seq![
            BindGroupLayoutEntry {
                binding: slot,
                visibility: texture.visible_in_stages,
                ty: BindingType::Texture {
                    sample_type: texture.sampled_value_data_type,
                    view_dimension: texture.dimensions,
                    multisampled: texture.multisampled,
                },
            },
            BindGroupLayoutEntry {
                binding: (slot + 1) as u32,
                visibility: texture.visible_in_stages,
                ty: BindingType::Sampler {
                    filtering: texture.sampled_value_data_type == (TextureSampleType::Float { filterable: true }),
                    comparison: false,
                },
            },
        ],
        ShaderBinding::StorageTexture(texture, format) => seq![
            BindGroupLayoutEntry {
                binding: slot,
                visibility: texture.visible_in_stages,
                ty: BindingType::StorageTexture {
                    access: StorageTextureAccess::WriteOnly,
                    format,
                    view_dimension: texture.dimensions,
                },
            },
        ],
    }
}

/// The layout entries of the first `n` of `bindings`: those of each binding
/// in turn, with the slots numbered through.
pub open spec fn layout_entries(bindings: Seq<ShaderBinding>, n: int) -> Seq<BindGroupLayoutEntry>
    decreases n,
{
    if n <= 0 {
        Seq::empty()
    } else {
        layout_entries(bindings, n - 1) + entries_of(bindings[n - 1], slot_count(bindings, n - 1) as u32)
    }
}

/// A bind group layout has as many entries as its bindings take slots, and
/// the entries are numbered 0, 1, 2 and so on without a gap.
pub proof fn lemma_layout_slots(bindings: Seq<ShaderBinding>, n: int)
    requires
        0 <= n <= bindings.len(),
        slot_count(bindings, n) <= u32::MAX,
    ensures
        layout_entries(bindings, n).len() == slot_count(bindings, n),
        forall|j: int| 0 <= j < slot_count(bindings, n) ==> (#[trigger] layout_entries(bindings, n)[j]).binding == j,
    decreases n,
{
    if n > 0 {
        lemma_layout_slots(bindings, n - 1);
    }
}

/// No binding takes more than two slots.
pub proof fn lemma_slot_count_bound(bindings: Seq<ShaderBinding>, n: int)
    requires
        0 <= n,
    ensures
        slot_count(bindings, n) <= 2 * n,
    decreases n,
{
    if n > 0 {
        lemma_slot_count_bound(bindings, n - 1);
    }
}

/// The slots taken grow with the number of bindings.
pub proof fn lemma_slot_count_monotonic(bindings: Seq<ShaderBinding>, m: int, n: int)
    requires
        m <= n,
    ensures
        slot_count(bindings, m) <= slot_count(bindings, n),
    decreases n - m,
{
    if m < n {
        lemma_slot_count_monotonic(bindings, m, n - 1);
    }
}

/// Which kind of pipeline a shader has, with the pipeline's handle.
#[derive(Clone, Copy, Debug, PartialEq, Eq, Structural)]
pub enum PipelineType {
    RenderPipeline(usize),
    ComputePipeline(usize),
}

/// What a render pipeline is built with: the formats of its colour targets
/// in order, the format of its depth target if it has one, whether it reads
/// an instance buffer besides the vertex buffer, and the camera and the
/// light whose bind groups come before the shader's own.
#[derive(Debug)]
pub struct RenderPipelineOptions<'a> {
    pub out_color_formats: Vec<TextureFormat>,
    pub depth_format: Option<TextureFormat>,
    pub use_instances: bool,
    pub scene_camera: Option<&'a Camera>,
    pub scene_lighting: Option<&'a SceneLighting>,
}

/// What a compute pipeline is built with: nothing beyond its own bindings.
#[derive(Debug)]
pub struct ComputePipelineOptions {}

/// What a pipeline is built with.
#[derive(Debug)]
pub enum PipelineOptions<'a> {
    RenderPipeline(RenderPipelineOptions<'a>),
    ComputePipeline(ComputePipelineOptions),
}

/// The mathematical content of [`PipelineOptions`]: of the camera and the
/// light only the bind group layouts count.
pub enum PipelineOptionsView {
    RenderPipeline {
        out_color_formats: Seq<TextureFormat>,
        depth_format: Option<TextureFormat>,
        use_instances: bool,
        camera_layout: Option<usize>,
        lighting_layout: Option<usize>,
    },
    ComputePipeline,
}

impl<'a> View for PipelineOptions<'a> {
    type V = PipelineOptionsView;

    open spec fn view(&self) -> PipelineOptionsView {
        match self {
            PipelineOptions::RenderPipeline(options) => PipelineOptionsView::RenderPipeline {
                out_color_formats: options.out_color_formats@,
                depth_format: options.depth_format,
                use_instances: options.use_instances,
                camera_layout: match options.scene_camera {
                    Some(camera) => Some(camera.camera_bind_group_layout),
                    None => None,
                },
                lighting_layout: match options.scene_lighting {
                    Some(lighting) => Some(lighting.light_bind_group_layout),
                    None => None,
                },
            },
            PipelineOptions::ComputePipeline(_) => PipelineOptionsView::ComputePipeline,
        }
    }
}

impl PipelineOptionsView {
    /// The bind group layout of the camera, if the pipeline takes one.
    pub open spec fn camera_layout(self) -> Option<usize> {
        match self {
            PipelineOptionsView::RenderPipeline { camera_layout, .. } => camera_layout,
            PipelineOptionsView::ComputePipeline => None,
        }
    }

    /// The bind group layout of the light, if the pipeline takes one.
    pub open spec fn lighting_layout(self) -> Option<usize> {
        match self {
            PipelineOptionsView::RenderPipeline { lighting_layout, .. } => lighting_layout,
            PipelineOptionsView::ComputePipeline => None,
        }
    }
}

/// The bind group layouts of a pipeline, in the order of their bind groups:
/// the camera's if there is one, then the light's if there is one, then the
/// shader's own.
pub open spec fn pipeline_layouts(camera: Option<usize>, lighting: Option<usize>, own: usize) -> Seq<usize> {
    (match camera {
        Some(layout) => seq![layout],
        None => Seq::empty(),
    }) + (match lighting {
        Some(layout) => seq![layout],
        None => Seq::empty(),
    }) + seq![own]
}

/// The vertex buffers of a render pipeline: model vertices, and instances if
/// the pipeline uses them.
pub open spec fn vertex_layouts(use_instances: bool) -> Seq<VertexBufferLayoutView> {
    if use_instances {
        seq![ModelVertex::spec_layout(), InstanceRaw::spec_layout()]
    } else {
        seq![ModelVertex::spec_layout()]
    }
}

/// The depth test of a scene pipeline: nearer or equal passes.
pub open spec fn depth_state(depth_format: Option<TextureFormat>) -> Option<DepthStencilState> {
    match depth_format {
        Some(format) => Some(DepthStencilState { format, depth_compare: CompareFunction::LessEqual }),
        None => None,
    }
}

/// The render pipeline of a shader: triangle lists with back faces dropped,
/// entered at `main` in both stages.
pub open spec fn render_pipeline(
    layout: usize,
    module: usize,
    color_formats: Seq<TextureFormat>,
    depth_format: Option<TextureFormat>,
    buffers: Seq<VertexBufferLayoutView>,
) -> RenderPipelineDescriptorView {
    RenderPipelineDescriptorView {
        layout: Some(layout),
        module,
        vertex_entry_point: "main"@,
        fragment_entry_point: "main"@,
        buffers,
        targets: color_formats,
        topology: PrimitiveTopology::TriangleList,
        cull_mode: Some(Face::Back),
        depth_stencil: depth_state(depth_format),
    }
}

/// The call that makes the pipeline of a shader.
pub open spec fn pipeline_call(layout: usize, module: usize, options: PipelineOptionsView) -> DeviceCallView {
    match options {
        PipelineOptionsView::RenderPipeline { out_color_formats, depth_format, use_instances, .. } => DeviceCallView::CreateRenderPipeline(
            render_pipeline(layout, module, out_color_formats, depth_format, vertex_layouts(use_instances)),
        ),
        PipelineOptionsView::ComputePipeline => DeviceCallView::CreateComputePipeline {
            layout,
            module,
            entry_point: "main"@,
        },
    }
}

/// The four calls that make a shader, when the first gets the handle
/// `base`: its bind group layout, its pipeline layout, its module, and its
/// pipeline.
pub open spec fn shader_calls(base: int, file: Seq<char>, bindings: Seq<ShaderBinding>, options: PipelineOptionsView) -> Seq<
    DeviceCallView,
> {
    seq![
        DeviceCallView::CreateBindGroupLayout { entries: layout_entries(bindings, bindings.len() as int) },
        DeviceCallView::CreatePipelineLayout {
            bind_group_layouts: pipeline_layouts(options.camera_layout(), options.lighting_layout(), base as usize),
        },
        DeviceCallView::CreateShaderModule { source: ShaderSourceView::File(file) },
        pipeline_call((base + 1) as usize, (base + 2) as usize, options),
    ]
}

/// Whether `shader` is the shader of the source file `file` with the given
/// bindings and options, made by calls from handle `base` on.
pub open spec fn shader_made(
    shader: Shader,
    base: int,
    file: Seq<char>,
    bindings: Seq<ShaderBinding>,
    options: PipelineOptionsView,
) -> bool {
    &&& shader.name@ == file
    &&& shader.bind_group_layout == base
    &&& shader.pipeline_layout == base + 1
    &&& shader.pipeline == (match options {
        PipelineOptionsView::RenderPipeline { .. } => PipelineType::RenderPipeline((base + 3) as usize),
        PipelineOptionsView::ComputePipeline => PipelineType::ComputePipeline((base + 3) as usize),
    })
    &&& shader.shader_bindings@ == bindings
    &&& shader.includes_camera == (options.camera_layout() is Some)
    &&& shader.includes_lighting == (options.lighting_layout() is Some)
}

/// A shader, ready to draw or compute with.
#[derive(Debug)]
pub struct Shader {
    pub name: String,
    pub bind_group_layout: usize,
    pub pipeline: PipelineType,
    pub pipeline_layout: usize,
    pub shader_bindings: Vec<ShaderBinding>,
    pub includes_camera: bool,
    pub includes_lighting: bool,
}

impl Shader {
    /// The declared bindings fit the slots of a bind group, which are
    /// numbered with 32 bits.
    pub open spec fn wf(&self) -> bool {
        slot_count(self.shader_bindings@, self.shader_bindings@.len() as int) <= u32::MAX
    }

    /// Builds the shader of the source file `file`. Its bind group layout
    /// follows from the declared bindings; its pipeline layout puts the
    /// camera's and the light's layout, where the options name them, before
    /// its own. The shader remembers whether it takes a camera and a light,
    /// which fixes the index of each bind group when it draws.
    pub fn new(device: &mut Device, file: &str, in_shader_bindings: Vec<ShaderBinding>, options: PipelineOptions) -> (shader:
        Shader)
        requires
            slot_count(in_shader_bindings@, in_shader_bindings@.len() as int) <= u32::MAX,
        ensures
            shader.wf(),
            shader_made(shader, old(device)@.len() as int, file@, in_shader_bindings@, options@),
            shader.shader_bindings == in_shader_bindings,
            final(device)@ == old(device)@ + shader_calls(
                old(device)@.len() as int,
                file@,
                in_shader_bindings@,
                options@,
            ),
    {
        let name = String::from_str(file);
        let bind_group_layout_entries = build_bind_group_layout_entries(in_shader_bindings.as_slice());
        let bind_group_layout = device.record(DeviceCall::CreateBindGroupLayout { entries: bind_group_layout_entries });

        let (camera_layout, lighting_layout) = match &options {
            PipelineOptions::RenderPipeline(render_options) => {
                let camera_layout = match render_options.scene_camera {
                    Some(camera) => Some(camera.camera_bind_group_layout),
                    None => None,
                };
                let lighting_layout = match render_options.scene_lighting {
                    Some(lighting) => Some(lighting.light_bind_group_layout),
                    None => None,
                };
                (camera_layout, lighting_layout)
            },
            PipelineOptions::ComputePipeline(_) => (None, None),
        };
        let mut layouts: Vec<usize> = Vec::new();
        if let Some(layout) = camera_layout {
            layouts.push(layout);
        }
        if let Some(layout) = lighting_layout {
            layouts.push(layout);
        }
        layouts.push(bind_group_layout);
        assert(layouts@ =~= pipeline_layouts(options@.camera_layout(), options@.lighting_layout(), bind_group_layout));
        let pipeline_layout = device.record(DeviceCall::CreatePipelineLayout { bind_group_layouts: layouts });

        let module = device.record(DeviceCall::CreateShaderModule { source: ShaderSource::File(String::from_str(file)) });

        let includes_camera = camera_layout.is_some();
        let includes_lighting = lighting_layout.is_some();
        let ghost options_before = options@;
        let pipeline = match options {
            PipelineOptions::RenderPipeline(render_options) => {
                let mut vertex_layouts: Vec<VertexBufferLayout> = Vec::new();
                vertex_layouts.push(ModelVertex::layout());
                if render_options.use_instances {
                    vertex_layouts.push(InstanceRaw::layout());
                }
                assert(Seq::new(vertex_layouts@.len(), |i: int| vertex_layouts@[i]@) =~= self::vertex_layouts(
                    render_options.use_instances,
                ));
                let render_pipeline = create_render_pipeline(
                    device,
                    pipeline_layout,
                    render_options.out_color_formats,
                    render_options.depth_format,
                    vertex_layouts,
                    module,
                );
                assert(device@.last() == pipeline_call(pipeline_layout, module, options_before));
                PipelineType::RenderPipeline(render_pipeline)
            },
            PipelineOptions::ComputePipeline(_) => {
                let compute_pipeline = create_compute_pipeline(device, pipeline_layout, module);
                assert(device@.last() == pipeline_call(pipeline_layout, module, options_before));
                PipelineType::ComputePipeline(compute_pipeline)
            },
        };
        assert(device@ =~= old(device)@ + shader_calls(
            old(device)@.len() as int,
            file@,
            in_shader_bindings@,
            options_before,
        ));
        Shader {
            name,
            bind_group_layout,
            pipeline,
            pipeline_layout,
            shader_bindings: in_shader_bindings,
            includes_camera,
            includes_lighting,
        }
    }
}

/// The entries of a bind group layout for declared bindings: those of each
/// binding in order, the slots numbered through from 0.
pub fn build_bind_group_layout_entries(bindings: &[ShaderBinding]) -> (entries: Vec<BindGroupLayoutEntry>)
    requires
        slot_count(bindings@, bindings@.len() as int) <= u32::MAX,
    ensures
        entries@ == layout_entries(bindings@, bindings@.len() as int),
        entries@.len() == slot_count(bindings@, bindings@.len() as int),
        forall|j: int| 0 <= j < entries@.len() ==> (#[trigger] entries@[j]).binding == j,
{
    let mut binding_index: u32 = 0;
    let mut entries: Vec<BindGroupLayoutEntry> = Vec::new();
    let n = bindings.len();
    let mut i: usize = 0;
    while i < n
        invariant
            n == bindings@.len(),
            i <= n,
            slot_count(bindings@, n as int) <= u32::MAX,
            binding_index == slot_count(bindings@, i as int),
            entries@ == layout_entries(bindings@, i as int),
        decreases n - i,
    {
        proof {
            lemma_slot_count_monotonic(bindings@, i + 1, n as int);
        }
        match &bindings[i] {
            ShaderBinding::Buffer(buffer) => {
                let binding = binding_index;
                binding_index += 1;
                entries.push(
                    BindGroupLayoutEntry {
                        binding,
                        visibility: buffer.visible_in_stages,
                        ty: BindingType::Buffer {
                            ty: buffer.uniform_or_storage,
                            has_dynamic_offset: buffer.has_dynamic_offset,
                            min_binding_size: buffer.min_binding_size,
                        },
                    },
                );
            },
            ShaderBinding::Texture(texture) => {
                let binding = binding_index;
                binding_index += 2;
                entries.push(
                    BindGroupLayoutEntry {
                        binding,
                        visibility: texture.visible_in_stages,
                        ty: BindingType::Texture {
                            sample_type: texture.sampled_value_data_type,
                            view_dimension: texture.dimensions,
                            multisampled: texture.multisampled,
                        },
                    },
                );
                entries.push(
                    BindGroupLayoutEntry {
                        binding: binding + 1,
                        visibility: texture.visible_in_stages,
                        ty: BindingType::Sampler {
                            filtering: texture.sampled_value_data_type == (TextureSampleType::Float { filterable: true }),
                            comparison: false,
                        },
                    },
                );
            },
            ShaderBinding::StorageTexture(texture, format) => {
                let binding = binding_index;
                binding_index += 1;
                entries.push(
                    BindGroupLayoutEntry {
                        binding,
                        visibility: texture.visible_in_stages,
                        ty: BindingType::StorageTexture {
                            access: StorageTextureAccess::WriteOnly,
                            format: *format,
                            view_dimension: texture.dimensions,
                        },
                    },
                );
            },
        }
        i += 1;
        assert(entries@ =~= layout_entries(bindings@, i as int));
    }
    proof {
        lemma_layout_slots(bindings@, n as int);
    }
    entries
}

/// Records the render pipeline of a shader.
fn create_render_pipeline(
    device: &mut Device,
    layout: usize,
    color_formats: Vec<TextureFormat>,
    depth_format: Option<TextureFormat>,
    vertex_layouts: Vec<VertexBufferLayout>,
    module: usize,
) -> (pipeline: usize)
    ensures
        pipeline == old(device)@.len(),
        final(device)@ == old(device)@.push(
            DeviceCallView::CreateRenderPipeline(
                render_pipeline(
                    layout,
                    module,
                    color_formats@,
                    depth_format,
                    Seq::new(vertex_layouts@.len(), |i: int| vertex_layouts@[i]@),
                ),
            ),
        ),
{
    proof {
        reveal_strlit("main");
    }
    let descriptor = RenderPipelineDescriptor {
        layout: Some(layout),
        module,
        vertex_entry_point: String::from_str("main"),
        fragment_entry_point: String::from_str("main"),
        buffers: vertex_layouts,
        targets: color_formats,
        topology: PrimitiveTopology::TriangleList,
        cull_mode: Some(Face::Back),
        depth_stencil: match depth_format {
            Some(format) => Some(DepthStencilState { format, depth_compare: CompareFunction::LessEqual }),
            None => None,
        },
    };
    device.record(DeviceCall::CreateRenderPipeline(descriptor))
}

/// Records the compute pipeline of a shader.
fn create_compute_pipeline(device: &mut Device, layout: usize, module: usize) -> (pipeline: usize)
    ensures
        pipeline == old(device)@.len(),
        final(device)@ == old(device)@.push(
            DeviceCallView::CreateComputePipeline { layout, module, entry_point: "main"@ },
        ),
{
    device.record(DeviceCall::CreateComputePipeline { layout, module, entry_point: String::from_str("main") })
}

} // verus!
