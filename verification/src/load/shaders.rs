//! The shaders of the engine: which there are, what each binds, and how
//! they get into the table of shaders.

use crate::camera::Camera;
use crate::engine::Engine;
use crate::gpu::{
    BufferBindingType, Device, DeviceCallView, ShaderStages, TextureFormat, TextureViewDimension,
};
use crate::light::SceneLighting;
use crate::load::{EngineLoadError, camera_of, named_camera};
use crate::resource_table::{
    ResourceTable, index_in, keys_after_insert, keys_after_inserts, lemma_index_in_unique,
};
use crate::shader::{
    ComputePipelineOptions, PipelineOptions, PipelineOptionsView, RenderPipelineOptions, Shader, ShaderBinding, ShaderBindingBuffer, ShaderBindingTexture, lemma_slot_count_bound, shader_calls, shader_made, slot_count,
};
use vstd::prelude::*;
use vstd::string::StringExecFns;

verus! {

/// A texture binding of three dimensions, visible to the fragment stage.
pub open spec fn volume_binding() -> ShaderBindingTexture {
    ShaderBindingTexture { dimensions: TextureViewDimension::D3, ..ShaderBindingTexture::spec_default() }
}

/// A writable storage buffer, visible to the given stages.
pub open spec fn storage_binding(stages: ShaderStages) -> ShaderBindingBuffer {
    ShaderBindingBuffer {
        uniform_or_storage: BufferBindingType::Storage { read_only: false },
        visible_in_stages: stages,
        ..ShaderBindingBuffer::spec_default()
    }
}

/// A render pipeline with one target of sixteen-bit numbers, without depth
/// and without instances.
pub open spec fn screen_options(camera_layout: Option<usize>, lighting_layout: Option<usize>) -> PipelineOptionsView {
    PipelineOptionsView::RenderPipeline {
        out_color_formats: seq![TextureFormat::Rgba16Float],
        depth_format: None,
        use_instances: false,
        camera_layout,
        lighting_layout,
    }
}

/// The shaders of the engine, in the order in which they are built: for
/// each its source file, the bindings it declares, and its pipeline options.
/// `camera` and `lighting` are the bind group layouts of the main camera
/// and of the light; the last shader draws in the format of the surface.
pub open spec fn shader_plan(camera: usize, lighting: usize, surface_format: TextureFormat) -> Seq<
    (Seq<char>, Seq<ShaderBinding>, PipelineOptionsView),
> {
    let buffer = ShaderBinding::Buffer(ShaderBindingBuffer::spec_default());
    let texture = ShaderBinding::Texture(ShaderBindingTexture::spec_default());
    seq![
        (
            "calc_voxel_lightmap.wgsl"@,
            seq![buffer, texture, ShaderBinding::Buffer(storage_binding(ShaderStages::spec_fragment()))],
            PipelineOptionsView::RenderPipeline {
                out_color_formats: seq![TextureFormat::Rgba16Float],
                depth_format: None,
                use_instances: true,
                camera_layout: None,
                lighting_layout: Some(lighting),
            },
        ),
        (
            "scene_deferred.wgsl"@,
            seq![texture, texture, texture, ShaderBinding::Texture(volume_binding())],
            PipelineOptionsView::RenderPipeline {
                out_color_formats: seq![
                    TextureFormat::Rgba16Float,
                    TextureFormat::Rgba16Float,
                    TextureFormat::Bgra8UnormSrgb,
                    TextureFormat::Bgra8Unorm,
                ],
                depth_format: Some(TextureFormat::Depth32Float),
                use_instances: true,
                camera_layout: Some(camera),
                lighting_layout: Some(lighting),
            },
        ),
        ("pass_ssao_kernel.wgsl"@, seq![buffer, texture, texture, texture], screen_options(Some(camera), None)),
        ("pass_ssao_blurred.wgsl"@, seq![texture], screen_options(None, None)),
        (
            "pass_pbr_shading.wgsl"@,
            seq![texture, texture, texture, texture, texture],
            screen_options(Some(camera), Some(lighting)),
        ),
        (
            "compute_voxel_texture_generating.wgsl"@,
            seq![
                ShaderBinding::StorageTexture(
                    ShaderBindingTexture { visible_in_stages: ShaderStages::spec_compute(), ..volume_binding() },
                    TextureFormat::Rgba8Unorm,
                ),
                ShaderBinding::Buffer(storage_binding(ShaderStages::spec_compute())),
            ],
            PipelineOptionsView::ComputePipeline,
        ),
        (
            "pass_hdr_exposure.wgsl"@,
            seq![texture],
            PipelineOptionsView::RenderPipeline {
                out_color_formats: seq![surface_format],
                depth_format: None,
                use_instances: false,
                camera_layout: None,
                lighting_layout: None,
            },
        ),
    ]
}

/// The source files of the first `n` shaders of a plan.
pub open spec fn plan_names(plan: Seq<(Seq<char>, Seq<ShaderBinding>, PipelineOptionsView)>, n: int) -> Seq<Seq<char>> {
    Seq::new(n as nat, |i: int| plan[i].0)
}

/// The calls that build the first `n` shaders of a plan, four for each,
/// when the first call gets the handle `base`.
pub open spec fn plan_calls(plan: Seq<(Seq<char>, Seq<ShaderBinding>, PipelineOptionsView)>, base: int, n: int) -> Seq<
    DeviceCallView,
>
    decreases n,
{
    if n <= 0 {
        Seq::empty()
    } else {
        plan_calls(plan, base, n - 1) + shader_calls(base + 4 * (n - 1), plan[n - 1].0, plan[n - 1].1, plan[n - 1].2)
    }
}

/// Whether `after` is the table `before` with the first `n` shaders of
/// `plan` added, built by calls from handle `base` on. The names stand as
/// after inserting the source files in order; each shader of the plan
/// stands under its source file; every other shader stands where it stood.
pub open spec fn shaders_added(
    before: ResourceTable<Shader>,
    after: ResourceTable<Shader>,
    plan: Seq<(Seq<char>, Seq<ShaderBinding>, PipelineOptionsView)>,
    base: int,
    n: int,
) -> bool {
    &&& after.wf()
    &&& after.keys() == keys_after_inserts(before.keys(), plan_names(plan, n))
    &&& forall|k: int|
        0 <= k < n ==> {
            &&& index_in(after.keys(), #[trigger] plan[k].0) matches Some(i)
            &&& i < after.values().len()
            &&& shader_made(after.values()[i], base + 4 * k, plan[k].0, plan[k].1, plan[k].2)
        }
    &&& forall|key: Seq<char>|
        #![trigger index_in(before.keys(), key)]
        index_in(before.keys(), key) is Some && !plan_names(plan, n).contains(key) ==> {
            let i = index_in(before.keys(), key)->0;
            &&& index_in(after.keys(), key) == Some(i)
            &&& i < after.values().len()
            &&& after.values()[i] == before.values()[i]
        }
    &&& forall|i: int| 0 <= i < after.values().len() ==> (#[trigger] after.values()[i]).wf()
}

/// The source files of the engine's shaders differ from one another.
pub proof fn lemma_shader_files_differ(camera: usize, lighting: usize, surface_format: TextureFormat)
    ensures
        plan_names(shader_plan(camera, lighting, surface_format), 7).no_duplicates(),
{
    reveal_strlit("calc_voxel_lightmap.wgsl");
    reveal_strlit("scene_deferred.wgsl");
    reveal_strlit("pass_ssao_kernel.wgsl");
    reveal_strlit("pass_ssao_blurred.wgsl");
    reveal_strlit("pass_pbr_shading.wgsl");
    reveal_strlit("compute_voxel_texture_generating.wgsl");
    reveal_strlit("pass_hdr_exposure.wgsl");
    let names = plan_names(shader_plan(camera, lighting, surface_format), 7);
    assert(names[0].len() == 24);
    assert(names[1].len() == 19);
    assert(names[2].len() == 21 && names[2][5] == 's');
    assert(names[3].len() == 22 && names[3][5] == 's');
    assert(names[4].len() == 21 && names[4][5] == 'p');
    assert(names[5].len() == 37);
    assert(names[6].len() == 22 && names[6][5] == 'h');
}

/// One more shader of the plan: where the first `k` shaders are added and
/// the next one is inserted under its source file, the first `k + 1` are added.
proof fn lemma_shader_added(
    before: ResourceTable<Shader>,
    middle: ResourceTable<Shader>,
    after: ResourceTable<Shader>,
    plan: Seq<(Seq<char>, Seq<ShaderBinding>, PipelineOptionsView)>,
    base: int,
    k: int,
    at: int,
)
    requires
        0 <= k < plan.len(),
        plan_names(plan, plan.len() as int).no_duplicates(),
        before.wf(),
        middle.wf(),
        shaders_added(before, middle, plan, base, k),
        after.wf(),
        after.keys() == keys_after_insert(middle.keys(), plan[k].0),
        index_in(after.keys(), plan[k].0) == Some(at),
        0 <= at < after.values().len(),
        shader_made(after.values()[at], base + 4 * k, plan[k].0, plan[k].1, plan[k].2),
        after.values()[at].wf(),
        forall|key: Seq<char>|
            #![trigger index_in(middle.keys(), key)]
            index_in(middle.keys(), key) is Some ==> index_in(after.keys(), key) == index_in(middle.keys(), key),
        forall|i: int| 0 <= i < middle.values().len() && i != at ==> after.values()[i] == middle.values()[i],
        middle.values().len() <= after.values().len(),
    ensures
        shaders_added(before, after, plan, base, k + 1),
{
    let names = plan_names(plan, plan.len() as int);
    let sooner = plan_names(plan, k);
    let later = plan_names(plan, k + 1);
    assert(later.drop_last() =~= sooner);
    assert(later.last() == plan[k].0);
    middle.lemma_keys_distinct();
    after.lemma_keys_distinct();
    before.lemma_keys_distinct();
    assert forall|j: int| 0 <= j < k + 1 implies {
        &&& index_in(after.keys(), #[trigger] plan[j].0) matches Some(i)
        &&& i < after.values().len()
        &&& shader_made(after.values()[i], base + 4 * j, plan[j].0, plan[j].1, plan[j].2)
    } by {
        if j < k {
            let i = index_in(middle.keys(), plan[j].0)->0;
            assert(names[j] == plan[j].0 && names[k] == plan[k].0);
            assert(plan[j].0 != plan[k].0);
            assert(index_in(after.keys(), plan[j].0) == Some(i));
            assert(after.keys()[at] == plan[k].0);
            assert(after.keys()[i] == plan[j].0);
            assert(i != at);
        }
    }
    assert forall|key: Seq<char>|
        #![trigger index_in(before.keys(), key)]
        index_in(before.keys(), key) is Some && !later.contains(key) implies {
        let i = index_in(before.keys(), key)->0;
        &&& index_in(after.keys(), key) == Some(i)
        &&& i < after.values().len()
        &&& after.values()[i] == before.values()[i]
    } by {
        let i = index_in(before.keys(), key)->0;
        assert(!sooner.contains(key)) by {
            if sooner.contains(key) {
                let w = choose|w: int| 0 <= w < sooner.len() && sooner[w] == key;
                assert(later[w] == key);
            }
        }
        assert(later[k] == plan[k].0);
        assert(key != plan[k].0);
        assert(index_in(middle.keys(), key) == Some(i));
        assert(after.keys()[at] == plan[k].0);
        assert(after.keys()[i] == key);
        assert(i != at);
    }
    assert forall|i: int| 0 <= i < after.values().len() implies (#[trigger] after.values()[i]).wf() by {
        if i != at && i < middle.values().len() {
            assert(after.values()[i] == middle.values()[i]);
        } else if i != at {
            assert(after.keys()[i] == plan[k].0) by {
                assert(after.keys().len() == middle.keys().len() + 1);
            }
            lemma_index_in_unique(after.keys(), i);
        }
    }
}

/// A texture binding of three dimensions, visible to the fragment stage.
fn volume_texture() -> (binding: ShaderBindingTexture)
    ensures
        binding == volume_binding(),
{
    ShaderBindingTexture { dimensions: TextureViewDimension::D3, ..ShaderBindingTexture::default() }
}

/// A writable storage buffer, visible to the given stages.
fn storage_buffer(stages: ShaderStages) -> (binding: ShaderBindingBuffer)
    ensures
        binding == storage_binding(stages),
{
    ShaderBindingBuffer {
        uniform_or_storage: BufferBindingType::Storage { read_only: false },
        visible_in_stages: stages,
        ..ShaderBindingBuffer::default()
    }
}

/// The options of a render pipeline with one target of sixteen-bit numbers,
/// without depth and without instances.
fn screen_pipeline<'a>(scene_camera: Option<&'a Camera>, scene_lighting: Option<&'a SceneLighting>) -> (options:
    PipelineOptions<'a>)
    ensures
        options@ == screen_options(
            match scene_camera {
                Some(camera) => Some(camera.camera_bind_group_layout),
                None => None,
            },
            match scene_lighting {
                Some(lighting) => Some(lighting.light_bind_group_layout),
                None => None,
            },
        ),
{
    let mut formats: Vec<TextureFormat> = Vec::new();
    formats.push(TextureFormat::Rgba16Float);
    assert(formats@ =~= seq![TextureFormat::Rgba16Float]);
    PipelineOptions::RenderPipeline(
        RenderPipelineOptions {
            out_color_formats: formats,
            depth_format: None,
            use_instances: false,
            scene_camera,
            scene_lighting,
        },
    )
}

/// A list of `count` flat, filterable textures for the fragment stage.
fn textures(count: usize) -> (list: Vec<ShaderBinding>)
    ensures
        list@ == Seq::new(count as nat, |i: int| ShaderBinding::Texture(ShaderBindingTexture::spec_default())),
{
    let mut list: Vec<ShaderBinding> = Vec::new();
    let mut i: usize = 0;
    while i < count
        invariant
            i <= count,
            list@ == Seq::new(i as nat, |j: int| ShaderBinding::Texture(ShaderBindingTexture::spec_default())),
        decreases count - i,
    {
        list.push(ShaderBinding::Texture(ShaderBindingTexture::default()));
        i += 1;
        assert(list@ =~= Seq::new(i as nat, |j: int| ShaderBinding::Texture(ShaderBindingTexture::spec_default())));
    }
    list
}

/// Builds a shader and stores it under the name of its source file.
fn add_shader(
    device: &mut Device,
    shaders: &mut ResourceTable<Shader>,
    file: &str,
    bindings: Vec<ShaderBinding>,
    options: PipelineOptions,
) -> (at: usize)
    requires
        old(shaders).wf(),
        slot_count(bindings@, bindings@.len() as int) <= u32::MAX,
    ensures
        final(device)@ == old(device)@ + shader_calls(old(device)@.len() as int, file@, bindings@, options@),
        final(shaders).wf(),
        final(shaders).keys() == keys_after_insert(old(shaders).keys(), file@),
        index_in(final(shaders).keys(), file@) == Some(at as int),
        at < final(shaders).values().len(),
        shader_made(final(shaders).values()[at as int], old(device)@.len() as int, file@, bindings@, options@),
        final(shaders).values()[at as int].wf(),
        forall|key: Seq<char>|
            #![trigger index_in(old(shaders).keys(), key)]
            index_in(old(shaders).keys(), key) is Some ==> index_in(final(shaders).keys(), key) == index_in(
                old(shaders).keys(),
                key,
            ),
        forall|i: int|
            0 <= i < old(shaders).values().len() && i != at ==> final(shaders).values()[i] == old(shaders).values()[i],
        old(shaders).values().len() <= final(shaders).values().len(),
{
    let shader = Shader::new(device, file, bindings, options);
    let at = shaders.insert_full(shader.name.clone(), shader);
    assert forall|i: int| 0 <= i < old(shaders).values().len() && i != at implies shaders.values()[i] == old(
        shaders,
    ).values()[i] by {
        match index_in(old(shaders).keys(), file@) {
            Some(j) => {
                assert(shaders.values() == old(shaders).values().update(j, shader));
            },
            None => {
                assert(shaders.values() == old(shaders).values().push(shader));
            },
        }
    }
    at
}

/// Builds the shader that stands at place `k` of a plan and stores it
/// under the name of its source file.
fn add_planned(
    device: &mut Device,
    shaders: &mut ResourceTable<Shader>,
    file: &str,
    bindings: Vec<ShaderBinding>,
    options: PipelineOptions,
    Ghost(before): Ghost<ResourceTable<Shader>>,
    Ghost(start): Ghost<Seq<DeviceCallView>>,
    Ghost(plan): Ghost<Seq<(Seq<char>, Seq<ShaderBinding>, PipelineOptionsView)>>,
    Ghost(k): Ghost<int>,
)
    requires
        0 <= k < plan.len(),
        plan_names(plan, plan.len() as int).no_duplicates(),
        before.wf(),
        old(shaders).wf(),
        shaders_added(before, *old(shaders), plan, start.len() as int, k),
        old(device)@ == start + plan_calls(plan, start.len() as int, k),
        plan_calls(plan, start.len() as int, k).len() == 4 * k,
        plan[k].0 == file@,
        plan[k].1 == bindings@,
        plan[k].2 == options@,
        bindings@.len() <= 5,
    ensures
        final(shaders).wf(),
        shaders_added(before, *final(shaders), plan, start.len() as int, k + 1),
        final(device)@ == start + plan_calls(plan, start.len() as int, k + 1),
        plan_calls(plan, start.len() as int, k + 1).len() == 4 * (k + 1),
{
    proof {
        lemma_slot_count_bound(bindings@, bindings@.len() as int);
    }
    let ghost middle = *shaders;
    let at = add_shader(device, shaders, file, bindings, options);
    proof {
        lemma_shader_added(before, middle, *shaders, plan, start.len() as int, k, at as int);
        assert(device@ =~= start + plan_calls(plan, start.len() as int, k + 1));
    }
}

impl Engine {
    /// Whether `after` is the engine `before` with its shaders loaded: the
    /// shaders of the plan are built, in order, with the layouts of the main
    /// camera and of the light, and stand in the table under their source
    /// files. Nothing else changes.
    pub open spec fn shaders_loaded(before: Engine, after: Engine) -> bool {
        let base = before.context.device@.len() as int;
        &&& named_camera(before.scene.root, "Main Camera"@) matches Some(camera)
        &&& after.context.device@ == before.context.device@ + plan_calls(
            shader_plan(
                camera.camera_bind_group_layout,
                before.scene_lighting.light_bind_group_layout,
                before.context.config.format,
            ),
            base,
            7,
        )
        &&& shaders_added(
            before.scene.resources.shaders,
            after.scene.resources.shaders,
            shader_plan(
                camera.camera_bind_group_layout,
                before.scene_lighting.light_bind_group_layout,
                before.context.config.format,
            ),
            base,
            7,
        )
        &&& after.context.config == before.context.config
        &&& after.frame_textures == before.frame_textures
        &&& after.voxel_light_map == before.voxel_light_map
        &&& after.active_camera == before.active_camera
        &&& after.scene_lighting == before.scene_lighting
        &&& after.scene.root == before.scene.root
        &&& after.scene.entity_name_paths == before.scene.entity_name_paths
        &&& after.scene.resources.textures == before.scene.resources.textures
        &&& after.scene.resources.materials == before.scene.resources.materials
        &&& after.scene.resources.meshes == before.scene.resources.meshes
    }

    /// Builds the shaders of the engine and stores each under the name of
    /// its source file. The shaders that take a camera take the one of the
    /// root's child "Main Camera"; without it nothing is built.
    pub fn load_shaders(&mut self) -> (result: Result<(), EngineLoadError>)
        requires
            old(self).wf(),
        ensures
            final(self).wf(),
            match named_camera(old(self).scene.root, "Main Camera"@) {
                Some(_) => result is Ok && Self::shaders_loaded(*old(self), *final(self)),
                None => {
                    &&& result matches Err(EngineLoadError::MissingCamera { entity })
                    &&& entity@ == "Main Camera"@
                    &&& *final(self) == *old(self)
                },
            },
    {
        let main_camera = match camera_of(&self.scene.root, "Main Camera") {
            Some(camera) => camera,
            None => {
                return Err(EngineLoadError::MissingCamera { entity: String::from_str("Main Camera") });
            },
        };
        let ghost plan = shader_plan(
            main_camera.camera_bind_group_layout,
            self.scene_lighting.light_bind_group_layout,
            self.context.config.format,
        );
        let ghost start = self.context.device@;
        let ghost before = self.scene.resources.shaders;
        proof {
            lemma_shader_files_differ(
                main_camera.camera_bind_group_layout,
                self.scene_lighting.light_bind_group_layout,
                self.context.config.format,
            );
            assert(plan_names(plan, 0) =~= Seq::<Seq<char>>::empty());
            assert(plan_calls(plan, start.len() as int, 0) =~= Seq::<DeviceCallView>::empty());
            before.lemma_keys_distinct();
            assert(shaders_added(before, before, plan, start.len() as int, 0));
            assert(self.context.device@ =~= start + plan_calls(plan, start.len() as int, 0));
        }

        let mut bindings: Vec<ShaderBinding> = Vec::new();
        bindings.push(ShaderBinding::Buffer(ShaderBindingBuffer::default()));
        bindings.push(ShaderBinding::Texture(ShaderBindingTexture::default()));
        bindings.push(ShaderBinding::Buffer(storage_buffer(ShaderStages::fragment())));
        assert(bindings@ =~= plan[0].1);
        let mut formats: Vec<TextureFormat> = Vec::new();
        formats.push(TextureFormat::Rgba16Float);
        assert(formats@ =~= seq![TextureFormat::Rgba16Float]);
        add_planned(
            &mut self.context.device,
            &mut self.scene.resources.shaders,
            "calc_voxel_lightmap.wgsl",
            bindings,
            PipelineOptions::RenderPipeline(
                RenderPipelineOptions {
                    out_color_formats: formats,
                    depth_format: None,
                    use_instances: true,
                    scene_camera: None,
                    scene_lighting: Some(&self.scene_lighting),
                },
            ),
            Ghost(before),
            Ghost(start),
            Ghost(plan),
            Ghost(0),
        );

        let mut bindings = textures(3);
        bindings.push(ShaderBinding::Texture(volume_texture()));
        assert(bindings@ =~= plan[1].1);
        let mut formats: Vec<TextureFormat> = Vec::new();
        formats.push(TextureFormat::Rgba16Float);
        formats.push(TextureFormat::Rgba16Float);
        formats.push(TextureFormat::Bgra8UnormSrgb);
        formats.push(TextureFormat::Bgra8Unorm);
        assert(formats@ =~= seq![
            TextureFormat::Rgba16Float,
            TextureFormat::Rgba16Float,
            TextureFormat::Bgra8UnormSrgb,
            TextureFormat::Bgra8Unorm,
        ]);
        add_planned(
            &mut self.context.device,
            &mut self.scene.resources.shaders,
            "scene_deferred.wgsl",
            bindings,
            PipelineOptions::RenderPipeline(
                RenderPipelineOptions {
                    out_color_formats: formats,
                    depth_format: Some(TextureFormat::Depth32Float),
                    use_instances: true,
                    scene_camera: Some(main_camera),
                    scene_lighting: Some(&self.scene_lighting),
                },
            ),
            Ghost(before),
            Ghost(start),
            Ghost(plan),
            Ghost(1),
        );

        let mut bindings: Vec<ShaderBinding> = Vec::new();
        bindings.push(ShaderBinding::Buffer(ShaderBindingBuffer::default()));
        let mut three = textures(3);
        bindings.append(&mut three);
        assert(bindings@ =~= plan[2].1);
        add_planned(
            &mut self.context.device,
            &mut self.scene.resources.shaders,
            "pass_ssao_kernel.wgsl",
            bindings,
            screen_pipeline(Some(main_camera), None),
            Ghost(before),
            Ghost(start),
            Ghost(plan),
            Ghost(2),
        );

        let bindings = textures(1);
        assert(bindings@ =~= plan[3].1);
        add_planned(
            &mut self.context.device,
            &mut self.scene.resources.shaders,
            "pass_ssao_blurred.wgsl",
            bindings,
            screen_pipeline(None, None),
            Ghost(before),
            Ghost(start),
            Ghost(plan),
            Ghost(3),
        );

        let bindings = textures(5);
        assert(bindings@ =~= plan[4].1);
        add_planned(
            &mut self.context.device,
            &mut self.scene.resources.shaders,
            "pass_pbr_shading.wgsl",
            bindings,
            screen_pipeline(Some(main_camera), Some(&self.scene_lighting)),
            Ghost(before),
            Ghost(start),
            Ghost(plan),
            Ghost(4),
        );

        let mut bindings: Vec<ShaderBinding> = Vec::new();
        bindings.push(
            ShaderBinding::StorageTexture(
                ShaderBindingTexture { visible_in_stages: ShaderStages::compute(), ..volume_texture() },
                TextureFormat::Rgba8Unorm,
            ),
        );
        bindings.push(ShaderBinding::Buffer(storage_buffer(ShaderStages::compute())));
        assert(bindings@ =~= plan[5].1);
        add_planned(
            &mut self.context.device,
            &mut self.scene.resources.shaders,
            "compute_voxel_texture_generating.wgsl",
            bindings,
            PipelineOptions::ComputePipeline(ComputePipelineOptions {  }),
            Ghost(before),
            Ghost(start),
            Ghost(plan),
            Ghost(5),
        );

        let bindings = textures(1);
        assert(bindings@ =~= plan[6].1);
        let mut formats: Vec<TextureFormat> = Vec::new();
        formats.push(self.context.config.format);
        assert(formats@ =~= seq![self.context.config.format]);
        add_planned(
            &mut self.context.device,
            &mut self.scene.resources.shaders,
            "pass_hdr_exposure.wgsl",
            bindings,
            PipelineOptions::RenderPipeline(
                RenderPipelineOptions {
                    out_color_formats: formats,
                    depth_format: None,
                    use_instances: false,
                    scene_camera: None,
                    scene_lighting: None,
                },
            ),
            Ghost(before),
            Ghost(start),
            Ghost(plan),
            Ghost(6),
        );
        Ok(())
    }
}

} // verus!
