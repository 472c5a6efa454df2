//! The materials of the engine: two for every mesh, one for every
//! full-screen pass and for the compute pass, and how they get into the
//! table of materials.

use crate::engine::Engine;
use crate::frame_texture::FrameTextures;
use crate::gpu::{BufferBinding, BufferDescriptor, BufferUsages, Device, DeviceCall, DeviceCallView};
use crate::load::{EngineLoadError, camera_of, meshes_of, named_camera};
use crate::material::{
    DataBindingView, Material, MaterialDataBinding, MaterialError, binding_views, definition,
};
use crate::mesh::Mesh;
use crate::model::{
    scene_deferred_material, scene_deferred_material_name, voxel_lightmap_material, voxel_lightmap_material_name,
};
use crate::resource_table::{ResourceTable, index_in, keys_after_insert, latest, lemma_latest};
use crate::scene::LoadedResources;
use crate::text::str_eq;
use crate::texture::Texture;
use vstd::prelude::*;
use vstd::string::StringExecFns;

verus! {

/// One resource of a material definition.
#[derive(Clone, Debug, PartialEq, Eq)]
pub enum BindingSource {
    Buffer(BufferBinding),
    Texture(Texture),
    StorageTexture(Texture, Option<usize>),
    TextureName(String),
}

impl View for BindingSource {
    type V = DataBindingView;

    open spec fn view(&self) -> DataBindingView {
        match self {
            BindingSource::Buffer(buffer) => DataBindingView::Buffer(*buffer),
            BindingSource::Texture(texture) => DataBindingView::Texture(*texture),
            BindingSource::StorageTexture(texture, view) => DataBindingView::StorageTexture(*texture, *view),
            BindingSource::TextureName(name) => DataBindingView::TextureName(name@),
        }
    }
}

/// A material to build: its name, the source file of its shader, and the
/// resources for the shader's bindings, in order.
#[derive(Clone, Debug, PartialEq, Eq)]
pub struct MaterialDefinition {
    pub name: String,
    pub shader: String,
    pub bindings: Vec<BindingSource>,
}

impl View for MaterialDefinition {
    type V = MaterialDefinitionView;

    open spec fn view(&self) -> MaterialDefinitionView {
        MaterialDefinitionView {
            name: self.name@,
            shader: self.shader@,
            bindings: Seq::new(self.bindings@.len(), |i: int| self.bindings@[i]@),
        }
    }
}

/// The mathematical content of a [`MaterialDefinition`].
pub struct MaterialDefinitionView {
    pub name: Seq<char>,
    pub shader: Seq<char>,
    pub bindings: Seq<DataBindingView>,
}

/// The content of each definition of a list, in order.
pub open spec fn definition_views(definitions: Seq<MaterialDefinition>) -> Seq<MaterialDefinitionView> {
    Seq::new(definitions.len(), |i: int| definitions[i]@)
}

/// What the materials of the meshes bind of the voxel light map: the
/// texture, the storage buffer behind it, and the buffer of the camera that
/// looks at the voxels.
#[derive(Clone, Copy, Debug, PartialEq, Eq, Structural)]
pub struct VoxelResources {
    pub texture: Texture,
    pub storage: usize,
    pub camera: usize,
}

/// The resource that a name in a material of a mesh stands for. Three names
/// stand for resources of the voxel light map; any other is the name of a
/// loaded texture.
pub open spec fn named_binding(name: Seq<char>, voxel: VoxelResources) -> DataBindingView {
    if name == "VOXEL_LIGHTMAP"@ {
        DataBindingView::Buffer(BufferBinding::spec_entire(voxel.storage))
    } else if name == "VOXEL_LIGHTMAP_TEXTURE"@ {
        DataBindingView::Texture(voxel.texture)
    } else if name == "VOXEL_CAMERA_MATRICES"@ {
        DataBindingView::Buffer(BufferBinding::spec_entire(voxel.camera))
    } else {
        DataBindingView::TextureName(name)
    }
}

/// The binding for a texture map of a mesh, if the mesh has the map.
pub open spec fn map_binding(map: Option<String>, voxel: VoxelResources) -> Seq<DataBindingView> {
    match map {
        Some(name) => seq![named_binding(name@, voxel)],
        None => Seq::empty(),
    }
}

/// The two materials of a mesh. For the deferred pass: the maps the mesh
/// has, of albedo, of occlusion with roughness and metalness, and of
/// normals, and then the voxel light map. For the voxel passes: the
/// matrices of the voxel camera, the albedo map if the mesh has one, and
/// the storage of the voxel light map.
pub open spec fn mesh_definitions(mesh: Mesh, voxel: VoxelResources) -> Seq<MaterialDefinitionView> {
    seq![
        MaterialDefinitionView {
            name: scene_deferred_material_name(mesh.name@),
            shader: "scene_deferred.wgsl"@,
            bindings: map_binding(mesh.map_albedo, voxel) + map_binding(mesh.map_arm, voxel) + map_binding(
                mesh.map_normal,
                voxel,
            ) + seq![named_binding("VOXEL_LIGHTMAP_TEXTURE"@, voxel)],
        },
        MaterialDefinitionView {
            name: voxel_lightmap_material_name(mesh.name@),
            shader: "calc_voxel_lightmap.wgsl"@,
            bindings: seq![named_binding("VOXEL_CAMERA_MATRICES"@, voxel)] + map_binding(mesh.map_albedo, voxel)
                + seq![named_binding("VOXEL_LIGHTMAP"@, voxel)],
        },
    ]
}

/// The materials of the first `n` of `meshes`, mesh after mesh.
pub open spec fn meshes_definitions(meshes: Seq<Mesh>, voxel: VoxelResources, n: int) -> Seq<MaterialDefinitionView>
    decreases n,
{
    if n <= 0 {
        Seq::empty()
    } else {
        meshes_definitions(meshes, voxel, n - 1) + mesh_definitions(meshes[n - 1], voxel)
    }
}

/// The materials of the meshes of the first `n` of `files`, file after file.
pub open spec fn files_definitions(resources: LoadedResources, files: Seq<String>, voxel: VoxelResources, n: int) -> Seq<
    MaterialDefinitionView,
>
    decreases n,
{
    if n <= 0 {
        Seq::empty()
    } else {
        files_definitions(resources, files, voxel, n - 1) + meshes_definitions(
            meshes_of(resources, files[n - 1]@),
            voxel,
            meshes_of(resources, files[n - 1]@).len() as int,
        )
    }
}

/// The materials of the full-screen passes and of the compute pass. Each
/// pass reads the frame textures that the passes before it wrote.
pub open spec fn pass_definitions(textures: FrameTextures, voxel_view: usize, voxel: VoxelResources, samples: usize) -> Seq<
    MaterialDefinitionView,
> {
    let location = DataBindingView::Texture(textures.world_space_fragment_location.texture);
    let normal = DataBindingView::Texture(textures.world_space_normal.texture);
    seq![
        MaterialDefinitionView {
            name: "pass_ssao_kernel.material"@,
            shader: "pass_ssao_kernel.wgsl"@,
            bindings: seq![
                DataBindingView::Buffer(BufferBinding::spec_entire(samples)),
                DataBindingView::TextureName("SSAO_NOISE"@),
                location,
                normal,
            ],
        },
        MaterialDefinitionView {
            name: "pass_ssao_blurred.material"@,
            shader: "pass_ssao_blurred.wgsl"@,
            bindings: seq![DataBindingView::Texture(textures.ssao_kernel_map.texture)],
        },
        MaterialDefinitionView {
            name: "pass_pbr_shading.material"@,
            shader: "pass_pbr_shading.wgsl"@,
            bindings: seq![
                location,
                normal,
                DataBindingView::Texture(textures.albedo_map.texture),
                DataBindingView::Texture(textures.arm_map.texture),
                DataBindingView::Texture(textures.ssao_blurred_map.texture),
            ],
        },
        MaterialDefinitionView {
            name: "compute_voxel_texture_generating.material"@,
            shader: "compute_voxel_texture_generating.wgsl"@,
            bindings: seq![
                DataBindingView::StorageTexture(voxel.texture, Some(voxel_view)),
                DataBindingView::Buffer(BufferBinding::spec_entire(voxel.storage)),
            ],
        },
        MaterialDefinitionView {
            name: "pass_hdr_exposure.material"@,
            shader: "pass_hdr_exposure.wgsl"@,
            bindings: seq![DataBindingView::Texture(textures.pbr_shaded_map.texture)],
        },
    ]
}

/// How many of the first `n` of `definitions` can be built, one after the
/// other, before one fails.
pub open spec fn buildable(resources: LoadedResources, definitions: Seq<MaterialDefinitionView>, n: int) -> int
    decreases n,
{
    if n <= 0 {
        0
    } else {
        let before = buildable(resources, definitions, n - 1);
        if before == n - 1 && definition(resources, definitions[n - 1].shader, definitions[n - 1].bindings) is Ok {
            n
        } else {
            before
        }
    }
}

/// The calls that build the first `n` of `definitions`: one bind group each.
pub open spec fn definitions_calls(resources: LoadedResources, definitions: Seq<MaterialDefinitionView>, n: int) -> Seq<
    DeviceCallView,
>
    decreases n,
{
    if n <= 0 {
        Seq::empty()
    } else {
        let built = definition(resources, definitions[n - 1].shader, definitions[n - 1].bindings)->Ok_0;
        definitions_calls(resources, definitions, n - 1).push(
            DeviceCallView::CreateBindGroup { layout: built.1, entries: built.2 },
        )
    }
}

/// What the first `n` of `definitions` make, when the first bind group
/// gets the handle `base`: for each material the handle of its shader, its
/// name, and the handle of its bind group.
pub open spec fn definitions_made(
    resources: LoadedResources,
    definitions: Seq<MaterialDefinitionView>,
    base: int,
    n: int,
) -> Seq<(int, Seq<char>, int)> {
    Seq::new(
        n as nat,
        |i: int| (definition(resources, definitions[i].shader, definitions[i].bindings)->Ok_0.0, definitions[i].name, base + i),
    )
}

/// The names of the first `n` of `definitions`.
pub open spec fn definitions_names(definitions: Seq<MaterialDefinitionView>, n: int) -> Seq<Seq<char>> {
    Seq::new(n as nat, |i: int| definitions[i].name)
}

/// Whether `material` is what `made` says: the material of that shader,
/// with that name and that bind group.
pub open spec fn material_is(material: Material, made: (int, Seq<char>, int)) -> bool {
    material.shader_id == made.0 && material.name@ == made.1 && material.bind_group == made.2
}

/// The storage behind the voxel light map: four numbers of four bytes for
/// each voxel of a cube of 128 a side.
pub const VOXEL_STORAGE_SIZE: u64 = 33_554_432;

/// How the storage behind the voxel light map may be used.
pub open spec fn voxel_storage_usage() -> BufferUsages {
    BufferUsages { copy_src: true, copy_dst: true, index: false, vertex: false, uniform: false, storage: true }
}

/// The buffers that the materials bind: the samples for ambient occlusion,
/// filled with the words handed over, and the storage behind the voxel
/// light map.
pub open spec fn material_buffers(samples: Seq<u32>) -> Seq<DeviceCallView> {
    seq![
        DeviceCallView::CreateBufferInit { usage: BufferUsages::spec_uniform(), contents: samples },
        DeviceCallView::CreateBuffer(BufferDescriptor { size: VOXEL_STORAGE_SIZE, usage: voxel_storage_usage() }),
    ]
}

/// The resource that a name in a material of a mesh stands for.
fn source_for(name: &str, voxel: &VoxelResources) -> (source: BindingSource)
    ensures
        source@ == named_binding(name@, *voxel),
{
    if str_eq(name, "VOXEL_LIGHTMAP") {
        BindingSource::Buffer(BufferBinding::entire(voxel.storage))
    } else if str_eq(name, "VOXEL_LIGHTMAP_TEXTURE") {
        BindingSource::Texture(voxel.texture)
    } else if str_eq(name, "VOXEL_CAMERA_MATRICES") {
        BindingSource::Buffer(BufferBinding::entire(voxel.camera))
    } else {
        BindingSource::TextureName(String::from_str(name))
    }
}

/// The content of each source of a list, in order.
pub open spec fn source_views(sources: Seq<BindingSource>) -> Seq<DataBindingView> {
    Seq::new(sources.len(), |i: int| sources[i]@)
}

/// Adds the binding for a texture map of a mesh, if the mesh has the map.
fn push_map(bindings: &mut Vec<BindingSource>, map: &Option<String>, voxel: &VoxelResources)
    ensures
        source_views(final(bindings)@) == source_views(old(bindings)@) + map_binding(*map, *voxel),
{
    if let Some(name) = map {
        bindings.push(source_for(name.as_str(), voxel));
    }
    assert(source_views(bindings@) =~= source_views(old(bindings)@) + map_binding(*map, *voxel));
}

/// Adds a binding.
fn push_source(bindings: &mut Vec<BindingSource>, source: BindingSource)
    ensures
        source_views(final(bindings)@) == source_views(old(bindings)@).push(source@),
{
    bindings.push(source);
    assert(source_views(bindings@) =~= source_views(old(bindings)@).push(source@));
}

/// Adds a definition.
fn push_definition(definitions: &mut Vec<MaterialDefinition>, name: String, shader: &str, bindings: Vec<BindingSource>)
    ensures
        definition_views(final(definitions)@) == definition_views(old(definitions)@).push(
            MaterialDefinitionView { name: name@, shader: shader@, bindings: source_views(bindings@) },
        ),
{
    let ghost added = MaterialDefinitionView { name: name@, shader: shader@, bindings: source_views(bindings@) };
    let definition = MaterialDefinition { name, shader: String::from_str(shader), bindings };
    assert(definition@.bindings =~= added.bindings);
    definitions.push(definition);
    assert(definition_views(definitions@) =~= definition_views(old(definitions)@).push(added));
}

/// Adds the two materials of a mesh.
fn push_mesh_definitions(definitions: &mut Vec<MaterialDefinition>, mesh: &Mesh, voxel: &VoxelResources)
    ensures
        definition_views(final(definitions)@) == definition_views(old(definitions)@) + mesh_definitions(*mesh, *voxel),
{
    let mut deferred: Vec<BindingSource> = Vec::new();
    assert(source_views(deferred@) =~= Seq::<DataBindingView>::empty());
    push_map(&mut deferred, &mesh.map_albedo, voxel);
    push_map(&mut deferred, &mesh.map_arm, voxel);
    push_map(&mut deferred, &mesh.map_normal, voxel);
    push_source(&mut deferred, source_for("VOXEL_LIGHTMAP_TEXTURE", voxel));
    assert(source_views(deferred@) =~= mesh_definitions(*mesh, *voxel)[0].bindings);
    push_definition(definitions, scene_deferred_material(mesh.name.as_str()), "scene_deferred.wgsl", deferred);
    let mut voxels: Vec<BindingSource> = Vec::new();
    assert(source_views(voxels@) =~= Seq::<DataBindingView>::empty());
    push_source(&mut voxels, source_for("VOXEL_CAMERA_MATRICES", voxel));
    push_map(&mut voxels, &mesh.map_albedo, voxel);
    push_source(&mut voxels, source_for("VOXEL_LIGHTMAP", voxel));
    assert(source_views(voxels@) =~= mesh_definitions(*mesh, *voxel)[1].bindings);
    push_definition(definitions, voxel_lightmap_material(mesh.name.as_str()), "calc_voxel_lightmap.wgsl", voxels);
    assert(definition_views(definitions@) =~= definition_views(old(definitions)@) + mesh_definitions(*mesh, *voxel));
}

/// Adds the materials of the full-screen passes and of the compute pass.
fn push_pass_definitions(
    definitions: &mut Vec<MaterialDefinition>,
    textures: &FrameTextures,
    voxel_view: usize,
    voxel: &VoxelResources,
    samples: usize,
)
    ensures
        definition_views(final(definitions)@) == definition_views(old(definitions)@) + pass_definitions(
            *textures,
            voxel_view,
            *voxel,
            samples,
        ),
{
    let ghost expected = pass_definitions(*textures, voxel_view, *voxel, samples);
    let location = textures.world_space_fragment_location.texture;
    let normal = textures.world_space_normal.texture;

    let mut bindings: Vec<BindingSource> = Vec::new();
    bindings.push(BindingSource::Buffer(BufferBinding::entire(samples)));
    bindings.push(BindingSource::TextureName(String::from_str("SSAO_NOISE")));
    bindings.push(BindingSource::Texture(location));
    bindings.push(BindingSource::Texture(normal));
    assert(source_views(bindings@) =~= expected[0].bindings);
    push_definition(definitions, String::from_str("pass_ssao_kernel.material"), "pass_ssao_kernel.wgsl", bindings);

    let mut bindings: Vec<BindingSource> = Vec::new();
    bindings.push(BindingSource::Texture(textures.ssao_kernel_map.texture));
    assert(source_views(bindings@) =~= expected[1].bindings);
    push_definition(definitions, String::from_str("pass_ssao_blurred.material"), "pass_ssao_blurred.wgsl", bindings);

    let mut bindings: Vec<BindingSource> = Vec::new();
    bindings.push(BindingSource::Texture(location));
    bindings.push(BindingSource::Texture(normal));
    bindings.push(BindingSource::Texture(textures.albedo_map.texture));
    bindings.push(BindingSource::Texture(textures.arm_map.texture));
    bindings.push(BindingSource::Texture(textures.ssao_blurred_map.texture));
    assert(source_views(bindings@) =~= expected[2].bindings);
    push_definition(definitions, String::from_str("pass_pbr_shading.material"), "pass_pbr_shading.wgsl", bindings);

    let mut bindings: Vec<BindingSource> = Vec::new();
    bindings.push(BindingSource::StorageTexture(voxel.texture, Some(voxel_view)));
    bindings.push(BindingSource::Buffer(BufferBinding::entire(voxel.storage)));
    assert(source_views(bindings@) =~= expected[3].bindings);
    push_definition(
        definitions,
        String::from_str("compute_voxel_texture_generating.material"),
        "compute_voxel_texture_generating.wgsl",
        bindings,
    );

    let mut bindings: Vec<BindingSource> = Vec::new();
    bindings.push(BindingSource::Texture(textures.pbr_shaded_map.texture));
    assert(source_views(bindings@) =~= expected[4].bindings);
    push_definition(definitions, String::from_str("pass_hdr_exposure.material"), "pass_hdr_exposure.wgsl", bindings);
    assert(definition_views(definitions@) =~= definition_views(old(definitions)@) + expected);
}

/// The supplied bindings of a definition, for building its material.
fn data_bindings<'a>(sources: &'a Vec<BindingSource>) -> (bindings: Vec<MaterialDataBinding<'a>>)
    ensures
        binding_views(bindings@) == source_views(sources@),
{
    let mut bindings: Vec<MaterialDataBinding<'a>> = Vec::new();
    let n = sources.len();
    let mut i: usize = 0;
    while i < n
        invariant
            n == sources@.len(),
            i <= n,
            bindings@.len() == i,
            forall|j: int| 0 <= j < i ==> (#[trigger] bindings@[j])@ == sources@[j]@,
        decreases n - i,
    {
        let binding = match &sources[i] {
            BindingSource::Buffer(buffer) => MaterialDataBinding::Buffer(*buffer),
            BindingSource::Texture(texture) => MaterialDataBinding::Texture(texture),
            BindingSource::StorageTexture(texture, view) => MaterialDataBinding::StorageTexture(texture, *view),
            BindingSource::TextureName(name) => MaterialDataBinding::TextureName(name.as_str()),
        };
        bindings.push(binding);
        i += 1;
    }
    assert(binding_views(bindings@) =~= source_views(sources@));
    bindings
}

/// Builds the material of a definition and stores it under its name.
fn add_material(device: &mut Device, resources: &mut LoadedResources, wanted: &MaterialDefinition) -> (result: Result<
    usize,
    MaterialError,
>)
    requires
        old(resources).wf(),
    ensures
        final(resources).wf(),
        final(resources).shaders == old(resources).shaders,
        final(resources).textures == old(resources).textures,
        final(resources).meshes == old(resources).meshes,
        match definition(*old(resources), wanted@.shader, wanted@.bindings) {
            Ok((shader_id, layout, entries)) => {
                &&& result matches Ok(at)
                &&& final(device)@ == old(device)@.push(DeviceCallView::CreateBindGroup { layout, entries })
                &&& final(resources).materials.keys() == keys_after_insert(old(resources).materials.keys(), wanted@.name)
                &&& index_in(final(resources).materials.keys(), wanted@.name) == Some(at as int)
                &&& at < final(resources).materials.values().len()
                &&& material_is(
                    final(resources).materials.values()[at as int],
                    (shader_id, wanted@.name, old(device)@.len() as int),
                )
                &&& forall|i: int|
                    0 <= i < old(resources).materials.values().len() && i != at ==> final(resources).materials.values()[i] == old(resources).materials.values()[i]
                &&& old(resources).materials.values().len() <= final(resources).materials.values().len()
            },
            Err(failure) => {
                &&& result matches Err(error)
                &&& error.tells(wanted@.name, wanted@.shader, failure)
                &&& final(device)@ == old(device)@
                &&& final(resources).materials == old(resources).materials
            },
        },
{
    let bindings = data_bindings(&wanted.bindings);
    assert(binding_views(bindings@) =~= wanted@.bindings);
    match Material::new(wanted.name.as_str(), wanted.shader.as_str(), bindings, resources, device) {
        Ok(material) => Ok(resources.materials.insert_full(wanted.name.clone(), material)),
        Err(error) => Err(error),
    }
}

/// Where the first `m` definitions can be built and the next one fails, no more can.
proof fn lemma_buildable_stops(resources: LoadedResources, definitions: Seq<MaterialDefinitionView>, m: int, n: int)
    requires
        0 <= m < n,
        buildable(resources, definitions, m) == m,
        definition(resources, definitions[m].shader, definitions[m].bindings) is Err,
    ensures
        buildable(resources, definitions, n) == m,
    decreases n - m,
{
    if m + 1 < n {
        lemma_buildable_stops(resources, definitions, m, n - 1);
    }
}

/// No more definitions can be built than there are.
proof fn lemma_buildable_bound(resources: LoadedResources, definitions: Seq<MaterialDefinitionView>, n: int)
    requires
        0 <= n,
    ensures
        0 <= buildable(resources, definitions, n) <= n,
    decreases n,
{
    if n > 0 {
        lemma_buildable_bound(resources, definitions, n - 1);
    }
}

/// Where the first `n` definitions can all be built, each of them has its
/// shader loaded and bindings that match it.
pub proof fn lemma_all_buildable(resources: LoadedResources, definitions: Seq<MaterialDefinitionView>, n: int, i: int)
    requires
        0 <= i < n,
        buildable(resources, definitions, n) == n,
    ensures
        definition(resources, definitions[i].shader, definitions[i].bindings) is Ok,
    decreases n,
{
    lemma_buildable_bound(resources, definitions, n - 1);
    if i < n - 1 {
        lemma_all_buildable(resources, definitions, n - 1, i);
    }
}

impl Engine {
    /// The materials of the engine, in the order in which they are built:
    /// the two materials of every mesh of the model files, file after file,
    /// and then the materials of the passes.
    pub open spec fn definitions(&self, model_files: Seq<String>, voxel: VoxelResources, samples: usize) -> Seq<
        MaterialDefinitionView,
    > {
        files_definitions(self.scene.resources, model_files, voxel, model_files.len() as int) + pass_definitions(
            self.frame_textures,
            self.voxel_light_map.storage_texture_view,
            voxel,
            samples,
        )
    }

    /// The materials of the engine, in the order in which they are built.
    /// `voxel` holds what the materials bind of the voxel light map, and
    /// `samples` is the buffer of samples for ambient occlusion.
    pub fn material_definitions(&self, model_files: &Vec<String>, voxel: VoxelResources, samples: usize) -> (definitions:
        Vec<MaterialDefinition>)
        requires
            self.wf(),
        ensures
            definition_views(definitions@) == self.definitions(model_files@, voxel, samples),
    {
        let mut definitions: Vec<MaterialDefinition> = Vec::new();
        assert(definition_views(definitions@) =~= Seq::<MaterialDefinitionView>::empty());
        let count = model_files.len();
        let mut i: usize = 0;
        while i < count
            invariant
                self.wf(),
                count == model_files@.len(),
                i <= count,
                definition_views(definitions@) == files_definitions(self.scene.resources, model_files@, voxel, i as int),
            decreases count - i,
        {
            let ghost before = definition_views(definitions@);
            if let Some(meshes) = self.scene.resources.meshes.get(model_files[i].as_str()) {
                let n = meshes.len();
                let mut j: usize = 0;
                while j < n
                    invariant
                        meshes.wf(),
                        n == meshes.values().len(),
                        j <= n,
                        definition_views(definitions@) == before + meshes_definitions(meshes.values(), voxel, j as int),
                    decreases n - j,
                {
                    if let Some((_, mesh)) = meshes.get_index(j) {
                        push_mesh_definitions(&mut definitions, mesh, &voxel);
                    }
                    j += 1;
                    assert(definition_views(definitions@) =~= before + meshes_definitions(
                        meshes.values(),
                        voxel,
                        j as int,
                    ));
                }
            } else {
                assert(meshes_definitions(Seq::<Mesh>::empty(), voxel, 0) =~= Seq::<MaterialDefinitionView>::empty());
            }
            i += 1;
            assert(definition_views(definitions@) =~= files_definitions(
                self.scene.resources,
                model_files@,
                voxel,
                i as int,
            ));
        }
        push_pass_definitions(
            &mut definitions,
            &self.frame_textures,
            self.voxel_light_map.storage_texture_view,
            &voxel,
            samples,
        );
        definitions
    }

    /// What the materials bind of the voxel light map, when the buffers of
    /// the materials are made by calls from handle `base` on and the voxel
    /// camera has the buffer `camera`.
    pub open spec fn voxel_resources(&self, base: int, camera: usize) -> VoxelResources {
        VoxelResources { texture: self.voxel_light_map.texture, storage: (base + 1) as usize, camera }
    }

    /// Whether `after` is the engine `before` with the first `n` of the
    /// material definitions built: the two buffers are made, then one bind
    /// group for each material, and each material stands in the table under
    /// its name. Nothing else changes.
    pub open spec fn materials_loaded(
        before: Engine,
        after: Engine,
        samples: Seq<u32>,
        definitions: Seq<MaterialDefinitionView>,
        n: int,
    ) -> bool {
        let base = before.context.device@.len() as int;
        &&& after.context.device@ == before.context.device@ + material_buffers(samples) + definitions_calls(
            before.scene.resources,
            definitions,
            n,
        )
        &&& ResourceTable::filled_from(
            before.scene.resources.materials,
            after.scene.resources.materials,
            definitions_names(definitions, n),
            definitions_made(before.scene.resources, definitions, base + 2, n),
            |material: Material, made: (int, Seq<char>, int)| material_is(material, made),
        )
        &&& after.context.config == before.context.config
        &&& after.frame_textures == before.frame_textures
        &&& after.voxel_light_map == before.voxel_light_map
        &&& after.active_camera == before.active_camera
        &&& after.scene_lighting == before.scene_lighting
        &&& after.scene.root == before.scene.root
        &&& after.scene.entity_name_paths == before.scene.entity_name_paths
        &&& after.scene.resources.shaders == before.scene.resources.shaders
        &&& after.scene.resources.textures == before.scene.resources.textures
        &&& after.scene.resources.meshes == before.scene.resources.meshes
    }

    /// The tables of materials and shaders agree. Where the first `n`
    /// definitions were all built, the material that stands under the name
    /// of a definition, the last of that name at `k`, bears the name, and
    /// its shader handle is in range and is the handle under which the
    /// shader of the definition stands.
    pub proof fn lemma_materials_know_their_shaders(
        before: Engine,
        after: Engine,
        samples: Seq<u32>,
        definitions: Seq<MaterialDefinitionView>,
        n: int,
        name: Seq<char>,
        k: int,
    )
        requires
            after.wf(),
            0 <= n <= definitions.len(),
            Self::materials_loaded(before, after, samples, definitions, n),
            buildable(before.scene.resources, definitions, n) == n,
            latest(definitions_names(definitions, n), name) == Some(k),
        ensures
            0 <= k < n,
            definitions[k].name == name,
            index_in(after.scene.resources.materials.keys(), name) matches Some(i) && {
                let material = after.scene.resources.materials.values()[i];
                &&& material.name@ == name
                &&& material.shader_id < after.scene.resources.shaders.values().len()
                &&& after.scene.resources.shaders.keys()[material.shader_id as int] == definitions[k].shader
                &&& index_in(after.scene.resources.shaders.keys(), definitions[k].shader) == Some(
                    material.shader_id as int,
                )
            },
    {
        let names = definitions_names(definitions, n);
        lemma_latest(names, name);
        lemma_all_buildable(before.scene.resources, definitions, n, k);
        after.scene.resources.shaders.lemma_keys_distinct();
        let base = before.context.device@.len() as int;
        let made = definitions_made(before.scene.resources, definitions, base + 2, n);
        let i = index_in(after.scene.resources.materials.keys(), name)->0;
        assert(material_is(after.scene.resources.materials.values()[i], made[k]));
    }

    /// Builds the materials of the engine and stores each under its name.
    /// The materials are built in order; the first that cannot be built
    /// stops the loading, with the materials before it in place. Without a
    /// camera on the root's child "Voxel Camera" nothing is built.
    pub fn load_materials(&mut self, model_files: &Vec<String>, ssao_samples: Vec<u32>) -> (result: Result<
        (),
        EngineLoadError,
    >)
        requires
            old(self).wf(),
        ensures
            final(self).wf(),
            match named_camera(old(self).scene.root, "Voxel Camera"@) {
                None => {
                    &&& result matches Err(EngineLoadError::MissingCamera { entity })
                    &&& entity@ == "Voxel Camera"@
                    &&& *final(self) == *old(self)
                },
                Some(camera) => {
                    let base = old(self).context.device@.len() as int;
                    let definitions = old(self).definitions(
                        model_files@,
                        old(self).voxel_resources(base, camera.camera_buffer),
                        base as usize,
                    );
                    let built = buildable(old(self).scene.resources, definitions, definitions.len() as int);
                    &&& 0 <= built <= definitions.len()
                    &&& Self::materials_loaded(*old(self), *final(self), ssao_samples@, definitions, built)
                    &&& built == definitions.len() ==> result is Ok
                    &&& built < definitions.len() ==> {
                        &&& definition(
                            old(self).scene.resources,
                            definitions[built].shader,
                            definitions[built].bindings,
                        ) matches Err(failure)
                        &&& result matches Err(EngineLoadError::Material(error))
                        &&& error.tells(definitions[built].name, definitions[built].shader, failure)
                    }
                },
            },
    {
        let camera = match camera_of(&self.scene.root, "Voxel Camera") {
            Some(camera) => camera.camera_buffer,
            None => {
                return Err(EngineLoadError::MissingCamera { entity: String::from_str("Voxel Camera") });
            },
        };
        let ghost base = self.context.device@.len() as int;
        let ghost resources = self.scene.resources;
        let ghost before = self.scene.resources.materials;
        let ghost is = |material: Material, made: (int, Seq<char>, int)| material_is(material, made);
        let samples = self.context.device.record(
            DeviceCall::CreateBufferInit { usage: BufferUsages::uniform(), contents: ssao_samples },
        );
        let storage = self.context.device.record(
            DeviceCall::CreateBuffer(
                BufferDescriptor {
                    size: VOXEL_STORAGE_SIZE,
                    usage: BufferUsages { copy_src: true, copy_dst: true, storage: true, ..BufferUsages::none() },
                },
            ),
        );
        let voxel = VoxelResources { texture: self.voxel_light_map.texture, storage, camera };
        let definitions = self.material_definitions(model_files, voxel, samples);
        let ghost views = definition_views(definitions@);
        let ghost start = self.context.device@;
        proof {
            assert(voxel == old(self).voxel_resources(base, camera));
            assert(views == old(self).definitions(model_files@, old(self).voxel_resources(base, camera), base as usize));
            assert(start =~= old(self).context.device@ + material_buffers(ssao_samples@));
            ResourceTable::lemma_filled_start(before, is);
            assert(definitions_names(views, 0) =~= Seq::<Seq<char>>::empty());
            assert(definitions_made(resources, views, base + 2, 0) =~= Seq::<(int, Seq<char>, int)>::empty());
        }
        let n = definitions.len();
        let mut i: usize = 0;
        while i < n
            invariant
                self.scene.wf(),
                n == definitions@.len(),
                views == definition_views(definitions@),
                views == old(self).definitions(model_files@, old(self).voxel_resources(base, camera), base as usize),
                named_camera(old(self).scene.root, "Voxel Camera"@) matches Some(found) && found.camera_buffer == camera,
                i <= n,
                base == old(self).context.device@.len(),
                resources == old(self).scene.resources,
                before == old(self).scene.resources.materials,
                before.wf(),
                is == |material: Material, made: (int, Seq<char>, int)| material_is(material, made),
                start == old(self).context.device@ + material_buffers(ssao_samples@),
                buildable(resources, views, i as int) == i,
                self.context.device@ == start + definitions_calls(resources, views, i as int),
                definitions_calls(resources, views, i as int).len() == i,
                ResourceTable::filled_from(
                    before,
                    self.scene.resources.materials,
                    definitions_names(views, i as int),
                    definitions_made(resources, views, base + 2, i as int),
                    is,
                ),
                self.context.config == old(self).context.config,
                self.frame_textures == old(self).frame_textures,
                self.voxel_light_map == old(self).voxel_light_map,
                self.active_camera == old(self).active_camera,
                self.scene_lighting == old(self).scene_lighting,
                self.scene.root == old(self).scene.root,
                self.scene.entity_name_paths == old(self).scene.entity_name_paths,
                self.scene.resources.shaders == old(self).scene.resources.shaders,
                self.scene.resources.textures == old(self).scene.resources.textures,
                self.scene.resources.meshes == old(self).scene.resources.meshes,
            decreases n - i,
        {
            let wanted = &definitions[i];
            let ghost middle = self.scene.resources.materials;
            assert(views[i as int] == wanted@);
            assert(definition(self.scene.resources, wanted@.shader, wanted@.bindings) == definition(
                resources,
                wanted@.shader,
                wanted@.bindings,
            ));
            match add_material(&mut self.context.device, &mut self.scene.resources, wanted) {
                Ok(at) => {
                    proof {
                        let made = (
                            definition(resources, wanted@.shader, wanted@.bindings)->Ok_0.0,
                            wanted@.name,
                            base + 2 + i,
                        );
                        ResourceTable::lemma_filled_step(
                            before,
                            middle,
                            self.scene.resources.materials,
                            definitions_names(views, i as int),
                            definitions_made(resources, views, base + 2, i as int),
                            is,
                            wanted@.name,
                            made,
                            at as int,
                        );
                        assert(definitions_names(views, i as int).push(wanted@.name) =~= definitions_names(
                            views,
                            i + 1,
                        ));
                        assert(definitions_made(resources, views, base + 2, i as int).push(made) =~= definitions_made(
                            resources,
                            views,
                            base + 2,
                            i + 1,
                        ));
                    }
                },
                Err(error) => {
                    proof {
                        lemma_buildable_stops(resources, views, i as int, n as int);
                    }
                    return Err(EngineLoadError::Material(error));
                },
            }
            i += 1;
            assert(self.context.device@ =~= start + definitions_calls(resources, views, i as int));
        }
        Ok(())
    }
}

} // verus!
