//! Loading: how the engine fills its resource tables before the first frame.
//!
//! Reading files is the host's work. The host hands over the decoded meshes
//! and images; the engine puts everything on the device, builds the scene,
//! its shaders and its materials, and resolves the models of the scene.

pub mod materials;
pub mod shaders;
pub mod textures;
pub mod world;

use crate::camera::Camera;
use crate::engine::Engine;
use crate::entity::{Entity, cameras_in, entity_failure, first_named, lemma_first_named, loaded};
use crate::gpu::DeviceCallView;
use crate::load::world::SceneParameters;
use crate::load::materials::{MaterialDefinitionView, buildable, definitions_names};
use crate::load::textures::{DecodedImage, ImageFailure, TextureRequest, request_views, requests_failure};
use crate::material::{Material, MaterialError, definition};
use crate::mesh::{Mesh, MeshSource, blit_quad_indices, blit_quad_vertices, map_is, mesh_calls};
use crate::model::{LoadError, MeshHandle, Model};
use crate::resource_table::{index_in, latest};
use crate::scene::LoadedResources;
use vstd::prelude::*;
use vstd::string::StringExecFns;

verus! {

/// A model file, decoded: its name and its meshes. Model files are handed
/// over as a list and are taken in the order of the list, so that every
/// handle is the same on every run; where two files have one name, their
/// meshes are stored under that name, the later of two namesakes taking
/// the place of the earlier.
#[derive(Clone, Debug, PartialEq, Eq)]
pub struct ModelFile {
    pub name: String,
    pub meshes: Vec<MeshSource>,
}

/// Why the resources could not be loaded.
#[derive(Clone, Debug, PartialEq, Eq)]
pub enum EngineLoadError {
    /// A model of the scene refers to something that is not loaded.
    Model(LoadError),
    /// A material could not be built.
    Material(MaterialError),
    /// The scene has no child of the root with this name that carries a camera.
    MissingCamera { entity: String },
    /// The host handed over no image for this texture file.
    MissingImage { file: String },
    /// The image for this texture file has no pixels, or more than the engine can address.
    InvalidImage { file: String },
}

/// The camera of the child of `root` called `name`: the first camera of
/// the first such child.
pub open spec fn named_camera(root: Entity, name: Seq<char>) -> Option<Camera> {
    let at = first_named(root.children@, name);
    if at < root.children@.len() {
        let cameras = cameras_in(root.children@[at].components@, root.children@[at].components@.len() as int);
        if cameras.len() > 0 {
            Some(cameras[0])
        } else {
            None
        }
    } else {
        None
    }
}

/// The camera of the child of `root` called `name`.
pub fn camera_of<'a>(root: &'a Entity, name: &str) -> (camera: Option<&'a Camera>)
    ensures
        match named_camera(*root, name@) {
            Some(expected) => camera == Some(&expected),
            None => camera is None,
        },
{
    proof {
        lemma_first_named(root.children@, name@);
    }
    match root.find_descendant(name) {
        Some(entity) => {
            let cameras = entity.get_cameras();
            if cameras.len() > 0 {
                Some(cameras[0])
            } else {
                None
            }
        },
        None => None,
    }
}

/// The meshes of the model file `file`, in the order of their handles;
/// none if the file is not loaded.
pub open spec fn meshes_of(resources: LoadedResources, file: Seq<char>) -> Seq<Mesh> {
    resources.meshes_in(file)
}

/// The first `n` meshes of a model file, each with the name of the file.
pub open spec fn file_meshes(file: ModelFile, n: int) -> Seq<(Seq<char>, MeshSource)> {
    Seq::new(n as nat, |j: int| (file.name@, file.meshes@[j]))
}

/// The meshes of the first `n` of `files`, file after file, each with the
/// name of its file.
pub open spec fn flat_meshes(files: Seq<ModelFile>, n: int) -> Seq<(Seq<char>, MeshSource)>
    decreases n,
{
    if n <= 0 {
        Seq::empty()
    } else {
        flat_meshes(files, n - 1) + file_meshes(files[n - 1], files[n - 1].meshes@.len() as int)
    }
}

/// The place of the last of `meshes` that is the mesh `name` of the file
/// `file`, if there is one.
pub open spec fn latest_mesh(meshes: Seq<(Seq<char>, MeshSource)>, file: Seq<char>, name: Seq<char>) -> Option<int>
    decreases meshes.len(),
{
    if meshes.len() == 0 {
        None
    } else if meshes.last().0 == file && meshes.last().1.name@ == name {
        Some(meshes.len() - 1)
    } else {
        latest_mesh(meshes.drop_last(), file, name)
    }
}

/// Whether `mesh` is the mesh that loading `source` makes, with its vertex
/// buffer from the call with the handle `vertex_buffer` and its index
/// buffer from the next.
pub open spec fn mesh_loaded_from(mesh: Mesh, source: MeshSource, vertex_buffer: int) -> bool {
    &&& mesh.name@ == source.name@
    &&& mesh.vertex_buffer == vertex_buffer
    &&& mesh.index_buffer == vertex_buffer + 1
    &&& mesh.index_count == source.indices@.len() as u32
    &&& map_is(
        mesh.map_albedo,
        match source.material {
            Some(m) => Some(m.diffuse_texture@),
            None => None,
        },
    )
    &&& map_is(
        mesh.map_arm,
        match source.material {
            Some(m) => Some(m.shininess_texture@),
            None => None,
        },
    )
    &&& map_is(
        mesh.map_normal,
        match source.material {
            Some(m) => Some(m.normal_texture@),
            None => None,
        },
    )
}

/// The mesh behind a handle, if the handle is in range.
pub open spec fn mesh_behind(resources: LoadedResources, handle: MeshHandle) -> Option<Mesh> {
    let files = resources.meshes.values();
    if handle.file < files.len() && handle.mesh < files[handle.file as int].values().len() {
        Some(files[handle.file as int].values()[handle.mesh as int])
    } else {
        None
    }
}

/// Whether the table of meshes of `after` is that of `before` with
/// `meshes` loaded in order, by two calls each from the handle `base` on:
/// under the name of a mesh and of its file stands what the last mesh of
/// that name and file was loaded to; every other mesh that was known keeps
/// its handle and stays as it was.
#[verifier::opaque]
pub open spec fn meshes_filled(
    before: LoadedResources,
    after: LoadedResources,
    meshes: Seq<(Seq<char>, MeshSource)>,
    base: int,
) -> bool {
    forall|file: Seq<char>, name: Seq<char>|
        #![trigger latest_mesh(meshes, file, name)]
        match latest_mesh(meshes, file, name) {
            Some(place) => {
                &&& after.mesh_handle(file, name) matches Some(handle)
                &&& mesh_behind(after, handle) matches Some(mesh)
                &&& mesh_loaded_from(mesh, meshes[place].1, base + 2 * place)
            },
            None => before.mesh_handle(file, name) is Some ==> {
                &&& after.mesh_handle(file, name) == before.mesh_handle(file, name)
                &&& mesh_behind(after, before.mesh_handle(file, name)->0) is Some
                &&& mesh_behind(after, before.mesh_handle(file, name)->0) == mesh_behind(
                    before,
                    before.mesh_handle(file, name)->0,
                )
            },
        }
}

/// `latest_mesh` is a place among the meshes, of a mesh of that file and name.
proof fn lemma_latest_mesh(meshes: Seq<(Seq<char>, MeshSource)>, file: Seq<char>, name: Seq<char>)
    ensures
        latest_mesh(meshes, file, name) matches Some(place) ==> 0 <= place < meshes.len() && meshes[place].0 == file
            && meshes[place].1.name@ == name,
    decreases meshes.len(),
{
    if meshes.len() > 0 && !(meshes.last().0 == file && meshes.last().1.name@ == name) {
        lemma_latest_mesh(meshes.drop_last(), file, name);
    }
}

/// A table of meshes is itself with no mesh loaded.
proof fn lemma_nothing_filled(resources: LoadedResources, base: int)
    requires
        resources.wf(),
    ensures
        meshes_filled(resources, resources, Seq::empty(), base),
{
    reveal(meshes_filled);
    assert forall|file: Seq<char>, name: Seq<char>| resources.mesh_handle(file, name) is Some implies mesh_behind(
        resources,
        resources.mesh_handle(file, name)->0,
    ) is Some by {
        let at = index_in(resources.meshes.keys(), file)->0;
        resources.meshes.lemma_keys_distinct();
        let within = index_in(resources.meshes.values()[at].keys(), name)->0;
        resources.meshes.values()[at].lemma_keys_distinct();
    }
}

/// One more mesh: where `middle` is `before` with `meshes` loaded, and
/// `after` is `middle` with what `source` was loaded to stored under its
/// name and the name of its file, `after` is `before` with `meshes` and
/// this mesh loaded.
proof fn lemma_mesh_filled(
    before: LoadedResources,
    middle: LoadedResources,
    after: LoadedResources,
    meshes: Seq<(Seq<char>, MeshSource)>,
    base: int,
    file: Seq<char>,
    source: MeshSource,
)
    requires
        meshes_filled(before, middle, meshes, base),
        after.mesh_handle(file, source.name@) matches Some(handle) && mesh_behind(after, handle) matches Some(mesh)
            && mesh_loaded_from(mesh, source, base + 2 * meshes.len()),
        forall|f: Seq<char>, m: Seq<char>|
            middle.mesh_handle(f, m) is Some && !(f == file && m == source.name@) ==> {
                &&& #[trigger] after.mesh_handle(f, m) == middle.mesh_handle(f, m)
                &&& mesh_behind(after, middle.mesh_handle(f, m)->0) is Some
                &&& mesh_behind(after, middle.mesh_handle(f, m)->0) == mesh_behind(middle, middle.mesh_handle(f, m)->0)
            },
    ensures
        meshes_filled(before, after, meshes.push((file, source)), base),
{
    reveal(meshes_filled);
    let more = meshes.push((file, source));
    assert(more.drop_last() =~= meshes);
    assert forall|f: Seq<char>, m: Seq<char>| #![trigger latest_mesh(more, f, m)] match latest_mesh(more, f, m) {
        Some(place) => {
            &&& after.mesh_handle(f, m) matches Some(handle)
            &&& mesh_behind(after, handle) matches Some(mesh)
            &&& mesh_loaded_from(mesh, more[place].1, base + 2 * place)
        },
        None => before.mesh_handle(f, m) is Some ==> {
            &&& after.mesh_handle(f, m) == before.mesh_handle(f, m)
            &&& mesh_behind(after, before.mesh_handle(f, m)->0) is Some
            &&& mesh_behind(after, before.mesh_handle(f, m)->0) == mesh_behind(before, before.mesh_handle(f, m)->0)
        },
    } by {
        if !(f == file && m == source.name@) {
            assert(latest_mesh(more, f, m) == latest_mesh(meshes, f, m));
            lemma_latest_mesh(meshes, f, m);
            match latest_mesh(meshes, f, m) {
                Some(place) => {
                    assert(middle.mesh_handle(f, m) is Some);
                    assert(after.mesh_handle(f, m) == middle.mesh_handle(f, m));
                    assert(more[place] == meshes[place]);
                },
                None => {
                    if before.mesh_handle(f, m) is Some {
                        assert(middle.mesh_handle(f, m) == before.mesh_handle(f, m));
                        assert(after.mesh_handle(f, m) == middle.mesh_handle(f, m));
                    }
                },
            }
        }
    }
}

/// The calls that put the first `n` of `meshes` on the device, in order.
pub open spec fn meshes_calls(meshes: Seq<MeshSource>, n: int) -> Seq<DeviceCallView>
    decreases n,
{
    if n <= 0 {
        Seq::empty()
    } else {
        meshes_calls(meshes, n - 1) + mesh_calls(meshes[n - 1].vertices@, meshes[n - 1].indices@)
    }
}

/// The calls that put the meshes of the first `n` of `files` on the device, file after file.
pub open spec fn files_calls(files: Seq<ModelFile>, n: int) -> Seq<DeviceCallView>
    decreases n,
{
    if n <= 0 {
        Seq::empty()
    } else {
        files_calls(files, n - 1) + meshes_calls(files[n - 1].meshes@, files[n - 1].meshes@.len() as int)
    }
}

impl Engine {
    /// Whether everything but the record of the device and the table of
    /// meshes is in `after` as it is in `before`.
    pub open spec fn rest_kept(before: Engine, after: Engine) -> bool {
        &&& after.context.config == before.context.config
        &&& after.frame_textures == before.frame_textures
        &&& after.voxel_light_map == before.voxel_light_map
        &&& after.active_camera == before.active_camera
        &&& after.scene_lighting == before.scene_lighting
        &&& after.scene.root == before.scene.root
        &&& after.scene.entity_name_paths == before.scene.entity_name_paths
        &&& after.scene.resources.shaders == before.scene.resources.shaders
        &&& after.scene.resources.textures == before.scene.resources.textures
        &&& after.scene.resources.materials == before.scene.resources.materials
    }

    /// Whether `after` is the engine `before` with the meshes of the model
    /// files preloaded: every mesh is on the device, by two calls each in
    /// the order of the files and of their meshes; under the name of a file
    /// and of a mesh stands what the last such mesh was loaded to; handles
    /// that existed stay, and so do the meshes that were not loaded anew.
    /// Nothing else changes.
    pub open spec fn models_preloaded(before: Engine, after: Engine, model_files: Seq<ModelFile>) -> bool {
        &&& after.context.device@ == before.context.device@ + files_calls(model_files, model_files.len() as int)
        &&& Self::rest_kept(before, after)
        &&& forall|f: Seq<char>, m: Seq<char>|
            before.scene.resources.mesh_handle(f, m) is Some ==> #[trigger] after.scene.resources.mesh_handle(f, m)
                == before.scene.resources.mesh_handle(f, m)
        &&& meshes_filled(
            before.scene.resources,
            after.scene.resources,
            flat_meshes(model_files, model_files.len() as int),
            before.context.device@.len() as int,
        )
    }

    /// Puts the meshes of decoded model files on the device and into the
    /// table of meshes, each under the name of its file and its own name.
    /// Returns the names of the files, in order. Where two meshes share
    /// both names, the later one takes the place of the earlier; handles
    /// that existed before stay.
    pub fn preload_model_files(&mut self, model_files: &Vec<ModelFile>) -> (names: Vec<String>)
        requires
            old(self).wf(),
        ensures
            final(self).wf(),
            names@.len() == model_files@.len(),
            forall|i: int| 0 <= i < names@.len() ==> (#[trigger] names@[i])@ == model_files@[i].name@,
            Self::models_preloaded(*old(self), *final(self), model_files@),
    {
        let mut names: Vec<String> = Vec::new();
        let ghost base = self.context.device@.len() as int;
        let ghost mut done: Seq<(Seq<char>, MeshSource)> = Seq::empty();
        proof {
            lemma_nothing_filled(self.scene.resources, base);
        }
        let count = model_files.len();
        let mut i: usize = 0;
        while i < count
            invariant
                self.wf(),
                count == model_files@.len(),
                i <= count,
                names@.len() == i,
                forall|k: int| 0 <= k < i ==> (#[trigger] names@[k])@ == model_files@[k].name@,
                base == old(self).context.device@.len(),
                done == flat_meshes(model_files@, i as int),
                self.context.device@.len() == base + 2 * done.len(),
                self.context.device@ == old(self).context.device@ + files_calls(model_files@, i as int),
                Self::rest_kept(*old(self), *self),
                forall|f: Seq<char>, m: Seq<char>|
                    old(self).scene.resources.mesh_handle(f, m) is Some ==> #[trigger] self.scene.resources.mesh_handle(
                        f,
                        m,
                    ) == old(self).scene.resources.mesh_handle(f, m),
                meshes_filled(old(self).scene.resources, self.scene.resources, done, base),
            decreases count - i,
        {
            let model_file = &model_files[i];
            let ghost before_file = self.context.device@;
            let ghost done_before = done;
            let meshes = model_file.meshes.len();
            let mut j: usize = 0;
            assert(done =~= done_before + file_meshes(*model_file, 0));
            while j < meshes
                invariant
                    self.wf(),
                    count == model_files@.len(),
                    i < count,
                    *model_file == model_files@[i as int],
                    meshes == model_file.meshes@.len(),
                    j <= meshes,
                    base == old(self).context.device@.len(),
                    done == done_before + file_meshes(*model_file, j as int),
                    self.context.device@.len() == base + 2 * done.len(),
                    self.context.device@ == before_file + meshes_calls(model_file.meshes@, j as int),
                    Self::rest_kept(*old(self), *self),
                    forall|f: Seq<char>, m: Seq<char>|
                        old(self).scene.resources.mesh_handle(f, m) is Some
                            ==> #[trigger] self.scene.resources.mesh_handle(f, m) == old(self).scene.resources.mesh_handle(f, m),
                    meshes_filled(old(self).scene.resources, self.scene.resources, done, base),
                decreases meshes - j,
            {
                let source = &model_file.meshes[j];
                let ghost middle = self.scene.resources;
                let mesh = Mesh::load(&mut self.context.device, source);
                self.scene.resources.insert_mesh(model_file.name.as_str(), source.name.as_str(), mesh);
                proof {
                    assert forall|f: Seq<char>, m: Seq<char>|
                        middle.mesh_handle(f, m) is Some && !(f == model_file.name@ && m == source.name@) implies {
                        &&& #[trigger] self.scene.resources.mesh_handle(f, m) == middle.mesh_handle(f, m)
                        &&& mesh_behind(self.scene.resources, middle.mesh_handle(f, m)->0) is Some
                        &&& mesh_behind(self.scene.resources, middle.mesh_handle(f, m)->0) == mesh_behind(
                            middle,
                            middle.mesh_handle(f, m)->0,
                        )
                    } by {
                        let kept = middle.mesh_handle(f, m)->0;
                        let at = index_in(middle.meshes.keys(), f)->0;
                        middle.meshes.lemma_keys_distinct();
                        let within = index_in(middle.meshes.values()[at].keys(), m)->0;
                        middle.meshes.values()[at].lemma_keys_distinct();
                        assert(kept.file == at && kept.mesh == within);
                    }
                    lemma_mesh_filled(
                        old(self).scene.resources,
                        middle,
                        self.scene.resources,
                        done,
                        base,
                        model_file.name@,
                        *source,
                    );
                    done = done.push((model_file.name@, *source));
                }
                j += 1;
                assert(done =~= done_before + file_meshes(*model_file, j as int));
                assert(self.context.device@ =~= before_file + meshes_calls(model_file.meshes@, j as int));
            }
            names.push(model_file.name.clone());
            i += 1;
            assert(self.context.device@ =~= old(self).context.device@ + files_calls(model_files@, i as int));
        }
        names
    }

    /// Whether `after` is the engine `before` with the quad for
    /// full-screen passes loaded: the quad is on the device and stands in
    /// the table of meshes under the file "BLIT" and the name "QUAD". No
    /// other mesh changes, no other file gains or loses a mesh, and nothing
    /// else changes.
    pub open spec fn quad_loaded(before: Engine, after: Engine) -> bool {
        let base = before.context.device@.len() as int;
        &&& after.context.device@ == before.context.device@ + mesh_calls(blit_quad_vertices(), blit_quad_indices())
        &&& after.scene.resources.mesh_handle("BLIT"@, "QUAD"@) matches Some(at)
        &&& after.mesh_at(at) matches Some(quad)
        &&& quad.name@ == "Blit Quad"@
        &&& quad.vertex_buffer == base
        &&& quad.index_buffer == base + 1
        &&& quad.index_count == 6
        &&& quad.map_albedo is None
        &&& quad.map_arm is None
        &&& quad.map_normal is None
        &&& forall|f: Seq<char>, m: Seq<char>|
            before.scene.resources.mesh_handle(f, m) is Some && !(f == "BLIT"@ && m == "QUAD"@) ==> {
                let kept = before.scene.resources.mesh_handle(f, m)->0;
                &&& #[trigger] after.scene.resources.mesh_handle(f, m) == Some(kept)
                &&& after.mesh_at(kept) == before.mesh_at(kept)
                &&& before.mesh_at(kept) is Some
            }
        &&& forall|f: Seq<char>|
            f != "BLIT"@ ==> #[trigger] meshes_of(after.scene.resources, f) == meshes_of(before.scene.resources, f)
        &&& after.context.config == before.context.config
        &&& after.frame_textures == before.frame_textures
        &&& after.voxel_light_map == before.voxel_light_map
        &&& after.active_camera == before.active_camera
        &&& after.scene_lighting == before.scene_lighting
        &&& after.scene.root == before.scene.root
        &&& after.scene.entity_name_paths == before.scene.entity_name_paths
        &&& after.scene.resources.shaders == before.scene.resources.shaders
        &&& after.scene.resources.textures == before.scene.resources.textures
        &&& after.scene.resources.materials == before.scene.resources.materials
    }

    /// Puts the quad for full-screen passes on the device and into the
    /// table of meshes.
    pub fn load_quad(&mut self)
        requires
            old(self).wf(),
        ensures
            final(self).wf(),
            Self::quad_loaded(*old(self), *final(self)),
    {
        let quad = Mesh::new_blit_quad(&mut self.context.device);
        self.scene.resources.insert_mesh("BLIT", "QUAD", quad);
        proof {
            let before = old(self).scene.resources;
            assert forall|f: Seq<char>, m: Seq<char>|
                before.mesh_handle(f, m) is Some && !(f == "BLIT"@ && m == "QUAD"@) implies {
                let kept = before.mesh_handle(f, m)->0;
                &&& #[trigger] self.scene.resources.mesh_handle(f, m) == Some(kept)
                &&& self.mesh_at(kept) == old(self).mesh_at(kept)
                &&& old(self).mesh_at(kept) is Some
            } by {
                let kept = before.mesh_handle(f, m)->0;
                let i = index_in(before.meshes.keys(), f)->0;
                let j = index_in(before.meshes.values()[i].keys(), m)->0;
                before.meshes.lemma_keys_distinct();
                before.meshes.values()[i].lemma_keys_distinct();
                assert(kept.file == i && kept.mesh == j);
            }
        }
    }

    /// Whether the engines `quad`, `shaders` and `textures` lead from
    /// `before` to `after` by loading, stage after stage, the quad for
    /// full-screen passes, the shaders, the textures, and every material.
    /// Every requested texture has an image that fits, and every material
    /// can be built: its shader is loaded and its bindings match.
    pub open spec fn resources_loaded(
        before: Engine,
        quad: Engine,
        shaders: Engine,
        textures: Engine,
        after: Engine,
        model_files: Seq<String>,
        noise: Seq<u8>,
        images: Seq<DecodedImage>,
        samples: Seq<u32>,
    ) -> bool {
        let base = textures.context.device@.len() as int;
        &&& Self::quad_loaded(before, quad)
        &&& Self::shaders_loaded(quad, shaders)
        &&& requests_failure(
            shaders.requested(model_files),
            images,
            shaders.requested(model_files).len() as int,
        ) is None
        &&& Self::textures_loaded(shaders, textures, model_files, noise, images)
        &&& named_camera(textures.scene.root, "Voxel Camera"@) matches Some(camera)
        &&& buildable(
            textures.scene.resources,
            textures.definitions(model_files, textures.voxel_resources(base, camera.camera_buffer), base as usize),
            textures.definitions(
                model_files,
                textures.voxel_resources(base, camera.camera_buffer),
                base as usize,
            ).len() as int,
        ) == textures.definitions(
            model_files,
            textures.voxel_resources(base, camera.camera_buffer),
            base as usize,
        ).len()
        &&& Self::materials_loaded(
            textures,
            after,
            samples,
            textures.definitions(model_files, textures.voxel_resources(base, camera.camera_buffer), base as usize),
            textures.definitions(
                model_files,
                textures.voxel_resources(base, camera.camera_buffer),
                base as usize,
            ).len() as int,
        )
    }

    /// The materials that the engine builds for these model files, as it
    /// stands when its textures are loaded.
    pub open spec fn planned_definitions(&self, model_files: Seq<String>) -> Seq<MaterialDefinitionView> {
        let base = self.context.device@.len() as int;
        let camera = named_camera(self.scene.root, "Voxel Camera"@)->0;
        self.definitions(model_files, self.voxel_resources(base, camera.camera_buffer), base as usize)
    }

    /// Once the resources are loaded, the tables of materials and shaders
    /// agree: the material that stands under the name of a material of the
    /// engine, the last of that name at `k` among the planned ones, bears
    /// the name, and its shader handle is in range and is the handle under
    /// which the shader that it was built against stands.
    pub proof fn lemma_loaded_tables_agree(
        before: Engine,
        quad: Engine,
        shaders: Engine,
        textures: Engine,
        after: Engine,
        model_files: Seq<String>,
        noise: Seq<u8>,
        images: Seq<DecodedImage>,
        samples: Seq<u32>,
        name: Seq<char>,
        k: int,
    )
        requires
            after.wf(),
            Self::resources_loaded(before, quad, shaders, textures, after, model_files, noise, images, samples),
            latest(
                definitions_names(
                    textures.planned_definitions(model_files),
                    textures.planned_definitions(model_files).len() as int,
                ),
                name,
            ) == Some(k),
        ensures
            0 <= k < textures.planned_definitions(model_files).len(),
            textures.planned_definitions(model_files)[k].name == name,
            index_in(after.scene.resources.materials.keys(), name) matches Some(i) && {
                let material = after.scene.resources.materials.values()[i];
                &&& material.name@ == name
                &&& material.shader_id < after.scene.resources.shaders.values().len()
                &&& after.scene.resources.shaders.keys()[material.shader_id as int] == textures.planned_definitions(
                    model_files,
                )[k].shader
            },
    {
        let definitions = textures.planned_definitions(model_files);
        Self::lemma_materials_know_their_shaders(
            textures,
            after,
            samples,
            definitions,
            definitions.len() as int,
            name,
            k,
        );
    }

    /// Whether loading the resources of the engine `before` fails with
    /// `error`, and how far it gets. A camera that is missing fails it
    /// before anything is loaded. Images that are missing or do not fit fail
    /// it when the quad and the shaders are loaded. A material that cannot be
    /// built fails it with the textures and the materials before it loaded.
    pub open spec fn resources_fail(
        before: Engine,
        quad: Engine,
        shaders: Engine,
        textures: Engine,
        after: Engine,
        model_files: Seq<String>,
        noise: Seq<u8>,
        images: Seq<DecodedImage>,
        samples: Seq<u32>,
        error: EngineLoadError,
    ) -> bool {
        if named_camera(before.scene.root, "Main Camera"@) is None {
            &&& error matches EngineLoadError::MissingCamera { entity }
            &&& entity@ == "Main Camera"@
            &&& after == before
        } else if named_camera(before.scene.root, "Voxel Camera"@) is None {
            &&& error matches EngineLoadError::MissingCamera { entity }
            &&& entity@ == "Voxel Camera"@
            &&& after == before
        } else {
            &&& Self::quad_loaded(before, quad)
            &&& Self::shaders_loaded(quad, shaders)
            &&& match requests_failure(
                shaders.requested(model_files),
                images,
                shaders.requested(model_files).len() as int,
            ) {
                Some(ImageFailure::Missing(file)) => {
                    &&& error matches EngineLoadError::MissingImage { file: f }
                    &&& f@ == file
                    &&& after == shaders
                },
                Some(ImageFailure::Invalid(file)) => {
                    &&& error matches EngineLoadError::InvalidImage { file: f }
                    &&& f@ == file
                    &&& after == shaders
                },
                None => {
                    let base = textures.context.device@.len() as int;
                    let camera = named_camera(textures.scene.root, "Voxel Camera"@)->0;
                    let definitions = textures.definitions(
                        model_files,
                        textures.voxel_resources(base, camera.camera_buffer),
                        base as usize,
                    );
                    let built = buildable(textures.scene.resources, definitions, definitions.len() as int);
                    &&& Self::textures_loaded(shaders, textures, model_files, noise, images)
                    &&& 0 <= built < definitions.len()
                    &&& Self::materials_loaded(textures, after, samples, definitions, built)
                    &&& definition(
                        textures.scene.resources,
                        definitions[built].shader,
                        definitions[built].bindings,
                    ) matches Err(failure)
                    &&& error matches EngineLoadError::Material(told)
                    &&& told.tells(definitions[built].name, definitions[built].shader, failure)
                },
            }
        }
    }

    /// Loads the resources of the scene: the quad for full-screen passes,
    /// the shaders, the textures, and the materials, in this order. The
    /// meshes of `model_files` must be in the table of meshes; they decide
    /// which textures and which materials are loaded. The scene must hold
    /// the main camera and the voxel camera, each on a child of the root.
    #[verifier::rlimit(50)]
    pub fn load_resources(
        &mut self,
        model_files: &Vec<String>,
        noise: &[u8],
        images: &Vec<DecodedImage>,
        ssao_samples: Vec<u32>,
    ) -> (result: Result<(), EngineLoadError>)
        requires
            old(self).wf(),
        ensures
            final(self).wf(),
            match result {
                Ok(_) => exists|quad: Engine, shaders: Engine, textures: Engine|
                    Self::resources_loaded(
                        *old(self),
                        quad,
                        shaders,
                        textures,
                        *final(self),
                        model_files@,
                        noise@,
                        images@,
                        ssao_samples@,
                    ),
                Err(error) => exists|quad: Engine, shaders: Engine, textures: Engine|
                    Self::resources_fail(
                        *old(self),
                        quad,
                        shaders,
                        textures,
                        *final(self),
                        model_files@,
                        noise@,
                        images@,
                        ssao_samples@,
                        error,
                    ),
            },
    {
        if camera_of(&self.scene.root, "Main Camera").is_none() {
            let error = EngineLoadError::MissingCamera { entity: String::from_str("Main Camera") };
            assert(Self::resources_fail(
                *old(self),
                *self,
                *self,
                *self,
                *self,
                model_files@,
                noise@,
                images@,
                ssao_samples@,
                error,
            ));
            return Err(error);
        }
        if camera_of(&self.scene.root, "Voxel Camera").is_none() {
            let error = EngineLoadError::MissingCamera { entity: String::from_str("Voxel Camera") };
            assert(Self::resources_fail(
                *old(self),
                *self,
                *self,
                *self,
                *self,
                model_files@,
                noise@,
                images@,
                ssao_samples@,
                error,
            ));
            return Err(error);
        }
        self.load_quad();
        let ghost quad = *self;
        match self.load_shaders() {
            Ok(_) => {},
            Err(error) => {
                return Err(error);
            },
        }
        let ghost shaders = *self;
        match self.load_textures(model_files, noise, images) {
            Ok(_) => {},
            Err(error) => {
                assert(Self::resources_fail(
                    *old(self),
                    quad,
                    shaders,
                    *self,
                    *self,
                    model_files@,
                    noise@,
                    images@,
                    ssao_samples@,
                    error,
                ));
                return Err(error);
            },
        }
        let ghost textures = *self;
        match self.load_materials(model_files, ssao_samples) {
            Ok(_) => {
                assert(Self::resources_loaded(
                    *old(self),
                    quad,
                    shaders,
                    textures,
                    *self,
                    model_files@,
                    noise@,
                    images@,
                    ssao_samples@,
                ));
                Ok(())
            },
            Err(error) => {
                assert(Self::resources_fail(
                    *old(self),
                    quad,
                    shaders,
                    textures,
                    *self,
                    model_files@,
                    noise@,
                    images@,
                    ssao_samples@,
                    error,
                ));
                Err(error)
            },
        }
    }

    /// Whether the engines `quad`, `shaders`, `textures` and `resources`
    /// lead from `built`, whose scene is built, to `after` by the second
    /// half of loading: the resources are loaded, and then every model of
    /// the scene is loaded against the tables. Nothing else changes.
    pub open spec fn load_finished(
        built: Engine,
        quad: Engine,
        shaders: Engine,
        textures: Engine,
        resources: Engine,
        after: Engine,
        names: Seq<String>,
        noise: Seq<u8>,
        images: Seq<DecodedImage>,
        samples: Seq<u32>,
    ) -> bool {
        &&& Self::resources_loaded(built, quad, shaders, textures, resources, names, noise, images, samples)
        &&& loaded(resources.scene.root, after.scene.root, resources.scene.resources)
        &&& after.context == resources.context
        &&& after.frame_textures == resources.frame_textures
        &&& after.voxel_light_map == resources.voxel_light_map
        &&& after.active_camera == resources.active_camera
        &&& after.scene_lighting == resources.scene_lighting
        &&& after.scene.entity_name_paths == resources.scene.entity_name_paths
        &&& after.scene.resources == resources.scene.resources
    }

    /// Whether the second half of loading stops with `error`, and how far
    /// it gets from `built`: either the resources fail to load, or they
    /// load and a model of the scene refers to something that is not in the
    /// tables, in which case the scene stays as it was built.
    pub open spec fn load_stopped(
        built: Engine,
        quad: Engine,
        shaders: Engine,
        textures: Engine,
        resources: Engine,
        after: Engine,
        names: Seq<String>,
        noise: Seq<u8>,
        images: Seq<DecodedImage>,
        samples: Seq<u32>,
        error: EngineLoadError,
    ) -> bool {
        match error {
            EngineLoadError::Model(failed) => {
                &&& Self::resources_loaded(built, quad, shaders, textures, resources, names, noise, images, samples)
                &&& entity_failure(resources.scene.root, resources.scene.resources) == Some(failed@)
                &&& after == resources
            },
            _ => Self::resources_fail(built, quad, shaders, textures, after, names, noise, images, samples, error),
        }
    }

    /// Whether the engines `preloaded`, `built`, `quad`, `shaders`,
    /// `textures` and `resources` lead from `before` to `after` by loading
    /// the scene, stage after stage: the meshes are preloaded, the scene is
    /// built, the resources are loaded, and every model of the scene is
    /// loaded against the tables.
    pub open spec fn scene_loaded(
        before: Engine,
        preloaded: Engine,
        built: Engine,
        quad: Engine,
        shaders: Engine,
        textures: Engine,
        resources: Engine,
        after: Engine,
        model_files: Seq<ModelFile>,
        names: Seq<String>,
        parameters: SceneParameters,
        noise: Seq<u8>,
        images: Seq<DecodedImage>,
        samples: Seq<u32>,
    ) -> bool {
        &&& names.len() == model_files.len()
        &&& forall|i: int| 0 <= i < names.len() ==> (#[trigger] names[i])@ == model_files[i].name@
        &&& Self::models_preloaded(before, preloaded, model_files)
        &&& Self::scene_built(preloaded, built, parameters)
        &&& Self::load_finished(built, quad, shaders, textures, resources, after, names, noise, images, samples)
    }

    /// Whether loading the scene of the engine `before` fails with `error`,
    /// and how far it gets: the meshes are preloaded and the scene is built;
    /// then either the resources fail to load, or they load and a model of
    /// the scene refers to something that is not in the tables, in which
    /// case the scene stays as it was built.
    pub open spec fn scene_fails(
        before: Engine,
        preloaded: Engine,
        built: Engine,
        quad: Engine,
        shaders: Engine,
        textures: Engine,
        resources: Engine,
        after: Engine,
        model_files: Seq<ModelFile>,
        names: Seq<String>,
        parameters: SceneParameters,
        noise: Seq<u8>,
        images: Seq<DecodedImage>,
        samples: Seq<u32>,
        error: EngineLoadError,
    ) -> bool {
        &&& names.len() == model_files.len()
        &&& forall|i: int| 0 <= i < names.len() ==> (#[trigger] names[i])@ == model_files[i].name@
        &&& Self::models_preloaded(before, preloaded, model_files)
        &&& Self::scene_built(preloaded, built, parameters)
        &&& Self::load_stopped(built, quad, shaders, textures, resources, after, names, noise, images, samples, error)
    }

    /// The first half of loading, which needs no image: preloads the meshes
    /// of the decoded model files and builds the scene. Returns the names
    /// of the files, in order, and the textures that their meshes need, each
    /// once: the host reads and decodes the images of exactly these files
    /// and hands them to `finish_load`, which looks for the images of the
    /// same requests (`lemma_requests_stay`).
    pub fn begin_load(&mut self, model_files: &Vec<ModelFile>, parameters: SceneParameters) -> (begun: (
        Vec<String>,
        Vec<TextureRequest>,
    ))
        requires
            old(self).wf(),
        ensures
            final(self).wf(),
            begun.0@.len() == model_files@.len(),
            forall|i: int| 0 <= i < begun.0@.len() ==> (#[trigger] begun.0@[i])@ == model_files@[i].name@,
            exists|preloaded: Engine|
                Self::models_preloaded(*old(self), preloaded, model_files@) && Self::scene_built(
                    preloaded,
                    *final(self),
                    parameters,
                ),
            request_views(begun.1@) == final(self).requested(begun.0@),
            request_views(begun.1@).no_duplicates(),
    {
        let names = self.preload_model_files(model_files);
        let ghost preloaded = *self;
        self.build_scene(parameters);
        assert(Self::models_preloaded(*old(self), preloaded, model_files@) && Self::scene_built(
            preloaded,
            *self,
            parameters,
        ));
        let requests = self.texture_requests(&names);
        (names, requests)
    }

    /// The second half of loading, on an engine whose scene is built: loads
    /// the resources, with the images that the host has decoded, and then
    /// every model of the scene against the tables. The first stage that
    /// fails stops the loading and gives its error.
    #[verifier::rlimit(50)]
    pub fn finish_load(
        &mut self,
        model_files: &Vec<String>,
        noise: &[u8],
        images: &Vec<DecodedImage>,
        ssao_samples: Vec<u32>,
    ) -> (result: Result<(), EngineLoadError>)
        requires
            old(self).wf(),
        ensures
            final(self).wf(),
            result is Ok ==> exists|quad: Engine, shaders: Engine, textures: Engine, resources: Engine|
                Self::load_finished(
                    *old(self),
                    quad,
                    shaders,
                    textures,
                    resources,
                    *final(self),
                    model_files@,
                    noise@,
                    images@,
                    ssao_samples@,
                ),
            result matches Err(error) ==> exists|quad: Engine, shaders: Engine, textures: Engine, resources: Engine|
                Self::load_stopped(
                    *old(self),
                    quad,
                    shaders,
                    textures,
                    resources,
                    *final(self),
                    model_files@,
                    noise@,
                    images@,
                    ssao_samples@,
                    error,
                ),
    {
        match self.load_resources(model_files, noise, images, ssao_samples) {
            Ok(_) => {},
            Err(error) => {
                proof {
                    let (quad, shaders, textures) = choose|quad: Engine, shaders: Engine, textures: Engine|
                        Self::resources_fail(
                            *old(self),
                            quad,
                            shaders,
                            textures,
                            *self,
                            model_files@,
                            noise@,
                            images@,
                            ssao_samples@,
                            error,
                        );
                    assert(Self::load_stopped(
                        *old(self),
                        quad,
                        shaders,
                        textures,
                        *self,
                        *self,
                        model_files@,
                        noise@,
                        images@,
                        ssao_samples@,
                        error,
                    ));
                }
                return Err(error);
            },
        }
        let ghost resources = *self;
        let ghost (quad, shaders, textures) = choose|quad: Engine, shaders: Engine, textures: Engine|
            Self::resources_loaded(
                *old(self),
                quad,
                shaders,
                textures,
                resources,
                model_files@,
                noise@,
                images@,
                ssao_samples@,
            );
        match self.scene.root.load_models_on_descendants(&self.scene.resources) {
            Ok(_) => {
                assert(Self::load_finished(
                    *old(self),
                    quad,
                    shaders,
                    textures,
                    resources,
                    *self,
                    model_files@,
                    noise@,
                    images@,
                    ssao_samples@,
                ));
                Ok(())
            },
            Err(error) => {
                let error = EngineLoadError::Model(error);
                assert(Self::load_stopped(
                    *old(self),
                    quad,
                    shaders,
                    textures,
                    resources,
                    *self,
                    model_files@,
                    noise@,
                    images@,
                    ssao_samples@,
                    error,
                ));
                Err(error)
            },
        }
    }

    /// Loads the scene: preloads the meshes of the decoded model files,
    /// builds the scene, loads the resources, and loads every model of the
    /// scene against the tables. The first stage that fails stops the
    /// loading and gives its error.
    #[verifier::rlimit(50)]
    pub fn load(
        &mut self,
        model_files: &Vec<ModelFile>,
        parameters: SceneParameters,
        noise: &[u8],
        images: &Vec<DecodedImage>,
        ssao_samples: Vec<u32>,
    ) -> (result: Result<(), EngineLoadError>)
        requires
            old(self).wf(),
        ensures
            final(self).wf(),
            result is Ok ==> exists|
                preloaded: Engine,
                built: Engine,
                quad: Engine,
                shaders: Engine,
                textures: Engine,
                resources: Engine,
                names: Seq<String>,
            |
                Self::scene_loaded(
                    *old(self),
                    preloaded,
                    built,
                    quad,
                    shaders,
                    textures,
                    resources,
                    *final(self),
                    model_files@,
                    names,
                    parameters,
                    noise@,
                    images@,
                    ssao_samples@,
                ),
            result matches Err(error) ==> exists|
                preloaded: Engine,
                built: Engine,
                quad: Engine,
                shaders: Engine,
                textures: Engine,
                resources: Engine,
                names: Seq<String>,
            |
                Self::scene_fails(
                    *old(self),
                    preloaded,
                    built,
                    quad,
                    shaders,
                    textures,
                    resources,
                    *final(self),
                    model_files@,
                    names,
                    parameters,
                    noise@,
                    images@,
                    ssao_samples@,
                    error,
                ),
    {
        let (names, _) = self.begin_load(model_files, parameters);
        let ghost built = *self;
        let ghost preloaded = choose|preloaded: Engine|
            Self::models_preloaded(*old(self), preloaded, model_files@) && Self::scene_built(
                preloaded,
                built,
                parameters,
            );
        let result = self.finish_load(&names, noise, images, ssao_samples);
        proof {
            match &result {
                Ok(_) => {
                    let (quad, shaders, textures, resources) = choose|
                        quad: Engine,
                        shaders: Engine,
                        textures: Engine,
                        resources: Engine,
                    |
                        Self::load_finished(
                            built,
                            quad,
                            shaders,
                            textures,
                            resources,
                            *self,
                            names@,
                            noise@,
                            images@,
                            ssao_samples@,
                        );
                    assert(Self::scene_loaded(
                        *old(self),
                        preloaded,
                        built,
                        quad,
                        shaders,
                        textures,
                        resources,
                        *self,
                        model_files@,
                        names@,
                        parameters,
                        noise@,
                        images@,
                        ssao_samples@,
                    ));
                },
                Err(error) => {
                    let (quad, shaders, textures, resources) = choose|
                        quad: Engine,
                        shaders: Engine,
                        textures: Engine,
                        resources: Engine,
                    |
                        Self::load_stopped(
                            built,
                            quad,
                            shaders,
                            textures,
                            resources,
                            *self,
                            names@,
                            noise@,
                            images@,
                            ssao_samples@,
                            *error,
                        );
                    assert(Self::scene_fails(
                        *old(self),
                        preloaded,
                        built,
                        quad,
                        shaders,
                        textures,
                        resources,
                        *self,
                        model_files@,
                        names@,
                        parameters,
                        noise@,
                        images@,
                        ssao_samples@,
                        *error,
                    ));
                },
            }
        }
        result
    }
}

} // verus!
