//! A drawable: a mesh, the materials it is drawn with, and its instances.

use crate::instance::{Instance, Instances};
use crate::mesh::Mesh;
use crate::resource_table::index_in;
use crate::scene::LoadedResources;
use vstd::prelude::*;
use vstd::string::StringExecFns;

verus! {

/// The stable handle of a mesh: the handle of its model file among the
/// loaded files, and the handle of the mesh among the meshes of that file.
#[derive(Clone, Copy, Debug, PartialEq, Eq, Structural)]
pub struct MeshHandle {
    pub file: usize,
    pub mesh: usize,
}

/// A model component. It names its mesh by model file and mesh name; the
/// handles stay `None` until the model is loaded against the resource tables.
#[derive(Debug)]
pub struct Model {
    pub mesh_name: (String, String),
    pub mesh: Option<MeshHandle>,
    pub voxel_lightmap_material: Option<usize>,
    pub scene_deferred_material: Option<usize>,
    pub instances: Instances,
}

/// Why a model could not be loaded: a resource that it refers to by name is
/// not in the tables. The error names the missing resource and the mesh of
/// the model that asked for it.
#[derive(Clone, Debug, PartialEq, Eq)]
pub enum LoadError {
    UnknownMesh { file: String, mesh: String },
    UnknownMaterial { material: String, file: String, mesh: String },
}

/// Why the names of a model could not be resolved.
pub enum LoadFailure {
    UnknownMesh { file: Seq<char>, mesh: Seq<char> },
    UnknownMaterial { material: Seq<char>, file: Seq<char>, mesh: Seq<char> },
}

impl View for LoadError {
    type V = LoadFailure;

    open spec fn view(&self) -> LoadFailure {
        match self {
            LoadError::UnknownMesh { file, mesh } => LoadFailure::UnknownMesh { file: file@, mesh: mesh@ },
            LoadError::UnknownMaterial { material, file, mesh } => LoadFailure::UnknownMaterial {
                material: material@,
                file: file@,
                mesh: mesh@,
            },
        }
    }
}

/// The name of the material with which the mesh `mesh` is drawn into the voxel light map.
pub open spec fn voxel_lightmap_material_name(mesh: Seq<char>) -> Seq<char> {
    "calc_voxel_lightmap_"@ + mesh + ".material"@
}

/// The name of the material with which the mesh `mesh` is drawn in the deferred scene pass.
pub open spec fn scene_deferred_material_name(mesh: Seq<char>) -> Seq<char> {
    "scene_deferred_"@ + mesh + ".material"@
}

/// The handles that a model of the mesh `mesh` from the file `file` resolves
/// to: the mesh, the material for the voxel light map, and the material for
/// the deferred pass; or the first of them that is missing, in that order.
pub open spec fn resolution(file: Seq<char>, mesh: Seq<char>, resources: LoadedResources) -> Result<
    (MeshHandle, usize, usize),
    LoadFailure,
> {
    match resources.mesh_handle(file, mesh) {
        None => Err(LoadFailure::UnknownMesh { file, mesh }),
        Some(handle) => match index_in(resources.materials.keys(), voxel_lightmap_material_name(mesh)) {
            None => Err(LoadFailure::UnknownMaterial { material: voxel_lightmap_material_name(mesh), file, mesh }),
            Some(voxel) => match index_in(resources.materials.keys(), scene_deferred_material_name(mesh)) {
                None => Err(
                    LoadFailure::UnknownMaterial { material: scene_deferred_material_name(mesh), file, mesh },
                ),
                Some(deferred) => Ok((handle, voxel as usize, deferred as usize)),
            },
        },
    }
}

/// The name of the material with which the mesh `mesh` is drawn into the voxel light map.
pub fn voxel_lightmap_material(mesh: &str) -> (name: String)
    ensures
        name@ == voxel_lightmap_material_name(mesh@),
{
    String::from_str("calc_voxel_lightmap_").concat(mesh).concat(".material")
}

/// The name of the material with which the mesh `mesh` is drawn in the deferred scene pass.
pub fn scene_deferred_material(mesh: &str) -> (name: String)
    ensures
        name@ == scene_deferred_material_name(mesh@),
{
    String::from_str("scene_deferred_").concat(mesh).concat(".material")
}

/// The handle that a model got when it was loaded stays valid for as long
/// as the tables live. However many meshes are stored under other names
/// after the model `before` was loaded as `model`, in every later state of
/// the tables the name of the model's mesh still has the handle that the
/// model holds, the handle is in range, and the same mesh stands behind it.
pub proof fn lemma_loaded_model_keeps_its_mesh(
    before: Model,
    model: Model,
    states: Seq<LoadedResources>,
    inserts: Seq<(Seq<char>, Seq<char>, Mesh)>,
    upto: int,
)
    requires
        LoadedResources::meshes_stored(states, inserts),
        states[0].wf(),
        before.loaded_as(model, states[0]),
        0 <= upto <= inserts.len(),
        forall|k: int|
            0 <= k < upto ==> !((#[trigger] inserts[k]).0 == model.mesh_name.0@ && inserts[k].1 == model.mesh_name.1@),
    ensures
        model.mesh matches Some(handle) && {
            &&& states[upto].mesh_handle(model.mesh_name.0@, model.mesh_name.1@) == Some(handle)
            &&& handle.file < states[upto].meshes.values().len()
            &&& handle.mesh < states[upto].meshes.values()[handle.file as int].values().len()
            &&& states[upto].mesh_at(handle) == states[0].mesh_at(handle)
        },
{
    let file = model.mesh_name.0@;
    let name = model.mesh_name.1@;
    LoadedResources::lemma_mesh_handles_stable(states, inserts, file, name, upto);
    let now = states[upto];
    if upto > 0 {
        assert(states[upto - 1].with_mesh(
            states[upto - 1 + 1],
            inserts[upto - 1].0,
            inserts[upto - 1].1,
            inserts[upto - 1].2,
        ));
    }
    assert(now.wf());
    now.meshes.lemma_keys_distinct();
    let f = index_in(now.meshes.keys(), file)->0;
    now.meshes.values()[f].lemma_keys_distinct();
}

impl Model {
    /// Whether `after` is this model with its names resolved against
    /// `resources`: the three handles are set, all else is as before.
    pub open spec fn loaded_as(&self, after: Model, resources: LoadedResources) -> bool {
        &&& after.mesh_name == self.mesh_name
        &&& after.instances == self.instances
        &&& resolution(self.mesh_name.0@, self.mesh_name.1@, resources) matches Ok(handles)
        &&& after.mesh == Some(handles.0)
        &&& after.voxel_lightmap_material == Some(handles.1)
        &&& after.scene_deferred_material == Some(handles.2)
    }

    /// The handles that the names of this model stand for in `resources`.
    pub fn resolve(&self, resources: &LoadedResources) -> (result: Result<(MeshHandle, usize, usize), LoadError>)
        requires
            resources.wf(),
        ensures
            match resolution(self.mesh_name.0@, self.mesh_name.1@, *resources) {
                Ok(handles) => result == Ok::<(MeshHandle, usize, usize), LoadError>(handles),
                Err(failure) => result matches Err(error) && error@ == failure,
            },
    {
        let mesh = match resources.mesh_index_of(self.mesh_name.0.as_str(), self.mesh_name.1.as_str()) {
            Some(mesh) => mesh,
            None => {
                return Err(LoadError::UnknownMesh { file: self.mesh_name.0.clone(), mesh: self.mesh_name.1.clone() });
            },
        };
        let voxel_material_name = voxel_lightmap_material(self.mesh_name.1.as_str());
        let voxel = match resources.materials.index_of(voxel_material_name.as_str()) {
            Some(voxel) => voxel,
            None => {
                return Err(
                    LoadError::UnknownMaterial {
                        material: voxel_material_name,
                        file: self.mesh_name.0.clone(),
                        mesh: self.mesh_name.1.clone(),
                    },
                );
            },
        };
        let scene_deferred_material_name = scene_deferred_material(self.mesh_name.1.as_str());
        let deferred = match resources.materials.index_of(scene_deferred_material_name.as_str()) {
            Some(deferred) => deferred,
            None => {
                return Err(
                    LoadError::UnknownMaterial {
                        material: scene_deferred_material_name,
                        file: self.mesh_name.0.clone(),
                        mesh: self.mesh_name.1.clone(),
                    },
                );
            },
        };
        Ok((mesh, voxel, deferred))
    }

    /// Resolves the names of the model against the tables: its mesh, and
    /// its two materials, whose names follow from the name of the mesh.
    /// Where one of them is missing the model stays as it is, and the error
    /// names what is missing.
    pub fn load(&mut self, resources: &LoadedResources) -> (result: Result<(), LoadError>)
        requires
            resources.wf(),
        ensures
            match resolution(old(self).mesh_name.0@, old(self).mesh_name.1@, *resources) {
                Ok(handles) => result is Ok && old(self).loaded_as(*final(self), *resources),
                Err(failure) => result matches Err(error) && error@ == failure && *final(self) == *old(self),
            },
    {
        match self.resolve(resources) {
            Ok((mesh, voxel, deferred)) => {
                self.mesh = Some(mesh);
                self.voxel_lightmap_material = Some(voxel);
                self.scene_deferred_material = Some(deferred);
                Ok(())
            },
            Err(error) => Err(error),
        }
    }

    /// A model of the mesh `mesh.1` from the model file `mesh.0`, with one
    /// instance at the origin and nothing resolved yet.
    pub fn new(mesh: (&str, &str)) -> (model: Model)
        ensures
            model.mesh_name.0@ == mesh.0@,
            model.mesh_name.1@ == mesh.1@,
            model.mesh is None,
            model.voxel_lightmap_material is None,
            model.scene_deferred_material is None,
            model.instances.instance_list@ == seq![Instance::spec_new()],
            model.instances.instances_buffer is None,
    {
        Model {
            mesh_name: (String::from_str(mesh.0), String::from_str(mesh.1)),
            mesh: None,
            voxel_lightmap_material: None,
            scene_deferred_material: None,
            instances: Instances::new(),
        }
    }
}

} // verus!
