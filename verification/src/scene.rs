//! The scene: the entity tree, a cache of paths to entities by name, and the
//! tables of loaded resources.

use crate::entity::{entity_at, first_named, replaced_at, Entity};
use crate::material::Material;
use crate::mesh::Mesh;
use crate::model::MeshHandle;
use crate::resource_table::{index_in, keys_after_insert, ResourceTable};
use crate::shader::Shader;
use crate::text::str_eq;
use crate::texture::Texture;
use vstd::prelude::*;
use vstd::string::StringExecFns;

verus! {

/// The resources of a scene, each kind in its own table. Meshes are kept by
/// model file first and by mesh name within the file.
pub struct LoadedResources {
    pub shaders: ResourceTable<Shader>,
    pub textures: ResourceTable<Texture>,
    pub materials: ResourceTable<Material>,
    pub meshes: ResourceTable<ResourceTable<Mesh>>,
}

impl LoadedResources {
    /// The tables are well formed, the tables of meshes within included,
    /// and every shader's bindings fit the slots of a bind group.
    pub open spec fn wf(&self) -> bool {
        &&& self.shaders.wf()
        &&& self.textures.wf()
        &&& self.materials.wf()
        &&& self.meshes.wf()
        &&& forall|i: int| 0 <= i < self.meshes.values().len() ==> (#[trigger] self.meshes.values()[i]).wf()
        &&& forall|i: int| 0 <= i < self.shaders.values().len() ==> (#[trigger] self.shaders.values()[i]).wf()
    }

    /// The handle of the mesh `name` of the model file `file`, if both are known.
    pub open spec fn mesh_handle(&self, file: Seq<char>, name: Seq<char>) -> Option<MeshHandle> {
        match index_in(self.meshes.keys(), file) {
            Some(f) => match index_in(self.meshes.values()[f].keys(), name) {
                Some(m) => Some(MeshHandle { file: f as usize, mesh: m as usize }),
                None => None,
            },
            None => None,
        }
    }

    /// The meshes of the model file `file`, in the order of their handles;
    /// none if the file is not known.
    pub open spec fn meshes_in(&self, file: Seq<char>) -> Seq<Mesh> {
        match index_in(self.meshes.keys(), file) {
            Some(f) => self.meshes.values()[f].values(),
            None => Seq::empty(),
        }
    }

    /// The names of the meshes of the model file `file`, in the order of
    /// their handles; none if the file is not known.
    pub open spec fn mesh_names_in(&self, file: Seq<char>) -> Seq<Seq<char>> {
        match index_in(self.meshes.keys(), file) {
            Some(f) => self.meshes.values()[f].keys(),
            None => Seq::empty(),
        }
    }

    /// The mesh behind a handle that is in range.
    pub open spec fn mesh_at(&self, handle: MeshHandle) -> Mesh {
        self.meshes.values()[handle.file as int].values()[handle.mesh as int]
    }

    /// Whether `after` is these tables with `mesh` stored under `name`
    /// among the meshes of the model file `file`: the name has a handle,
    /// and the mesh stands behind it; every name that had a handle keeps
    /// it; every other mesh is as it was; the other tables are as they were.
    /// A file that is new goes last among the files, and a name that is new
    /// goes last among the names of its file; no other file gains or loses
    /// a mesh.
    pub open spec fn with_mesh(&self, after: LoadedResources, file: Seq<char>, name: Seq<char>, mesh: Mesh) -> bool {
        &&& after.wf()
        &&& after.shaders == self.shaders
        &&& after.textures == self.textures
        &&& after.materials == self.materials
        &&& after.meshes.keys() == keys_after_insert(self.meshes.keys(), file)
        &&& after.mesh_names_in(file) == keys_after_insert(self.mesh_names_in(file), name)
        &&& after.meshes_in(file) == match index_in(self.mesh_names_in(file), name) {
            Some(at) => self.meshes_in(file).update(at, mesh),
            None => self.meshes_in(file).push(mesh),
        }
        &&& forall|f: Seq<char>|
            f != file ==> #[trigger] after.meshes_in(f) == self.meshes_in(f) && after.mesh_names_in(f)
                == self.mesh_names_in(f)
        &&& after.mesh_handle(file, name) is Some
        &&& forall|f: Seq<char>, m: Seq<char>|
            self.mesh_handle(f, m) is Some ==> #[trigger] after.mesh_handle(f, m) == self.mesh_handle(f, m)
        &&& ({
            let at = after.mesh_handle(file, name)->0;
            &&& at.file < after.meshes.values().len()
            &&& at.mesh < after.meshes.values()[at.file as int].values().len()
            &&& after.mesh_at(at) == mesh
        })
        &&& forall|f: Seq<char>, m: Seq<char>|
            self.mesh_handle(f, m) is Some && !(f == file && m == name) ==> {
                let at = self.mesh_handle(f, m)->0;
                &&& at.file < after.meshes.values().len()
                &&& at.mesh < after.meshes.values()[at.file as int].values().len()
                &&& #[trigger] after.mesh_handle(f, m) == Some(at)
                &&& after.mesh_at(at) == self.mesh_at(at)
            }
    }

    /// Whether each of `states` follows from the one before it by storing
    /// the mesh of `inserts` at that place: a run of inserts, with the
    /// tables before, between and after them.
    pub open spec fn meshes_stored(states: Seq<LoadedResources>, inserts: Seq<(Seq<char>, Seq<char>, Mesh)>) -> bool {
        &&& states.len() == inserts.len() + 1
        &&& forall|k: int|
            0 <= k < inserts.len() ==> (#[trigger] states[k]).with_mesh(
                states[k + 1],
                inserts[k].0,
                inserts[k].1,
                inserts[k].2,
            )
    }

    /// Handles of meshes are stable. However many meshes are stored under
    /// whatever names, a name that had a handle keeps that handle in every
    /// later state of the tables. While no mesh is stored under the name
    /// itself, the same mesh stays behind the handle.
    pub proof fn lemma_mesh_handles_stable(
        states: Seq<LoadedResources>,
        inserts: Seq<(Seq<char>, Seq<char>, Mesh)>,
        file: Seq<char>,
        name: Seq<char>,
        upto: int,
    )
        requires
            Self::meshes_stored(states, inserts),
            states[0].mesh_handle(file, name) is Some,
            0 <= upto <= inserts.len(),
        ensures
            states[upto].mesh_handle(file, name) == states[0].mesh_handle(file, name),
            (forall|k: int| 0 <= k < upto ==> !((#[trigger] inserts[k]).0 == file && inserts[k].1 == name))
                ==> states[upto].mesh_at(states[0].mesh_handle(file, name)->0) == states[0].mesh_at(
                states[0].mesh_handle(file, name)->0,
            ),
        decreases upto,
    {
        if upto > 0 {
            Self::lemma_mesh_handles_stable(states, inserts, file, name, upto - 1);
            let before = states[upto - 1];
            assert(before.with_mesh(states[upto - 1 + 1], inserts[upto - 1].0, inserts[upto - 1].1, inserts[upto - 1].2));
            assert(states[upto].mesh_handle(file, name) == before.mesh_handle(file, name));
            if forall|k: int| 0 <= k < upto ==> !((#[trigger] inserts[k]).0 == file && inserts[k].1 == name) {
                assert(!(inserts[upto - 1].0 == file && inserts[upto - 1].1 == name));
                assert(states[upto].mesh_handle(file, name) == Some(before.mesh_handle(file, name)->0));
            }
        }
    }

    /// Empty tables: each of the four holds no name and no value, so no
    /// name has a handle yet.
    pub fn new() -> (resources: LoadedResources)
        ensures
            resources.wf(),
            resources.shaders.keys() == Seq::<Seq<char>>::empty(),
            resources.shaders.values() == Seq::<Shader>::empty(),
            resources.textures.keys() == Seq::<Seq<char>>::empty(),
            resources.textures.values() == Seq::<Texture>::empty(),
            resources.materials.keys() == Seq::<Seq<char>>::empty(),
            resources.materials.values() == Seq::<Material>::empty(),
            resources.meshes.keys() == Seq::<Seq<char>>::empty(),
            resources.meshes.values() == Seq::<ResourceTable<Mesh>>::empty(),
            forall|file: Seq<char>, name: Seq<char>| resources.mesh_handle(file, name) is None,
    {
        LoadedResources {
            shaders: ResourceTable::new(),
            textures: ResourceTable::new(),
            materials: ResourceTable::new(),
            meshes: ResourceTable::new(),
        }
    }

    /// Stores a mesh under `name` among the meshes of the model file
    /// `file`. A file that is new gets the next file handle; a name that is
    /// new within its file gets the next mesh handle there; a known name
    /// has its mesh replaced. No other handle changes, and no other mesh.
    pub fn insert_mesh(&mut self, file: &str, name: &str, mesh: Mesh)
        requires
            old(self).wf(),
        ensures
            old(self).with_mesh(*final(self), file@, name@, mesh),
    {
        proof {
            self.meshes.lemma_keys_distinct();
        }
        let ghost before = *self;
        let file_index = match self.meshes.index_of(file) {
            Some(index) => index,
            None => self.meshes.insert_full(String::from_str(file), ResourceTable::new()),
        };
        let ghost with_file = *self;
        assert forall|i: int| 0 <= i < with_file.meshes.values().len() implies (#[trigger] with_file.meshes.values()[i]).wf() by {
            if i < before.meshes.values().len() {
                assert(with_file.meshes.values()[i] == before.meshes.values()[i]);
            }
        }
        assert forall|f: Seq<char>, m: Seq<char>| before.mesh_handle(f, m) is Some implies with_file.mesh_handle(f, m)
            == before.mesh_handle(f, m) by {
            let i = index_in(before.meshes.keys(), f)->0;
            assert(index_in(with_file.meshes.keys(), f) == Some(i));
            assert(with_file.meshes.values()[i] == before.meshes.values()[i]);
        }
        let key = String::from_str(name);
        let ghost name = name@;
        let inner = self.meshes.get_index_mut(file_index);
        let ghost inner_before = *inner;
        let mesh_index = inner.insert_full(key, mesh);
        let ghost inner_after = *inner;
        proof {
            assert(self.meshes.values() == with_file.meshes.values().update(file_index as int, inner_after));
            self.meshes.lemma_keys_distinct();
            assert(self.meshes.keys() == keys_after_insert(before.meshes.keys(), file@));
            assert(index_in(self.meshes.keys(), file@) == Some(file_index as int));
            assert(before.meshes_in(file@) == inner_before.values() && before.mesh_names_in(file@)
                == inner_before.keys());
            assert forall|f: Seq<char>| f != file@ implies #[trigger] self.meshes_in(f) == before.meshes_in(f)
                && self.mesh_names_in(f) == before.mesh_names_in(f) by {
                match index_in(before.meshes.keys(), f) {
                    Some(i) => {
                        assert(index_in(with_file.meshes.keys(), f) == Some(i));
                        assert(before.meshes.keys()[i] == f);
                        assert(self.meshes.keys()[file_index as int] == file@);
                        assert(i != file_index);
                        assert(self.meshes.values()[i] == before.meshes.values()[i]);
                    },
                    None => {
                        if index_in(self.meshes.keys(), f) is Some {
                            let i = index_in(self.meshes.keys(), f)->0;
                            assert(self.meshes.keys()[i] == f);
                            if i < before.meshes.keys().len() {
                                assert(before.meshes.keys()[i] == f);
                            }
                        }
                    },
                }
            }
            assert forall|i: int| 0 <= i < self.meshes.values().len() implies (#[trigger] self.meshes.values()[i]).wf() by {
                if i != file_index {
                    assert(self.meshes.values()[i] == with_file.meshes.values()[i]);
                }
            }
            assert forall|f: Seq<char>, m: Seq<char>| before.mesh_handle(f, m) is Some implies #[trigger] self.mesh_handle(
                f,
                m,
            ) == before.mesh_handle(f, m) by {
                let i = index_in(before.meshes.keys(), f)->0;
                assert(with_file.mesh_handle(f, m) == before.mesh_handle(f, m));
                assert(index_in(with_file.meshes.keys(), f) == Some(i));
                if i == file_index {
                    assert(index_in(inner_before.keys(), m) is Some);
                } else {
                    assert(self.meshes.values()[i] == with_file.meshes.values()[i]);
                }
            }
            assert(self.mesh_handle(file@, name) == Some(MeshHandle { file: file_index, mesh: mesh_index }));
            assert forall|f: Seq<char>, m: Seq<char>|
                before.mesh_handle(f, m) is Some && !(f == file@ && m == name) implies {
                let at = before.mesh_handle(f, m)->0;
                &&& at.file < self.meshes.values().len()
                &&& at.mesh < self.meshes.values()[at.file as int].values().len()
                &&& #[trigger] self.mesh_handle(f, m) == Some(at)
                &&& self.meshes.values()[at.file as int].values()[at.mesh as int]
                    == before.meshes.values()[at.file as int].values()[at.mesh as int]
            } by {
                let at = before.mesh_handle(f, m)->0;
                let i = index_in(before.meshes.keys(), f)->0;
                let j = index_in(before.meshes.values()[i].keys(), m)->0;
                before.meshes.lemma_keys_distinct();
                before.meshes.values()[i].lemma_keys_distinct();
                assert(at.file == i && at.mesh == j);
                assert(with_file.mesh_handle(f, m) == before.mesh_handle(f, m));
                assert(index_in(with_file.meshes.keys(), f) == Some(i));
                assert(with_file.meshes.values()[i] == before.meshes.values()[i]);
                before.meshes.values()[i].lemma_keys_distinct();
                if i == file_index {
                    assert(inner_before.keys()[j] == m);
                    if f == file@ {
                        assert(m != name);
                        match index_in(inner_before.keys(), name) {
                            Some(k) => {
                                assert(inner_before.keys()[k] == name);
                                assert(k != j);
                            },
                            None => {},
                        }
                    } else {
                        before.meshes.lemma_keys_distinct();
                        assert(before.meshes.keys()[i] == f);
                    }
                } else {
                    assert(self.meshes.values()[i] == with_file.meshes.values()[i]);
                }
            }
        }
    }

    /// The handle of the mesh `name` of the model file `file`.
    pub fn mesh_index_of(&self, file: &str, name: &str) -> (handle: Option<MeshHandle>)
        requires
            self.wf(),
        ensures
            handle == self.mesh_handle(file@, name@),
            handle matches Some(h) ==> h.file < self.meshes.values().len() && h.mesh
                < self.meshes.values()[h.file as int].values().len(),
    {
        match self.meshes.index_of(file) {
            Some(f) => match self.meshes.get_index(f) {
                Some((_, meshes)) => match meshes.index_of(name) {
                    Some(m) => Some(MeshHandle { file: f, mesh: m }),
                    None => None,
                },
                None => None,
            },
            None => None,
        }
    }

    /// The mesh behind a handle, if the handle is in range.
    pub fn mesh(&self, handle: MeshHandle) -> (mesh: Option<&Mesh>)
        requires
            self.wf(),
        ensures
            match mesh {
                Some(m) => handle.file < self.meshes.values().len() && handle.mesh
                    < self.meshes.values()[handle.file as int].values().len()
                    && *m == self.meshes.values()[handle.file as int].values()[handle.mesh as int],
                None => handle.file >= self.meshes.values().len() || handle.mesh
                    >= self.meshes.values()[handle.file as int].values().len(),
            },
    {
        match self.meshes.get_index(handle.file) {
            Some((_, meshes)) => match meshes.get_index(handle.mesh) {
                Some((_, mesh)) => Some(mesh),
                None => None,
            },
            None => None,
        }
    }
}

impl Default for LoadedResources {
    fn default() -> (resources: LoadedResources)
        ensures
            resources.wf(),
            resources.shaders.keys().len() == 0,
            resources.textures.keys().len() == 0,
            resources.materials.keys().len() == 0,
            resources.meshes.keys().len() == 0,
    {
        LoadedResources::new()
    }
}

/// A scene. The cache maps names of entities to their paths from the root;
/// a path is believed only while it still leads to an entity of that name.
/// The cache is a table of this library, not a hash map of the standard
/// library: vstd has no model of hashing for keys that are strings, and
/// the table gives what a cache needs, one path for each name.
pub struct Scene {
    pub root: Entity,
    pub entity_name_paths: ResourceTable<Vec<usize>>,
    pub resources: LoadedResources,
}

impl Scene {
    /// The cache and the resource tables are well formed.
    pub open spec fn wf(&self) -> bool {
        self.entity_name_paths.wf() && self.resources.wf()
    }

    /// The path that the cache holds for `name`, if it leads to an entity
    /// that is called `name`. A path that leads nowhere, or to an entity of
    /// another name, is out of date and counts as not cached.
    pub open spec fn cached(&self, name: Seq<char>) -> Option<Seq<usize>> {
        match index_in(self.entity_name_paths.keys(), name) {
            Some(i) => match entity_at(self.root, self.entity_name_paths.values()[i]@) {
                Some(entity) => if entity.name@ == name {
                    Some(self.entity_name_paths.values()[i]@)
                } else {
                    None
                },
                None => None,
            },
            None => None,
        }
    }

    /// The entity that a search for `name` finds: the one at the cached
    /// path, if the cache holds a path for the name that leads to an entity
    /// of that name; otherwise the first child of the root with that name.
    pub open spec fn found(&self, name: Seq<char>) -> Option<Entity> {
        match self.cached(name) {
            Some(path) => entity_at(self.root, path),
            None => if first_named(self.root.children@, name) < self.root.children@.len() {
                Some(self.root.children@[first_named(self.root.children@, name)])
            } else {
                None
            },
        }
    }

    /// The path from the root to the entity that a search for `name` finds.
    pub open spec fn found_path(&self, name: Seq<char>) -> Option<Seq<usize>> {
        match self.cached(name) {
            Some(path) => Some(path),
            None => if first_named(self.root.children@, name) < self.root.children@.len() {
                Some(seq![first_named(self.root.children@, name) as usize])
            } else {
                None
            },
        }
    }

    /// A scene with nothing but its root, which is called "Scene Root" and
    /// cached under that name with the empty path.
    pub fn new() -> (scene: Scene)
        ensures
            scene.wf(),
            scene.root.name@ == "Scene Root"@,
            scene.root.children@.len() == 0,
            scene.root.components@.len() == 0,
            scene.entity_name_paths.keys() == seq!["Scene Root"@],
            scene.entity_name_paths.values().len() == 1,
            scene.entity_name_paths.values()[0]@ == Seq::<usize>::empty(),
            scene.resources.shaders.keys().len() == 0,
            scene.resources.textures.keys().len() == 0,
            scene.resources.materials.keys().len() == 0,
            scene.resources.meshes.keys().len() == 0,
    {
        let mut entity_name_paths = ResourceTable::new();
        entity_name_paths.insert(String::from_str("Scene Root"), Vec::new());
        assert(entity_name_paths.keys() =~= seq!["Scene Root"@]);
        Scene { root: Entity::new("Scene Root"), entity_name_paths, resources: LoadedResources::new() }
    }

    /// The entity called `name`: the one at the cached path, if the cache
    /// holds a path for the name that leads to an entity of that name;
    /// otherwise the first child of the root with that name. Whatever is
    /// found bears the name.
    pub fn find_entity(&self, name: &str) -> (found: Option<&Entity>)
        requires
            self.wf(),
        ensures
            match self.found(name@) {
                Some(entity) => found == Some(&entity),
                None => found is None,
            },
            found matches Some(entity) ==> entity.name@ == name@,
    {
        if let Some(index_path) = self.entity_name_paths.get(name) {
            if let Some(entity) = self.root.at_path(index_path.as_slice()) {
                if str_eq(entity.name.as_str(), name) {
                    return Some(entity);
                }
            }
        }
        proof {
            crate::entity::lemma_first_named(self.root.children@, name@);
        }
        self.root.find_descendant(name)
    }

    /// The entity called `name`, for changing it; found as `find_entity`
    /// finds it. Nothing but the entity handed out can change.
    pub fn find_entity_mut(&mut self, name: &str) -> (found: Option<&mut Entity>)
        requires
            old(self).wf(),
        ensures
            final(self).entity_name_paths == old(self).entity_name_paths,
            final(self).resources == old(self).resources,
            match found {
                Some(entity) => {
                    &&& old(self).found(name@) == Some(*entity)
                    &&& old(self).found_path(name@) matches Some(path)
                    &&& replaced_at(old(self).root, final(self).root, path, *final(entity))
                },
                None => old(self).found(name@) is None && final(self).root == old(self).root,
            },
            found matches Some(entity) ==> entity.name@ == name@,
    {
        if let Some(index_path) = self.entity_name_paths.get(name) {
            if let Some(entity) = self.root.at_path(index_path.as_slice()) {
                if str_eq(entity.name.as_str(), name) {
                    return self.root.at_path_mut(index_path.as_slice());
                }
            }
        }
        let children = self.root.children.len();
        let ghost at = first_named(self.root.children@, name@);
        let ghost root_after = final(self).root;
        proof {
            crate::entity::lemma_first_named(self.root.children@, name@);
        }
        let found = self.root.find_descendant_mut(name);
        proof {
            if found is Some {
                let path = seq![at as usize];
                assert(at < children);
                assert(path[0] == at);
                assert(path.drop_first() =~= Seq::<usize>::empty());
                assert(root_after.children@[at] == *final(found->0));
                assert(replaced_at(old(self).root.children@[at], root_after.children@[at], path.drop_first(), *final(found->0)));
                assert(replaced_at(old(self).root, root_after, path, *final(found->0)));
            }
        }
        found
    }
}

} // verus!
