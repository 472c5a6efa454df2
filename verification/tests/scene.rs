use seurat::gpu::Device;
use seurat::mesh::Mesh;
use seurat::model::{
    scene_deferred_material, voxel_lightmap_material, LoadError, MeshHandle, Model,
};
use seurat::material::Material;
use seurat::scene::{LoadedResources, Scene};
use seurat::component::Component;
use seurat::entity::Entity;

fn material(name: &str) -> Material {
    Material { shader_id: 0, name: String::from(name), bind_group: 0 }
}

fn resources_for(meshes: &[(&str, &str)], materials: &[&str]) -> LoadedResources {
    let mut device = Device::new();
    let mut resources = LoadedResources::new();
    for (file, name) in meshes {
        resources.insert_mesh(file, name, Mesh::new_blit_quad(&mut device));
    }
    for name in materials {
        resources.materials.insert(String::from(*name), material(name));
    }
    resources
}

#[test]
fn new_scene_has_a_cached_root() {
    let scene = Scene::new();
    assert_eq!(scene.root.name, "Scene Root");
    assert_eq!(scene.entity_name_paths.len(), 1);
    assert_eq!(scene.entity_name_paths.get("Scene Root"), Some(&vec![]));
    assert_eq!(scene.find_entity("Scene Root").map(|entity| entity.name.as_str()), Some("Scene Root"));
    assert_eq!(scene.resources.shaders.len(), 0);
    assert_eq!(LoadedResources::default().meshes.len(), 0);
}

#[test]
fn find_entity_uses_the_cache_and_falls_back_to_the_children() {
    let mut scene = Scene::new();
    scene.root.new_child("A");
    scene.root.new_child("B").new_child("C");
    assert_eq!(scene.find_entity("B").map(|entity| entity.children.len()), Some(1));
    // Not cached, and not a child of the root.
    assert!(scene.find_entity("C").is_none());
    scene.entity_name_paths.insert(String::from("C"), vec![1, 0]);
    assert_eq!(scene.find_entity("C").map(|entity| entity.name.as_str()), Some("C"));
    scene.find_entity_mut("C").unwrap().enabled = false;
    assert!(!scene.root.children[1].children[0].enabled);
    // A cached path that leads to an entity of another name is ignored.
    scene.entity_name_paths.insert(String::from("Alias"), vec![0]);
    assert!(scene.find_entity("Alias").is_none());
    assert!(scene.find_entity_mut("Alias").is_none());
    scene.entity_name_paths.insert(String::from("B"), vec![0]);
    assert_eq!(scene.find_entity("B").map(|entity| entity.children.len()), Some(1));
    assert_eq!(scene.find_entity_mut("B").map(|entity| entity.name.clone()), Some(String::from("B")));
    // A path that leaves the tree is ignored.
    scene.entity_name_paths.insert(String::from("A"), vec![5, 5]);
    assert_eq!(scene.find_entity("A").map(|entity| entity.name.as_str()), Some("A"));
    scene.find_entity_mut("A").unwrap().enabled = false;
    assert!(!scene.root.children[0].enabled);
    assert!(scene.find_entity_mut("Nobody").is_none());
}

#[test]
fn the_root_is_found_by_its_name() {
    let mut scene = Scene::new();
    scene.root.new_child("A");
    assert_eq!(scene.find_entity("Scene Root").map(|entity| entity.children.len()), Some(1));
    scene.find_entity_mut("Scene Root").unwrap().enabled = false;
    assert!(!scene.root.enabled);
    // Once the root is renamed, its cached path is out of date.
    scene.root.name = String::from("Other");
    assert!(scene.find_entity("Scene Root").is_none());
}

#[test]
fn material_names_follow_the_mesh_name() {
    assert_eq!(voxel_lightmap_material("Arch"), "calc_voxel_lightmap_Arch.material");
    assert_eq!(scene_deferred_material("Arch"), "scene_deferred_Arch.material");
    assert_eq!(scene_deferred_material(""), "scene_deferred_.material");
}

#[test]
fn model_resolves_its_mesh_and_both_materials() {
    let resources = resources_for(
        &[("a.obj", "One"), ("b.obj", "Two"), ("b.obj", "Three")],
        &["unrelated", "scene_deferred_Three.material", "calc_voxel_lightmap_Three.material"],
    );
    let mut model = Model::new(("b.obj", "Three"));
    assert_eq!(model.mesh_name, (String::from("b.obj"), String::from("Three")));
    assert_eq!((model.mesh, model.voxel_lightmap_material, model.scene_deferred_material), (None, None, None));
    assert_eq!(model.resolve(&resources), Ok((MeshHandle { file: 1, mesh: 1 }, 2, 1)));
    assert_eq!(model.load(&resources), Ok(()));
    assert_eq!(model.mesh, Some(MeshHandle { file: 1, mesh: 1 }));
    assert_eq!(model.voxel_lightmap_material, Some(2));
    assert_eq!(model.scene_deferred_material, Some(1));
    assert_eq!(model.instances.instance_list.len(), 1);
}

#[test]
fn loaded_model_keeps_its_mesh_through_later_inserts() {
    let mut resources = resources_for(
        &[("a.obj", "One"), ("b.obj", "Two")],
        &["scene_deferred_Two.material", "calc_voxel_lightmap_Two.material"],
    );
    let mut model = Model::new(("b.obj", "Two"));
    model.load(&resources).unwrap();
    let handle = model.mesh.unwrap();
    let buffers = {
        let mesh = resources.mesh(handle).unwrap();
        (mesh.vertex_buffer, mesh.index_buffer)
    };
    let mut device = Device::new();
    for _ in 0..3 {
        device.create_uniform_group(0);
    }
    for (file, name) in [("b.obj", "Three"), ("a.obj", "Two"), ("c.obj", "Two"), ("a.obj", "One"), ("b.obj", "Four")] {
        resources.insert_mesh(file, name, Mesh::new_blit_quad(&mut device));
        assert_eq!(resources.mesh_index_of("b.obj", "Two"), Some(handle));
        let mesh = resources.mesh(handle).unwrap();
        assert_eq!((mesh.vertex_buffer, mesh.index_buffer), buffers);
    }
    // The mesh that was stored again keeps its handle and has the new buffers.
    let again = resources.mesh(MeshHandle { file: 0, mesh: 0 }).unwrap();
    assert_ne!((again.vertex_buffer, again.index_buffer), buffers);
    assert_eq!(resources.mesh_index_of("a.obj", "One"), Some(MeshHandle { file: 0, mesh: 0 }));
}

#[test]
fn model_names_what_is_missing() {
    let resources = resources_for(&[("a.obj", "One")], &["calc_voxel_lightmap_One.material"]);
    let mut model = Model::new(("a.obj", "Two"));
    assert_eq!(
        model.load(&resources),
        Err(LoadError::UnknownMesh { file: String::from("a.obj"), mesh: String::from("Two") })
    );
    let mut model = Model::new(("b.obj", "One"));
    assert_eq!(
        model.load(&resources),
        Err(LoadError::UnknownMesh { file: String::from("b.obj"), mesh: String::from("One") })
    );
    let mut model = Model::new(("a.obj", "One"));
    assert_eq!(
        model.load(&resources),
        Err(LoadError::UnknownMaterial {
            material: String::from("scene_deferred_One.material"),
            file: String::from("a.obj"),
            mesh: String::from("One"),
        })
    );
    assert_eq!((model.mesh, model.voxel_lightmap_material), (None, None));
    let resources = resources_for(&[("a.obj", "One")], &["scene_deferred_One.material"]);
    assert_eq!(
        model.load(&resources),
        Err(LoadError::UnknownMaterial {
            material: String::from("calc_voxel_lightmap_One.material"),
            file: String::from("a.obj"),
            mesh: String::from("One"),
        })
    );
}

#[test]
fn loading_models_is_all_or_nothing() {
    let resources = resources_for(
        &[("a.obj", "One")],
        &["scene_deferred_One.material", "calc_voxel_lightmap_One.material"],
    );
    let mut root = Entity::new("Root");
    root.add_component(Component::Model(Model::new(("a.obj", "One"))));
    root.new_child("Good").add_component(Component::Model(Model::new(("a.obj", "One"))));
    let bad = root.new_child("Bad");
    bad.add_component(Component::Behavior(0));
    bad.add_component(Component::Model(Model::new(("a.obj", "Gone"))));
    assert_eq!(
        root.check_models_on_descendants(&resources),
        Some(LoadError::UnknownMesh { file: String::from("a.obj"), mesh: String::from("Gone") })
    );
    assert_eq!(
        root.load_models_on_descendants(&resources),
        Err(LoadError::UnknownMesh { file: String::from("a.obj"), mesh: String::from("Gone") })
    );
    assert_eq!(root.get_models()[0].mesh, None);
    assert_eq!(root.children[0].get_models()[0].mesh, None);

    root.children.pop();
    assert_eq!(root.check_models_on_descendants(&resources), None);
    assert_eq!(root.load_models_on_descendants(&resources), Ok(()));
    assert_eq!(root.get_models()[0].mesh, Some(MeshHandle { file: 0, mesh: 0 }));
    let child = root.children[0].get_models()[0];
    assert_eq!(child.mesh, Some(MeshHandle { file: 0, mesh: 0 }));
    assert_eq!(child.scene_deferred_material, Some(0));
    assert_eq!(child.voxel_lightmap_material, Some(1));
}

#[test]
fn mutable_accessors_reach_every_component_of_their_kind() {
    let mut entity = Entity::new("Mixed");
    entity.add_component(Component::Behavior(1));
    entity.add_component(Component::Model(Model::new(("a.obj", "One"))));
    entity.add_component(Component::Behavior(2));
    entity.add_component(Component::Model(Model::new(("a.obj", "Two"))));
    {
        let models = entity.get_models_mut();
        assert_eq!(models.len(), 2);
        for (place, model) in models.into_iter().enumerate() {
            model.scene_deferred_material = Some(10 + place);
        }
    }
    for behavior in entity.get_behaviors_mut() {
        *behavior += 100;
    }
    assert!(entity.get_lights_mut().is_empty());
    assert!(entity.get_cameras_mut().is_empty());
    let models = entity.get_models();
    assert_eq!(models[0].mesh_name.1, "One");
    assert_eq!(models[0].scene_deferred_material, Some(10));
    assert_eq!(models[1].mesh_name.1, "Two");
    assert_eq!(models[1].scene_deferred_material, Some(11));
    assert_eq!(entity.get_behaviors(), vec![101, 102]);
    assert_eq!(entity.components.len(), 4);
    assert!(matches!(entity.components[0], Component::Behavior(101)));
    assert!(matches!(entity.components[3], Component::Model(_)));
}
