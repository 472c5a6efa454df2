use seurat::camera::{Camera, OrthographicProjection, Projection};
use seurat::component::Component;
use seurat::entity::{BehaviorStep, Entity, EntityIter};
use seurat::gpu::Device;
use seurat::light::{Lamp, Light, Sun};
use seurat::model::Model;
use seurat::transform::Transform;

fn tree() -> Entity {
    let mut root = Entity::new("Root");
    root.new_child("A");
    let b = root.new_child("B");
    b.new_child("C");
    root
}

fn names(entities: &[&Entity]) -> Vec<String> {
    entities.iter().map(|entity| entity.name.clone()).collect()
}

#[test]
fn new_entity_is_enabled_and_empty() {
    let entity = Entity::new("Thing");
    assert_eq!(entity.name, "Thing");
    assert!(entity.enabled);
    assert_eq!(entity.transform, Transform::default());
    assert!(entity.components.is_empty());
    assert!(entity.children.is_empty());
}

#[test]
fn traversal_visits_every_entity_once_and_parents_first() {
    let root = tree();
    let mut visited = Vec::new();
    let mut walk = root.iter();
    while let Some(entity) = walk.next() {
        visited.push(entity.name.clone());
    }
    assert_eq!(visited.len(), 4);
    for name in ["Root", "A", "B", "C"] {
        assert_eq!(visited.iter().filter(|visited| visited.as_str() == name).count(), 1);
    }
    let position = |name: &str| visited.iter().position(|visited| visited == name).unwrap();
    assert_eq!(position("Root"), 0);
    assert!(position("B") < position("C"));
    assert_eq!(walk.next().map(|entity| entity.name.clone()), None);
}

#[test]
fn traversal_opens_children_in_order_so_the_last_comes_next() {
    let root = tree();
    assert_eq!(names(&root.descendants()), vec!["Root", "B", "C", "A"]);
}

#[test]
fn traversal_of_a_leaf_yields_the_leaf() {
    let leaf = Entity::new("Leaf");
    assert_eq!(names(&leaf.descendants()), vec!["Leaf"]);
}

#[test]
fn default_iterator_is_finished() {
    let mut walk = EntityIter::default();
    assert!(walk.next().is_none());
}

#[test]
fn new_child_hands_out_the_child() {
    let mut root = Entity::new("Root");
    let child = root.new_child("First");
    child.enabled = false;
    root.new_child("Second");
    assert_eq!(root.children.len(), 2);
    assert_eq!(root.children[0].name, "First");
    assert!(!root.children[0].enabled);
    assert_eq!(root.children[1].name, "Second");
    assert!(root.children[1].enabled);
}

#[test]
fn find_descendant_searches_the_children_only() {
    let mut root = tree();
    assert_eq!(root.find_descendant("B").map(|entity| entity.children.len()), Some(1));
    assert!(root.find_descendant("C").is_none());
    assert!(root.find_descendant("Root").is_none());
    root.find_descendant_mut("A").unwrap().enabled = false;
    assert!(!root.children[0].enabled);
    assert!(root.children[1].enabled);
    assert!(root.find_descendant_mut("Z").is_none());
}

#[test]
fn find_descendant_takes_the_first_of_a_name() {
    let mut root = Entity::new("Root");
    root.new_child("Twin").enabled = false;
    root.new_child("Twin");
    assert!(!root.find_descendant("Twin").unwrap().enabled);
}

#[test]
fn at_path_follows_child_indices() {
    let mut root = tree();
    assert_eq!(root.at_path(&[]).unwrap().name, "Root");
    assert_eq!(root.at_path(&[1]).unwrap().name, "B");
    assert_eq!(root.at_path(&[1, 0]).unwrap().name, "C");
    assert!(root.at_path(&[2]).is_none());
    assert!(root.at_path(&[0, 0]).is_none());
    root.at_path_mut(&[1, 0]).unwrap().enabled = false;
    assert!(!root.children[1].children[0].enabled);
    assert!(root.at_path_mut(&[1, 1]).is_none());
}

#[test]
fn component_accessors_filter_by_kind_and_keep_order() {
    let mut device = Device::new();
    let mut entity = Entity::new("Mixed");
    entity.add_component(Component::Behavior(7));
    entity.add_component(Component::Model(Model::new(("cube.obj", "First"))));
    entity.add_component(Component::Light(Light::Sun(Sun {})));
    entity.add_component(Component::Camera(Camera::new(
        &mut device,
        Projection::Orthographic(OrthographicProjection::new(1, 1, 0, 0, 0)),
    )));
    entity.add_component(Component::Model(Model::new(("cube.obj", "Second"))));
    entity.add_component(Component::Light(Light::Lamp(Lamp {})));
    entity.add_component(Component::Behavior(3));

    let models = entity.get_models();
    assert_eq!(models.len(), 2);
    assert_eq!(models[0].mesh_name.1, "First");
    assert_eq!(models[1].mesh_name.1, "Second");
    let lights = entity.get_lights();
    assert_eq!(lights.len(), 2);
    assert!(matches!(lights[0], Light::Sun(_)));
    assert!(matches!(lights[1], Light::Lamp(_)));
    let cameras = entity.get_cameras();
    assert_eq!(cameras.len(), 1);
    assert_eq!(cameras[0].camera_buffer, 0);
    assert_eq!(entity.get_behaviors(), vec![7, 3]);
    assert_eq!(entity.first_camera_mut().unwrap().camera_bind_group, 2);
    assert!(Entity::new("Bare").first_camera_mut().is_none());
}

#[test]
fn behaviors_are_scheduled_entity_first_then_children_in_order() {
    let mut root = Entity::new("Root");
    root.add_component(Component::Behavior(1));
    root.add_component(Component::Light(Light::Lamp(Lamp {})));
    root.add_component(Component::Behavior(2));
    root.new_child("A").add_component(Component::Behavior(3));
    let b = root.new_child("B");
    b.new_child("C").add_component(Component::Behavior(4));
    assert_eq!(
        root.update_behaviors_of_descendants(),
        vec![
            BehaviorStep::Update(1),
            BehaviorStep::Update(2),
            BehaviorStep::Descend(0),
            BehaviorStep::Update(3),
            BehaviorStep::Ascend,
            BehaviorStep::Descend(1),
            BehaviorStep::Descend(0),
            BehaviorStep::Update(4),
            BehaviorStep::Ascend,
            BehaviorStep::Ascend,
        ]
    );
}
