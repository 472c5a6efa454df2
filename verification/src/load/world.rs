//! The scene that the engine shows: two cameras, a lamp, an array of cubes,
//! and the meshes of one model file.

use crate::camera::{CAMERA_UNIFORM_SIZE, Camera, OrthographicProjection, PerspectiveProjection, Projection};
use crate::component::Component;
use crate::engine::Engine;
use crate::entity::Entity;
use crate::gpu::{BufferDescriptor, BufferUsages, Device, DeviceCallView, uniform_group_calls};
use crate::instance::Instance;
use crate::load::meshes_of;
use crate::mesh::Mesh;
use crate::model::{Model, scene_deferred_material, voxel_lightmap_material};
use crate::scene::LoadedResources;
use crate::transform::Transform;
use vstd::prelude::*;
use vstd::slice::slice_to_vec;

verus! {

/// What the host decides of the scene: the numbers that take arithmetic
/// to come by, and the handle of the behavior that moves the lamp. The
/// cubes stand in ten rows of ten, so there are a hundred placements of
/// them, neither more nor fewer.
#[derive(Debug)]
pub struct SceneParameters {
    pub main_projection: PerspectiveProjection,
    pub voxel_projection: OrthographicProjection,
    pub voxel_camera_transform: Transform,
    pub lamp_instance: Instance,
    pub lamp_behavior: usize,
    pub cube_instances: [Instance; 100],
}

/// Whether `entity` is an entity with one camera, set up by calls from
/// handle `base` on.
pub open spec fn is_camera_entity(
    entity: Entity,
    name: Seq<char>,
    transform: Transform,
    projection: Projection,
    base: int,
) -> bool {
    &&& entity.name@ == name
    &&& entity.enabled
    &&& entity.transform == transform
    &&& entity.children@.len() == 0
    &&& entity.components@ == seq![
        Component::Camera(
            Camera {
                projection,
                camera_buffer: base as usize,
                camera_bind_group_layout: (base + 1) as usize,
                camera_bind_group: (base + 2) as usize,
            },
        ),
    ]
}

/// Whether `model` is a fresh model of the mesh `mesh` of the file `file`
/// with the given instances, whose buffer was built by the call with the
/// handle `buffer`.
pub open spec fn is_placed_model(
    model: Model,
    file: Seq<char>,
    mesh: Seq<char>,
    instances: Seq<Instance>,
    buffer: int,
) -> bool {
    &&& model.mesh_name.0@ == file
    &&& model.mesh_name.1@ == mesh
    &&& model.mesh is None
    &&& model.voxel_lightmap_material is None
    &&& model.scene_deferred_material is None
    &&& model.instances.instance_list@ == instances
    &&& model.instances.instances_buffer == Some(buffer as usize)
}

/// Whether `entity` is an enabled entity called `name` with the default
/// transform, without children, whose components begin with such a model.
pub open spec fn is_model_entity(
    entity: Entity,
    name: Seq<char>,
    file: Seq<char>,
    mesh: Seq<char>,
    instances: Seq<Instance>,
    buffer: int,
) -> bool {
    &&& entity.name@ == name
    &&& entity.enabled
    &&& entity.transform == Transform::spec_default()
    &&& entity.children@.len() == 0
    &&& entity.components@.len() >= 1
    &&& entity.components@[0] matches Component::Model(model)
    &&& is_placed_model(model, file, mesh, instances, buffer)
}

/// Whether `entity` is the entity "Sponza": one child for each of
/// `meshes`, in order, called like the mesh and carrying a model of it with
/// one instance at the origin. The instance buffers are built by
/// consecutive calls, the first with the handle `base`.
pub open spec fn is_sponza(entity: Entity, meshes: Seq<Mesh>, base: int) -> bool {
    &&& entity.name@ == "Sponza"@
    &&& entity.enabled
    &&& entity.transform == Transform::spec_default()
    &&& entity.components@.len() == 0
    &&& entity.children@.len() == meshes.len()
    &&& forall|i: int|
        0 <= i < meshes.len() ==> {
            &&& is_model_entity(
                #[trigger] entity.children@[i],
                meshes[i].name@,
                "sponza_pbr.obj"@,
                meshes[i].name@,
                seq![Instance::spec_new()],
                base + i,
            )
            &&& entity.children@[i].components@.len() == 1
        }
}

/// The calls that set up a camera: its buffer, and the layout and the bind
/// group that expose it.
pub open spec fn camera_calls(base: int) -> Seq<DeviceCallView> {
    seq![
        DeviceCallView::CreateBuffer(
            BufferDescriptor { size: CAMERA_UNIFORM_SIZE, usage: BufferUsages::spec_uniform() },
        ),
    ] + uniform_group_calls(base as usize, (base + 1) as usize)
}

/// The calls that build the instance buffers of `count` models with one
/// instance at the origin.
pub open spec fn fresh_instance_calls(count: int) -> Seq<DeviceCallView> {
    Seq::new(count as nat, |i: int| DeviceCallView::CreateInstanceBuffer { instances: seq![Instance::spec_new()] })
}

/// A model of a mesh with the given instances and a buffer built for them.
fn placed_model(device: &mut Device, file: &str, mesh: &str, instances: Vec<Instance>) -> (model: Model)
    ensures
        is_placed_model(model, file@, mesh@, instances@, old(device)@.len() as int),
        final(device)@ == old(device)@.push(DeviceCallView::CreateInstanceBuffer { instances: instances@ }),
{
    let mut model = Model::new((file, mesh));
    model.instances.instance_list = instances;
    model.instances.update_buffer(device);
    model
}

/// An entity with one camera.
fn camera_entity(device: &mut Device, name: &str, transform: Transform, projection: Projection) -> (entity: Entity)
    ensures
        is_camera_entity(entity, name@, transform, projection, old(device)@.len() as int),
        final(device)@ == old(device)@ + camera_calls(old(device)@.len() as int),
{
    let mut entity = Entity::new(name);
    entity.transform = transform;
    entity.add_component(Component::Camera(Camera::new(device, projection)));
    assert(entity.components@ =~= seq![entity.components@[0]]);
    assert(device@ =~= old(device)@ + camera_calls(old(device)@.len() as int));
    entity
}

/// An entity with one model.
fn model_entity(device: &mut Device, name: &str, file: &str, mesh: &str, instances: Vec<Instance>) -> (entity: Entity)
    ensures
        is_model_entity(entity, name@, file@, mesh@, instances@, old(device)@.len() as int),
        entity.components@.len() == 1,
        final(device)@ == old(device)@.push(DeviceCallView::CreateInstanceBuffer { instances: instances@ }),
{
    let mut entity = Entity::new(name);
    entity.add_component(Component::Model(placed_model(device, file, mesh, instances)));
    entity
}

/// One instance at the origin.
fn at_origin() -> (instances: Vec<Instance>)
    ensures
        instances@ == seq![Instance::spec_new()],
{
    let mut instances = Vec::new();
    instances.push(Instance::new());
    instances
}

/// The entity "Sponza" for the meshes of its model file.
fn sponza_entity(device: &mut Device, resources: &LoadedResources) -> (entity: Entity)
    requires
        resources.wf(),
    ensures
        is_sponza(entity, meshes_of(*resources, "sponza_pbr.obj"@), old(device)@.len() as int),
        final(device)@ == old(device)@ + fresh_instance_calls(meshes_of(*resources, "sponza_pbr.obj"@).len() as int),
{
    let mut sponza = Entity::new("Sponza");
    let ghost meshes = meshes_of(*resources, "sponza_pbr.obj"@);
    let ghost base = device@.len() as int;
    match resources.meshes.get("sponza_pbr.obj") {
        Some(table) => {
            let n = table.len();
            let mut i: usize = 0;
            assert(device@ =~= old(device)@ + fresh_instance_calls(0));
            while i < n
                invariant
                    table.wf(),
                    meshes == table.values(),
                    n == meshes.len(),
                    i <= n,
                    base == old(device)@.len(),
                    sponza.name@ == "Sponza"@,
                    sponza.enabled,
                    sponza.transform == Transform::spec_default(),
                    sponza.components@.len() == 0,
                    sponza.children@.len() == i,
                    device@ == old(device)@ + fresh_instance_calls(i as int),
                    forall|k: int|
                        0 <= k < i ==> {
                            &&& is_model_entity(
                                #[trigger] sponza.children@[k],
                                meshes[k].name@,
                                "sponza_pbr.obj"@,
                                meshes[k].name@,
                                seq![Instance::spec_new()],
                                base + k,
                            )
                            &&& sponza.children@[k].components@.len() == 1
                        },
                decreases n - i,
            {
                if let Some((_, mesh)) = table.get_index(i) {
                    let child = model_entity(
                        device,
                        mesh.name.as_str(),
                        "sponza_pbr.obj",
                        mesh.name.as_str(),
                        at_origin(),
                    );
                    sponza.children.push(child);
                }
                i += 1;
                assert(device@ =~= old(device)@ + fresh_instance_calls(i as int));
            }
        },
        None => {
            assert(device@ =~= old(device)@ + fresh_instance_calls(0));
        },
    }
    sponza
}

impl Engine {
    /// Whether `after` is the engine `before` with the scene built: five
    /// children are appended to the root. "Main Camera" carries the camera
    /// with the perspective projection; "Voxel Camera" stands where the
    /// parameters say and carries the camera with the orthographic
    /// projection; "Lamp Model" carries a model of the bevelled cube with
    /// the lamp's instance, and the behavior that moves it; "Cubes" carries a
    /// model of the bevelled cube with the hundred instances of the cubes;
    /// "Sponza" has one child for every mesh of its model file. Nothing
    /// else changes.
    pub open spec fn scene_built(before: Engine, after: Engine, parameters: SceneParameters) -> bool {
        let base = before.context.device@.len() as int;
        let n = before.scene.root.children@.len() as int;
        let children = after.scene.root.children@;
        let sponza = meshes_of(before.scene.resources, "sponza_pbr.obj"@);
        &&& children.len() == n + 5
        &&& forall|i: int| 0 <= i < n ==> #[trigger] children[i] == before.scene.root.children@[i]
        &&& is_camera_entity(
            children[n],
            "Main Camera"@,
            Transform::spec_default(),
            Projection::Perspective(parameters.main_projection),
            base,
        )
        &&& is_camera_entity(
            children[n + 1],
            "Voxel Camera"@,
            parameters.voxel_camera_transform,
            Projection::Orthographic(parameters.voxel_projection),
            base + 3,
        )
        &&& is_model_entity(
            children[n + 2],
            "Lamp Model"@,
            "cube.obj"@,
            "BeveledCube"@,
            seq![parameters.lamp_instance],
            base + 6,
        )
        &&& children[n + 2].components@.len() == 2
        &&& children[n + 2].components@[1] == Component::Behavior(parameters.lamp_behavior)
        &&& is_model_entity(
            children[n + 3],
            "Cubes"@,
            "cube.obj"@,
            "BeveledCube"@,
            parameters.cube_instances@,
            base + 7,
        )
        &&& children[n + 3].components@.len() == 1
        &&& parameters.cube_instances@.len() == 100
        &&& is_sponza(children[n + 4], sponza, base + 8)
        &&& after.context.device@ == before.context.device@ + camera_calls(base) + camera_calls(base + 3) + seq![
            DeviceCallView::CreateInstanceBuffer { instances: seq![parameters.lamp_instance] },
            DeviceCallView::CreateInstanceBuffer { instances: parameters.cube_instances@ },
        ] + fresh_instance_calls(sponza.len() as int)
        &&& after.scene.root.name == before.scene.root.name
        &&& after.scene.root.enabled == before.scene.root.enabled
        &&& after.scene.root.transform == before.scene.root.transform
        &&& after.scene.root.components == before.scene.root.components
        &&& after.context.config == before.context.config
        &&& after.frame_textures == before.frame_textures
        &&& after.voxel_light_map == before.voxel_light_map
        &&& after.active_camera == before.active_camera
        &&& after.scene_lighting == before.scene_lighting
        &&& after.scene.entity_name_paths == before.scene.entity_name_paths
        &&& after.scene.resources == before.scene.resources
    }

    /// Builds the scene below the root: the main camera, the voxel camera,
    /// the lamp, the array of cubes, and the meshes of the model file
    /// "sponza_pbr.obj", each as a child of the entity "Sponza".
    pub fn build_scene(&mut self, parameters: SceneParameters)
        requires
            old(self).wf(),
        ensures
            final(self).wf(),
            Self::scene_built(*old(self), *final(self), parameters),
    {
        let ghost base = self.context.device@.len() as int;
        let main_camera = camera_entity(
            &mut self.context.device,
            "Main Camera",
            Transform::default(),
            Projection::Perspective(parameters.main_projection),
        );
        self.scene.root.children.push(main_camera);

        let voxel_camera = camera_entity(
            &mut self.context.device,
            "Voxel Camera",
            parameters.voxel_camera_transform,
            Projection::Orthographic(parameters.voxel_projection),
        );
        self.scene.root.children.push(voxel_camera);

        let mut lamp_instances = Vec::new();
        lamp_instances.push(parameters.lamp_instance);
        let mut lamp = model_entity(&mut self.context.device, "Lamp Model", "cube.obj", "BeveledCube", lamp_instances);
        lamp.add_component(Component::Behavior(parameters.lamp_behavior));
        self.scene.root.children.push(lamp);

        let cubes = model_entity(
            &mut self.context.device,
            "Cubes",
            "cube.obj",
            "BeveledCube",
            slice_to_vec(parameters.cube_instances.as_slice()),
        );
        self.scene.root.children.push(cubes);
        let ghost so_far = self.context.device@;

        let sponza = sponza_entity(&mut self.context.device, &self.scene.resources);
        self.scene.root.children.push(sponza);
        proof {
            let sponza_meshes = meshes_of(old(self).scene.resources, "sponza_pbr.obj"@);
            assert(so_far =~= old(self).context.device@ + camera_calls(base) + camera_calls(base + 3) + seq![
                DeviceCallView::CreateInstanceBuffer { instances: seq![parameters.lamp_instance] },
                DeviceCallView::CreateInstanceBuffer { instances: parameters.cube_instances@ },
            ]);
            assert(self.context.device@ =~= old(self).context.device@ + camera_calls(base) + camera_calls(base + 3)
                + seq![
                DeviceCallView::CreateInstanceBuffer { instances: seq![parameters.lamp_instance] },
                DeviceCallView::CreateInstanceBuffer { instances: parameters.cube_instances@ },
            ] + fresh_instance_calls(sponza_meshes.len() as int));
        }
    }
}

} // verus!
