//! The engine: what it owns, how it reacts to the window, and the plan of
//! each frame.
//!
//! The engine does not talk to a device or a window. It records what it
//! wants created in the device record of its context, and it plans every
//! frame as a list of commands. The host creates what is recorded, feeds
//! window events in, and runs the commands of each frame in order.

pub mod frame;
pub mod report;

use crate::camera::Camera;
use crate::component::Component;
use crate::context::Context;
use crate::debug_buffer::{ElementState, VirtualKeyCode};
use crate::entity::{
    BehaviorStep, Entity, behavior_round, entity_at, first_camera, lemma_replaced_at_leads, models_in, replaced_at,
};
use crate::frame_texture::FrameTextures;
use crate::gpu::{
    BufferUsages, Device, DeviceCall, DeviceCallView, FrameWrite, FrameWriteView, ONE_DOUBLE, SurfaceConfiguration,
    TextureFormat, uniform_group_calls, write_views,
};
use crate::instance::Instance;
use crate::light::{LightUniform, SceneLighting};
use crate::model::Model;
use crate::pass::{Attachment, Color, ComputePass, Pass, PassView, RenderPass, pass_views};
use crate::resource_table::index_in;
use crate::scene::Scene;
use crate::voxel_texture::{VoxelTexture, voxel_texture_calls};
use vstd::prelude::*;
use vstd::string::StringExecFns;

verus! {

/// Why the surface gave no texture to draw the frame into.
#[derive(Clone, Copy, Debug, PartialEq, Eq, Structural)]
pub enum SurfaceError {
    Timeout,
    Outdated,
    Lost,
    OutOfMemory,
}

/// Whether the host's event loop goes on.
#[derive(Clone, Copy, Debug, PartialEq, Eq, Structural)]
pub enum ControlFlow {
    Poll,
    Exit,
}

/// The window events that the engine reacts to.
#[derive(Clone, Copy, Debug, PartialEq, Eq, Structural)]
pub enum WindowEvent {
    CloseRequested,
    KeyboardInput { state: ElementState, virtual_keycode: Option<VirtualKeyCode> },
    Resized { width: u32, height: u32 },
    ScaleFactorChanged { width: u32, height: u32 },
    Other,
}

/// One command of a frame, for the host to run on the device. Passes are
/// named by their position in the pass list, everything else by its handle.
#[derive(Clone, Copy, Debug, PartialEq, Eq, Structural)]
pub enum FrameCommand {
    /// Resolve the attachments of the pass and begin it: every colour
    /// attachment cleared to the pass's clear colour, the depth attachment
    /// to the far plane.
    BeginRenderPass { pass: usize },
    BeginComputePass { pass: usize },
    SetPipeline { pipeline: usize },
    SetVertexBuffer { slot: u32, buffer: usize },
    SetIndexBuffer { buffer: usize },
    SetBindGroup { index: u32, bind_group: usize },
    /// Draw `index_count` indices, `instance_count` times.
    DrawIndexed { index_count: u32, instance_count: u32 },
    Dispatch { x: u32, y: u32, z: u32 },
    EndRenderPass,
    EndComputePass,
    /// Hand everything recorded for this frame to the device.
    Submit,
    Present,
}

/// What can be wrong with a frame's plan.
#[derive(Clone, Copy, Debug, PartialEq, Eq, Structural)]
pub enum RenderFault {
    /// The texture that the voxel passes draw into is not loaded.
    MissingVoxelTarget,
    /// The quad for full-screen passes is not loaded.
    MissingBlitQuad,
    /// A pass names a material that is not loaded.
    UnknownMaterial,
    /// A material refers to a shader that is not loaded.
    UnknownShader,
    /// A pass that draws the scene is not one of the scene passes.
    InvalidScenePass,
    /// A model is drawn before its mesh was resolved.
    MeshNotLoaded,
    /// A model is drawn before its material for the pass was resolved.
    MaterialNotLoaded,
    /// A model is drawn before its instance buffer was built.
    NoInstanceBuffer,
    /// A shader takes a camera, and the active camera is not in the scene.
    NoActiveCamera,
}

/// A fault in a frame's plan, with the pass in which it shows. For a fault
/// of a model, `entity` is the position of its entity in the walk over the
/// scene and `component` the position of the model among the entity's
/// components; otherwise both are 0. `Engine::fault_message` turns the
/// positions into the names of what stands there.
#[derive(Clone, Copy, Debug, PartialEq, Eq, Structural)]
pub struct RenderError {
    pub fault: RenderFault,
    pub pass: usize,
    pub entity: usize,
    pub component: usize,
}

/// Why a frame was not drawn.
#[derive(Clone, Copy, Debug, PartialEq, Eq, Structural)]
pub enum FrameError {
    Surface(SurfaceError),
    Render(RenderError),
}

/// What became of a frame.
#[derive(Debug, PartialEq, Eq)]
pub enum FrameOutcome {
    /// The frame is planned: the host runs these commands.
    Drawn(Vec<FrameCommand>),
    /// The surface was lost: the engine resized to the window, and the next
    /// frame tries again.
    Resized,
    /// The surface gave no image in time, or is out of date: this frame is
    /// dropped, and the next one tries again.
    Skipped(SurfaceError),
    /// The device is out of memory: the event loop ends.
    Exit,
    /// The plan of the frame has a fault, such as a name that nothing is
    /// loaded under. No later frame could do better: the event loop ends,
    /// and the host reports the fault.
    Fatal(RenderError),
}

/// What a frame's update leaves for the host to do before the frame is
/// drawn: the writes to the device, and the round of behavior updates.
#[derive(Debug, PartialEq, Eq)]
pub struct FrameUpdate {
    pub writes: Vec<FrameWrite>,
    pub steps: Vec<BehaviorStep>,
}

/// The material of a model that a scene pass draws with.
#[derive(Clone, Copy, Debug, PartialEq, Eq, Structural)]
pub enum ScenePass {
    VoxelLightmap,
    Deferred,
}

/// Black, opaque.
pub open spec fn black() -> Color {
    Color { r: 0, g: 0, b: 0, a: ONE_DOUBLE }
}

/// The engine.
pub struct Engine {
    pub context: Context,
    pub frame_textures: FrameTextures,
    pub voxel_light_map: VoxelTexture,
    pub scene: Scene,
    pub active_camera: String,
    pub scene_lighting: SceneLighting,
}

impl Engine {
    /// The engine's tables and caches are well formed.
    pub open spec fn wf(&self) -> bool {
        self.scene.wf()
    }

    /// The name of the texture that the voxel passes draw into.
    pub open spec fn voxel_target_name() -> Seq<char> {
        "VOXEL_CALCULATION_FRAGMENTS_RENDER_RESOLUTION"@
    }

    /// A render pass of the engine: cleared to opaque black.
    pub open spec fn spec_render_pass(
        label: Seq<char>,
        depth_attachment: Option<usize>,
        color_attachment_types: Seq<Attachment>,
        blit_material: Option<Seq<char>>,
    ) -> PassView {
        PassView::RenderPass { label, depth_attachment, color_attachment_types, blit_material, clear_color: black() }
    }

    /// The passes of a frame, given the view of the voxel passes' target.
    /// Three times the scene is drawn into the voxel light map, which a
    /// compute pass then turns into a texture. The scene is drawn again into
    /// the depth buffer and the four attribute textures. Three full-screen
    /// passes follow, each reading what the passes before it wrote: the
    /// ambient occlusion kernel, its blur, and the shading. The last pass
    /// maps the shaded image onto the surface.
    pub open spec fn passes_with(&self, voxel_target: usize) -> Seq<PassView> {
        let voxel = Self::spec_render_pass(
            "Pass: Calc Voxel Lightmap"@,
            None,
            seq![Attachment::View(voxel_target)],
            None,
        );
        let textures = self.frame_textures;
        seq![
            voxel,
            voxel,
            voxel,
            PassView::ComputePass {
                label: "Pass: Voxel Texture Generating"@,
                material: "compute_voxel_texture_generating.material"@,
                work_groups_size: (128u32, 128u32, 128u32),
            },
            Self::spec_render_pass(
                "Scene: Deferred"@,
                Some(textures.z_buffer.texture.view),
                seq![
                    Attachment::View(textures.world_space_fragment_location.texture.view),
                    Attachment::View(textures.world_space_normal.texture.view),
                    Attachment::View(textures.albedo_map.texture.view),
                    Attachment::View(textures.arm_map.texture.view),
                ],
                None,
            ),
            Self::spec_render_pass(
                "Pass: SSAO Kernel"@,
                None,
                seq![Attachment::View(textures.ssao_kernel_map.texture.view)],
                Some("pass_ssao_kernel.material"@),
            ),
            Self::spec_render_pass(
                "Pass: SSAO Blurred"@,
                None,
                seq![Attachment::View(textures.ssao_blurred_map.texture.view)],
                Some("pass_ssao_blurred.material"@),
            ),
            Self::spec_render_pass(
                "Pass: PBR Shading"@,
                None,
                seq![Attachment::View(textures.pbr_shaded_map.texture.view)],
                Some("pass_pbr_shading.material"@),
            ),
            Self::spec_render_pass(
                "Pass: HDR Exposure"@,
                None,
                seq![Attachment::Surface],
                Some("pass_hdr_exposure.material"@),
            ),
        ]
    }

    /// The passes of a frame, if the target of the voxel passes is loaded.
    pub open spec fn spec_passes(&self) -> Option<Seq<PassView>> {
        match index_in(self.scene.resources.textures.keys(), Self::voxel_target_name()) {
            Some(i) => Some(self.passes_with(self.scene.resources.textures.values()[i].view)),
            None => None,
        }
    }

    /// What rendering a frame gives: the surface's error if the surface gave
    /// no texture, a fault if the passes have one, and the commands of the
    /// frame otherwise.
    pub open spec fn rendered(&self, surface: Result<(), SurfaceError>) -> Result<Seq<FrameCommand>, FrameError> {
        match surface {
            Err(error) => Err(FrameError::Surface(error)),
            Ok(_) => match self.spec_passes() {
                None => Err(
                    FrameError::Render(
                        RenderError { fault: RenderFault::MissingVoxelTarget, pass: 0, entity: 0, component: 0 },
                    ),
                ),
                Some(passes) => match self.frame_commands(passes) {
                    Err(error) => Err(FrameError::Render(error)),
                    Ok(commands) => Ok(commands),
                },
            },
        }
    }

    /// The path to the entity of the active camera and the place of its
    /// first camera among the entity's components, if there is such a camera.
    pub open spec fn active_camera_place(&self) -> Option<(Seq<usize>, int)> {
        match (self.scene.found(self.active_camera@), self.scene.found_path(self.active_camera@)) {
            (Some(entity), Some(path)) => if first_camera(entity.components@) < entity.components@.len() {
                Some((path, first_camera(entity.components@)))
            } else {
                None
            },
            _ => None,
        }
    }

    /// Whether `after` is the entity `before` with the projection of its
    /// first camera resized, and nothing else changed.
    pub open spec fn camera_resized(before: Entity, after: Entity, width: u32, height: u32) -> bool {
        let at = first_camera(before.components@);
        &&& at < before.components@.len()
        &&& before.components@[at] matches Component::Camera(camera)
        &&& after.components@ == before.components@.update(
            at,
            Component::Camera(
                crate::camera::Camera {
                    projection: camera.projection.resized(width, height),
                    camera_buffer: camera.camera_buffer,
                    camera_bind_group_layout: camera.camera_bind_group_layout,
                    camera_bind_group: camera.camera_bind_group,
                },
            ),
        )
        &&& after.name == before.name
        &&& after.enabled == before.enabled
        &&& after.transform == before.transform
        &&& after.children == before.children
    }

    /// Whether `after` is the engine `before` resized to `new_size`. For a
    /// size without width or height nothing changes. Otherwise the surface
    /// is configured anew, every frame texture is built again at the new
    /// size with new handles, and the projection of the active camera takes
    /// the new viewport; all else stays.
    pub open spec fn resize_effect(before: Engine, after: Engine, new_size: (u32, u32)) -> bool {
        if new_size.0 == 0 || new_size.1 == 0 {
            after == before
        } else {
            let config = SurfaceConfiguration {
                format: before.context.config.format,
                width: new_size.0,
                height: new_size.1,
            };
            let base = before.context.device@.len() as int + 1;
            &&& after.context.config == config
            &&& after.context.device@ == before.context.device@.push(DeviceCallView::ConfigureSurface(config))
                + FrameTextures::recreate_calls(before.frame_textures.all(), base, new_size.0, new_size.1, 8)
            &&& FrameTextures::recreated(
                before.frame_textures.all(),
                after.frame_textures.all(),
                base,
                new_size.0,
                new_size.1,
            )
            &&& after.voxel_light_map == before.voxel_light_map
            &&& after.active_camera == before.active_camera
            &&& after.scene_lighting == before.scene_lighting
            &&& after.scene.entity_name_paths == before.scene.entity_name_paths
            &&& after.scene.resources == before.scene.resources
            &&& before.scene.found(before.active_camera@) matches Some(entity)
            &&& before.active_camera_place() matches Some(place)
            &&& exists|resized: Entity|
                Self::camera_resized(entity, resized, new_size.0, new_size.1) && replaced_at(
                    before.scene.root,
                    after.scene.root,
                    place.0,
                    resized,
                )
        }
    }

    /// Whether the frame textures of `after` were all built after `before`:
    /// each of their handles is the handle of a call that `before` had not
    /// recorded yet, so none is a handle that `before` knew.
    pub open spec fn frame_textures_fresh(before: Engine, after: Engine) -> bool {
        forall|i: int|
            0 <= i < 24 ==> before.context.device@.len() < #[trigger] after.frame_textures.spec_handles()[i]
                < after.context.device@.len()
    }

    /// Whether `after` is the entity `before` with every model placed
    /// anew: each model has the one instance `placed`. A model that had an
    /// instance buffer keeps its handle; a model that had none has the
    /// buffer that was made for it, the first such model's by the call with
    /// the handle `base` and each further one's by the next call. Nothing
    /// else changes.
    pub open spec fn models_placed(before: Entity, after: Entity, placed: Instance, base: int) -> bool {
        &&& after.name == before.name
        &&& after.enabled == before.enabled
        &&& after.transform == before.transform
        &&& after.children == before.children
        &&& after.components@.len() == before.components@.len()
        &&& forall|i: int|
            0 <= i < before.components@.len() ==> match before.components@[i] {
                Component::Model(model) => {
                    &&& #[trigger] after.components@[i] matches Component::Model(moved)
                    &&& moved.mesh_name == model.mesh_name
                    &&& moved.mesh == model.mesh
                    &&& moved.voxel_lightmap_material == model.voxel_lightmap_material
                    &&& moved.scene_deferred_material == model.scene_deferred_material
                    &&& moved.instances.instance_list@ == seq![placed]
                    &&& moved.instances.instances_buffer == match model.instances.instances_buffer {
                        Some(buffer) => Some(buffer),
                        None => Some((base + Self::placing_calls(before.components@, placed, i).len()) as usize),
                    }
                },
                _ => after.components@[i] == before.components@[i],
            }
    }

    /// The calls that place the models among the first `n` of `components`
    /// anew: a fresh instance buffer for each model that has none.
    pub open spec fn placing_calls(components: Seq<Component>, placed: Instance, n: int) -> Seq<DeviceCallView>
        decreases n,
    {
        if n <= 0 {
            Seq::empty()
        } else {
            let before = Self::placing_calls(components, placed, n - 1);
            match components[n - 1] {
                Component::Model(model) => if model.instances.instances_buffer is None {
                    before.push(DeviceCallView::CreateInstanceBuffer { instances: seq![placed] })
                } else {
                    before
                },
                _ => before,
            }
        }
    }

    /// The writes that place the models among the first `n` of
    /// `components` anew: for each model that has an instance buffer, the
    /// buffer built anew behind its handle.
    pub open spec fn placing_writes(components: Seq<Component>, placed: Instance, n: int) -> Seq<FrameWriteView>
        decreases n,
    {
        if n <= 0 {
            Seq::empty()
        } else {
            let before = Self::placing_writes(components, placed, n - 1);
            match components[n - 1] {
                Component::Model(model) => match model.instances.instances_buffer {
                    Some(buffer) => before.push(
                        FrameWriteView::RebuildInstanceBuffer { buffer, instances: seq![placed] },
                    ),
                    None => before,
                },
                _ => before,
            }
        }
    }

    /// The writes of a frame's update: the light's buffer is written with
    /// the light at `light_location`, and then the models of the entity
    /// "Lamp Model" that have an instance buffer have it built anew.
    pub open spec fn update_writes(&self, light_location: [u32; 3], lamp: Instance) -> Seq<FrameWriteView> {
        let entity = self.scene.found("Lamp Model"@)->0;
        seq![
            FrameWriteView::WriteBuffer {
                buffer: self.scene_lighting.light_buffer,
                contents: Self::light_words(self.scene_lighting.light_uniform, light_location),
            },
        ] + Self::placing_writes(entity.components@, lamp, entity.components@.len() as int)
    }

    /// The words of the light's buffer when the light stands at `location`.
    pub open spec fn light_words(uniform: LightUniform, location: [u32; 3]) -> Seq<u32> {
        seq![
            location@[0],
            location@[1],
            location@[2],
            uniform._padding,
            uniform.color@[0],
            uniform.color@[1],
            uniform.color@[2],
        ]
    }

    /// Whether `after` is the engine `before` updated for a frame: the
    /// light stands at `light_location`, and every model of the entity
    /// "Lamp Model" is placed at `lamp`. The record grows only by a fresh
    /// instance buffer for each of those models that had none. Nothing else
    /// changes.
    pub open spec fn updated(before: Engine, after: Engine, light_location: [u32; 3], lamp: Instance) -> bool {
        let base = before.context.device@.len() as int;
        &&& before.scene.found("Lamp Model"@) matches Some(entity)
        &&& before.scene.found_path("Lamp Model"@) matches Some(path)
        &&& after.context.device@ == before.context.device@ + Self::placing_calls(
            entity.components@,
            lamp,
            entity.components@.len() as int,
        )
        &&& after.scene_lighting.light_uniform.words() == Self::light_words(
            before.scene_lighting.light_uniform,
            light_location,
        )
        &&& after.scene_lighting.light_buffer == before.scene_lighting.light_buffer
        &&& after.scene_lighting.light_bind_group_layout == before.scene_lighting.light_bind_group_layout
        &&& after.scene_lighting.light_bind_group == before.scene_lighting.light_bind_group
        &&& exists|moved: Entity|
            Self::models_placed(entity, moved, lamp, base) && replaced_at(
                before.scene.root,
                after.scene.root,
                path,
                moved,
            )
        &&& after.context.config == before.context.config
        &&& after.frame_textures == before.frame_textures
        &&& after.voxel_light_map == before.voxel_light_map
        &&& after.active_camera == before.active_camera
        &&& after.scene.entity_name_paths == before.scene.entity_name_paths
        &&& after.scene.resources == before.scene.resources
    }

    /// An engine for a surface of the given configuration, with an empty
    /// scene. It asks the device for the frame textures at the size of the
    /// surface, for the voxel light map of 128 voxels a side, and for the
    /// light. The active camera is the entity called "Main Camera".
    pub fn new(config: SurfaceConfiguration) -> (engine: Engine)
        ensures
            engine.wf(),
            engine.context.config == config,
            FrameTextures::planned(engine.frame_textures.all(), 0, config.width, config.height),
            engine.voxel_light_map.texture.texture == 24,
            engine.voxel_light_map.texture.view == 25,
            engine.voxel_light_map.texture.sampler == 26,
            engine.voxel_light_map.storage_texture_view == 27,
            engine.scene_lighting.light_buffer == 28,
            engine.scene_lighting.light_bind_group_layout == 29,
            engine.scene_lighting.light_bind_group == 30,
            engine.active_camera@ == "Main Camera"@,
            engine.scene.root.name@ == "Scene Root"@,
            engine.scene.root.children@.len() == 0,
            engine.scene.root.components@.len() == 0,
            engine.scene.resources.shaders.keys().len() == 0,
            engine.scene.resources.textures.keys().len() == 0,
            engine.scene.resources.materials.keys().len() == 0,
            engine.scene.resources.meshes.keys().len() == 0,
            engine.context.device@ == FrameTextures::recreate_calls(
                engine.frame_textures.all(),
                0,
                config.width,
                config.height,
                8,
            ) + voxel_texture_calls(24, (128, 128, 128), TextureFormat::Rgba8Unorm, "Voxel Light Map (u32)"@, None).push(
                DeviceCallView::CreateBufferInit {
                    usage: BufferUsages::spec_uniform(),
                    contents: SceneLighting::initial_words(),
                },
            ) + uniform_group_calls(28, 29),
    {
        let mut context = Context::new(config);
        let frame_textures = FrameTextures::new(&mut context.device, &context.config);
        proof {
            FrameTextures::lemma_recreate_calls_len(frame_textures.all(), 0, config.width, config.height, 8);
        }
        let voxel_light_map = VoxelTexture::new(
            &mut context.device,
            (128, 128, 128),
            TextureFormat::Rgba8Unorm,
            "Voxel Light Map (u32)",
            None,
        );
        let active_camera = String::from_str("Main Camera");
        let scene_lighting = SceneLighting::new(&mut context.device);
        let scene = Scene::new();
        let engine = Engine { context, frame_textures, voxel_light_map, scene, active_camera, scene_lighting };
        assert(engine.context.device@ =~= FrameTextures::recreate_calls(
            engine.frame_textures.all(),
            0,
            config.width,
            config.height,
            8,
        ) + voxel_texture_calls(24, (128, 128, 128), TextureFormat::Rgba8Unorm, "Voxel Light Map (u32)"@, None).push(
            DeviceCallView::CreateBufferInit {
                usage: BufferUsages::spec_uniform(),
                contents: SceneLighting::initial_words(),
            },
        ) + uniform_group_calls(28, 29));
        engine
    }

    /// Follows the window to a new size: the surface is configured anew,
    /// the projection of the active camera takes the new viewport, and
    /// every frame texture is built again. A size without width or height
    /// is passed over: nothing changes. The frame textures that are built
    /// again have handles that were not given out before, so that the host
    /// can drop what stood behind the handles of the old ones.
    pub fn resize(&mut self, new_size: (u32, u32))
        requires
            old(self).wf(),
            new_size.0 > 0 && new_size.1 > 0 ==> old(self).active_camera_place() is Some,
        ensures
            final(self).wf(),
            Self::resize_effect(*old(self), *final(self), new_size),
            new_size.0 > 0 && new_size.1 > 0 ==> Self::frame_textures_fresh(*old(self), *final(self)),
    {
        if new_size.0 > 0 && new_size.1 > 0 {
            self.context.config.width = new_size.0;
            self.context.config.height = new_size.1;
            self.context.device.record(DeviceCall::ConfigureSurface(self.context.config));

            let ghost entity_before = old(self).scene.found(old(self).active_camera@)->0;
            match self.scene.find_entity_mut(self.active_camera.as_str()) {
                Some(entity) => {
                    match entity.first_camera_mut() {
                        Some(camera) => {
                            camera.projection.resize(new_size.0, new_size.1);
                        },
                        None => {},
                    }
                },
                None => {},
            }
            proof {
                let place = old(self).active_camera_place()->Some_0;
                assert forall|replacement: Entity| #[trigger]
                    replaced_at(old(self).scene.root, self.scene.root, place.0, replacement) implies entity_at(
                    self.scene.root,
                    place.0,
                ) == Some(replacement) by {
                    lemma_replaced_at_leads(old(self).scene.root, self.scene.root, place.0, replacement);
                }
                let entity_after = entity_at(self.scene.root, place.0)->0;
                assert(replaced_at(old(self).scene.root, self.scene.root, place.0, entity_after));
                assert(Self::camera_resized(entity_before, entity_after, new_size.0, new_size.1));
            }

            self.frame_textures.recreate_all(&mut self.context.device, &self.context.config);
            let recorded = self.context.device.calls.len();
            proof {
                FrameTextures::lemma_recreate_calls_len(
                    old(self).frame_textures.all(),
                    old(self).context.device@.len() as int + 1,
                    new_size.0,
                    new_size.1,
                    8,
                );
                let rebuilt = FrameTextures::recreate_calls(
                    old(self).frame_textures.all(),
                    old(self).context.device@.len() as int + 1,
                    new_size.0,
                    new_size.1,
                    8,
                );
                assert(rebuilt.len() == 24);
                assert(self.context.device@ == old(self).context.device@.push(
                    DeviceCallView::ConfigureSurface(self.context.config),
                ) + rebuilt);
                assert(recorded == old(self).context.device@.len() + 25);
                assert forall|i: int| 0 <= i < 24 implies old(self).context.device@.len()
                    < #[trigger] self.frame_textures.spec_handles()[i] < self.context.device@.len() by {
                    FrameTextures::lemma_recreated_handles_are_fresh(
                        old(self).frame_textures,
                        self.frame_textures,
                        old(self).context.device@.len() as int + 1,
                        new_size.0,
                        new_size.1,
                        i,
                    );
                }
            }
        }
    }

    /// Reacts to a window event. A request to close, and the escape key
    /// going down, end the event loop. A new size, or a new scale factor
    /// with its new size, resizes the engine. Nothing else has an effect.
    pub fn process_window_event(&mut self, window_event: &WindowEvent) -> (control_flow: ControlFlow)
        requires
            old(self).wf(),
            match *window_event {
                WindowEvent::Resized { width, height } => width > 0 && height > 0 ==> old(self).active_camera_place()
                    is Some,
                WindowEvent::ScaleFactorChanged { width, height } => width > 0 && height > 0 ==> old(self).active_camera_place() is Some,
                _ => true,
            },
        ensures
            final(self).wf(),
            control_flow == (match *window_event {
                WindowEvent::CloseRequested => ControlFlow::Exit,
                WindowEvent::KeyboardInput {
                    state: ElementState::Pressed,
                    virtual_keycode: Some(VirtualKeyCode::Escape),
                } => ControlFlow::Exit,
                _ => ControlFlow::Poll,
            }),
            match *window_event {
                WindowEvent::Resized { width, height } => Self::resize_effect(*old(self), *final(self), (width, height)),
                WindowEvent::ScaleFactorChanged { width, height } => Self::resize_effect(
                    *old(self),
                    *final(self),
                    (width, height),
                ),
                _ => *final(self) == *old(self),
            },
            match *window_event {
                WindowEvent::Resized { width, height } => width > 0 && height > 0 ==> Self::frame_textures_fresh(
                    *old(self),
                    *final(self),
                ),
                WindowEvent::ScaleFactorChanged { width, height } => width > 0 && height > 0
                    ==> Self::frame_textures_fresh(*old(self), *final(self)),
                _ => true,
            },
    {
        match window_event {
            WindowEvent::KeyboardInput { state: ElementState::Pressed, virtual_keycode: Some(VirtualKeyCode::Escape) } => {
                ControlFlow::Exit
            },
            WindowEvent::CloseRequested => { ControlFlow::Exit },
            WindowEvent::Resized { width, height } => {
                self.resize((*width, *height));
                ControlFlow::Poll
            },
            WindowEvent::ScaleFactorChanged { width, height } => {
                self.resize((*width, *height));
                ControlFlow::Poll
            },
            _ => { ControlFlow::Poll },
        }
    }

    /// The passes of a frame. The target of the voxel passes is the loaded
    /// texture "VOXEL_CALCULATION_FRAGMENTS_RENDER_RESOLUTION".
    pub fn passes(&self) -> (result: Option<Vec<Pass>>)
        requires
            self.wf(),
        ensures
            match self.spec_passes() {
                Some(passes) => result matches Some(built) && pass_views(built@) == passes,
                None => result is None,
            },
    {
        let voxel_target = match self.scene.resources.textures.get("VOXEL_CALCULATION_FRAGMENTS_RENDER_RESOLUTION") {
            Some(texture) => texture.view,
            None => {
                return None;
            },
        };
        let textures = &self.frame_textures;
        let mut passes: Vec<Pass> = Vec::new();
        passes.push(render_pass("Pass: Calc Voxel Lightmap", None, one(Attachment::View(voxel_target)), None));
        passes.push(render_pass("Pass: Calc Voxel Lightmap", None, one(Attachment::View(voxel_target)), None));
        passes.push(render_pass("Pass: Calc Voxel Lightmap", None, one(Attachment::View(voxel_target)), None));
        passes.push(
            Pass::ComputePass(
                ComputePass {
                    label: String::from_str("Pass: Voxel Texture Generating"),
                    material: String::from_str("compute_voxel_texture_generating.material"),
                    work_groups_size: (128, 128, 128),
                },
            ),
        );
        let mut attributes: Vec<Attachment> = Vec::new();
        attributes.push(Attachment::View(textures.world_space_fragment_location.texture.view));
        attributes.push(Attachment::View(textures.world_space_normal.texture.view));
        attributes.push(Attachment::View(textures.albedo_map.texture.view));
        attributes.push(Attachment::View(textures.arm_map.texture.view));
        assert(attributes@ =~= seq![
            Attachment::View(textures.world_space_fragment_location.texture.view),
            Attachment::View(textures.world_space_normal.texture.view),
            Attachment::View(textures.albedo_map.texture.view),
            Attachment::View(textures.arm_map.texture.view),
        ]);
        passes.push(render_pass("Scene: Deferred", Some(textures.z_buffer.texture.view), attributes, None));
        passes.push(
            render_pass(
                "Pass: SSAO Kernel",
                None,
                one(Attachment::View(textures.ssao_kernel_map.texture.view)),
                Some("pass_ssao_kernel.material"),
            ),
        );
        passes.push(
            render_pass(
                "Pass: SSAO Blurred",
                None,
                one(Attachment::View(textures.ssao_blurred_map.texture.view)),
                Some("pass_ssao_blurred.material"),
            ),
        );
        passes.push(
            render_pass(
                "Pass: PBR Shading",
                None,
                one(Attachment::View(textures.pbr_shaded_map.texture.view)),
                Some("pass_pbr_shading.material"),
            ),
        );
        passes.push(
            render_pass("Pass: HDR Exposure", None, one(Attachment::Surface), Some("pass_hdr_exposure.material")),
        );
        proof {
            let views = pass_views(passes@);
            let expected = self.passes_with(voxel_target);
            assert(views[0] == expected[0]);
            assert(views[1] == expected[1]);
            assert(views[2] == expected[2]);
            assert(views[3] == expected[3]);
            assert(views[4] == expected[4]);
            assert(views[5] == expected[5]);
            assert(views[6] == expected[6]);
            assert(views[7] == expected[7]);
            assert(views[8] == expected[8]);
            assert(views =~= expected);
        }
        Some(passes)
    }

    /// Plans a frame, given what came of acquiring the surface's texture.
    /// Without that texture there is no frame, and the surface's error is
    /// handed on.
    pub fn render(&self, surface: Result<(), SurfaceError>) -> (result: Result<Vec<FrameCommand>, FrameError>)
        requires
            self.wf(),
        ensures
            match self.rendered(surface) {
                Ok(commands) => result matches Ok(planned) && planned@ == commands,
                Err(error) => result == Err::<Vec<FrameCommand>, FrameError>(error),
            },
    {
        match surface {
            Err(error) => {
                return Err(FrameError::Surface(error));
            },
            Ok(_) => {},
        }
        let passes = match self.passes() {
            Some(passes) => passes,
            None => {
                return Err(
                    FrameError::Render(
                        RenderError { fault: RenderFault::MissingVoxelTarget, pass: 0, entity: 0, component: 0 },
                    ),
                );
            },
        };
        match self.execute(&passes) {
            Ok(commands) => Ok(commands),
            Err(error) => Err(FrameError::Render(error)),
        }
    }

    /// Draws a frame, or deals with what kept it from being drawn. A lost
    /// surface has the engine resize to the window, for the next frame to
    /// try again; a device out of memory ends the event loop, and so does a
    /// fault in the plan of the frame; a surface that is late or out of
    /// date drops this frame only.
    pub fn draw_frame(&mut self, surface: Result<(), SurfaceError>, window_size: (u32, u32)) -> (outcome: FrameOutcome)
        requires
            old(self).wf(),
            surface == Err::<(), SurfaceError>(SurfaceError::Lost) && window_size.0 > 0 && window_size.1 > 0 ==> old(self).active_camera_place() is Some,
        ensures
            final(self).wf(),
            match old(self).rendered(surface) {
                Ok(commands) => outcome matches FrameOutcome::Drawn(planned) && planned@ == commands && *final(self)
                    == *old(self),
                Err(FrameError::Surface(SurfaceError::Lost)) => outcome == FrameOutcome::Resized && Self::resize_effect(
                    *old(self),
                    *final(self),
                    window_size,
                ) && (window_size.0 > 0 && window_size.1 > 0 ==> Self::frame_textures_fresh(*old(self), *final(self))),
                Err(FrameError::Surface(SurfaceError::OutOfMemory)) => outcome == FrameOutcome::Exit && *final(self)
                    == *old(self),
                Err(FrameError::Surface(error)) => outcome == FrameOutcome::Skipped(error)
                    && *final(self) == *old(self),
                Err(FrameError::Render(fault)) => outcome == FrameOutcome::Fatal(fault) && *final(self) == *old(self),
            },
    {
        match self.render(surface) {
            Ok(commands) => FrameOutcome::Drawn(commands),
            Err(FrameError::Surface(SurfaceError::Lost)) => {
                self.resize(window_size);
                FrameOutcome::Resized
            },
            Err(FrameError::Surface(SurfaceError::OutOfMemory)) => FrameOutcome::Exit,
            Err(FrameError::Surface(error)) => FrameOutcome::Skipped(error),
            Err(FrameError::Render(fault)) => FrameOutcome::Fatal(fault),
        }
    }

    /// Updates the engine for a frame, with what the host has computed for
    /// it: where the light stands now, and where the lamp's model is placed.
    /// The light's buffer is to be written anew and the instance buffer of
    /// every model of the entity "Lamp Model" to be built anew: these are
    /// the writes that are returned, for the host to do before the frame is
    /// drawn. A round of behavior updates is scheduled over the whole scene
    /// for the host to run.
    pub fn update(&mut self, light_location: [u32; 3], lamp: Instance) -> (update: FrameUpdate)
        requires
            old(self).wf(),
            old(self).scene.found("Lamp Model"@) is Some,
        ensures
            final(self).wf(),
            Self::updated(*old(self), *final(self), light_location, lamp),
            write_views(update.writes@) == old(self).update_writes(light_location, lamp),
            update.steps@ == behavior_round(final(self).scene.root),
    {
        self.scene_lighting.light_uniform.location = light_location;
        let words = self.scene_lighting.light_uniform.to_words();
        assert(words@ =~= Self::light_words(old(self).scene_lighting.light_uniform, light_location));
        let mut writes: Vec<FrameWrite> = Vec::new();
        writes.push(FrameWrite::WriteBuffer { buffer: self.scene_lighting.light_buffer, contents: words });
        let ghost entity_before = old(self).scene.found("Lamp Model"@)->0;
        let ghost path = old(self).scene.found_path("Lamp Model"@)->0;
        let ghost base = old(self).context.device@.len() as int;
        let ghost light = write_views(writes@);
        match self.scene.find_entity_mut("Lamp Model") {
            Some(lamp_model) => {
                place_models(lamp_model, lamp, &mut self.context.device, &mut writes);
            },
            None => {},
        }
        proof {
            assert forall|replacement: Entity| #[trigger]
                replaced_at(old(self).scene.root, self.scene.root, path, replacement) implies entity_at(
                self.scene.root,
                path,
            ) == Some(replacement) by {
                lemma_replaced_at_leads(old(self).scene.root, self.scene.root, path, replacement);
            }
            let moved = entity_at(self.scene.root, path)->0;
            assert(replaced_at(old(self).scene.root, self.scene.root, path, moved));
            assert(Self::models_placed(entity_before, moved, lamp, base));
            assert(light =~= seq![
                FrameWriteView::WriteBuffer {
                    buffer: old(self).scene_lighting.light_buffer,
                    contents: Self::light_words(old(self).scene_lighting.light_uniform, light_location),
                },
            ]);
        }
        let steps = self.scene.root.update_behaviors_of_descendants();
        FrameUpdate { writes, steps }
    }
}

/// Places every model of an entity at `placed`. The instance buffer of a
/// model that has one is built anew by a write, which is added to `writes`;
/// a model that has none gets a fresh one from the device.
fn place_models(entity: &mut Entity, placed: Instance, device: &mut Device, writes: &mut Vec<FrameWrite>)
    ensures
        Engine::models_placed(*old(entity), *final(entity), placed, old(device)@.len() as int),
        final(device)@ == old(device)@ + Engine::placing_calls(
            old(entity).components@,
            placed,
            old(entity).components@.len() as int,
        ),
        write_views(final(writes)@) == write_views(old(writes)@) + Engine::placing_writes(
            old(entity).components@,
            placed,
            old(entity).components@.len() as int,
        ),
{
    let ghost base = device@.len() as int;
    let n = entity.components.len();
    let mut i: usize = 0;
    assert(write_views(writes@) =~= write_views(old(writes)@) + Engine::placing_writes(
        old(entity).components@,
        placed,
        0,
    ));
    while i < n
        invariant
            n == old(entity).components@.len(),
            entity.components@.len() == n,
            i <= n,
            base == old(device)@.len(),
            entity.name == old(entity).name,
            entity.enabled == old(entity).enabled,
            entity.transform == old(entity).transform,
            entity.children == old(entity).children,
            device@ == old(device)@ + Engine::placing_calls(old(entity).components@, placed, i as int),
            write_views(writes@) == write_views(old(writes)@) + Engine::placing_writes(
                old(entity).components@,
                placed,
                i as int,
            ),
            forall|j: int| i <= j < n ==> entity.components@[j] == old(entity).components@[j],
            forall|j: int|
                0 <= j < i ==> match old(entity).components@[j] {
                    Component::Model(model) => {
                        &&& #[trigger] entity.components@[j] matches Component::Model(moved)
                        &&& moved.mesh_name == model.mesh_name
                        &&& moved.mesh == model.mesh
                        &&& moved.voxel_lightmap_material == model.voxel_lightmap_material
                        &&& moved.scene_deferred_material == model.scene_deferred_material
                        &&& moved.instances.instance_list@ == seq![placed]
                        &&& moved.instances.instances_buffer == match model.instances.instances_buffer {
                            Some(buffer) => Some(buffer),
                            None => Some(
                                (base + Engine::placing_calls(old(entity).components@, placed, j).len()) as usize,
                            ),
                        }
                    },
                    _ => entity.components@[j] == old(entity).components@[j],
                },
        decreases n - i,
    {
        let ghost writes_before = write_views(writes@);
        if let Component::Model(model) = &mut entity.components[i] {
            match model.instances.place_single_instance(placed.location, placed.rotation, placed.scale, device) {
                Some(write) => {
                    writes.push(write);
                    assert(write_views(writes@) =~= writes_before.push(write@));
                },
                None => {},
            }
        }
        assert(old(entity).components@[i as int] is Model || write_views(writes@) == writes_before);
        i += 1;
        assert(device@ =~= old(device)@ + Engine::placing_calls(old(entity).components@, placed, i as int));
        assert(write_views(writes@) =~= write_views(old(writes)@) + Engine::placing_writes(
            old(entity).components@,
            placed,
            i as int,
        ));
    }
}

/// A list of one attachment.
fn one(attachment: Attachment) -> (attachments: Vec<Attachment>)
    ensures
        attachments@ == seq![attachment],
{
    let mut attachments = Vec::new();
    attachments.push(attachment);
    attachments
}

/// A render pass of the engine: cleared to opaque black.
fn render_pass(
    label: &str,
    depth_attachment: Option<usize>,
    color_attachment_types: Vec<Attachment>,
    blit_material: Option<&str>,
) -> (pass: Pass)
    ensures
        pass@ == Engine::spec_render_pass(
            label@,
            depth_attachment,
            color_attachment_types@,
            match blit_material {
                Some(name) => Some(name@),
                None => None,
            },
        ),
{
    Pass::RenderPass(
        RenderPass {
            label: String::from_str(label),
            depth_attachment,
            color_attachment_types,
            blit_material: match blit_material {
                Some(name) => Some(String::from_str(name)),
                None => None,
            },
            clear_color: Color { r: 0, g: 0, b: 0, a: ONE_DOUBLE },
        },
    )
}

} // verus!
