//! The plan of a frame: which commands each pass issues, in which order,
//! and what can be wrong with them.

use crate::component::Component;
use crate::engine::{Engine, FrameCommand, RenderError, RenderFault, ScenePass};
use crate::entity::{Entity, cameras_in, walk};
use crate::material::Material;
use crate::mesh::Mesh;
use crate::model::{MeshHandle, Model};
use crate::pass::{Pass, PassView, pass_views};
use crate::resource_table::index_in;
use crate::shader::{PipelineType, Shader};
use crate::text::str_eq;
use vstd::prelude::*;

verus! {

/// The scene pass that a label stands for.
pub open spec fn scene_pass(label: Seq<char>) -> Option<ScenePass> {
    if label == "Pass: Calc Voxel Lightmap"@ {
        Some(ScenePass::VoxelLightmap)
    } else if label == "Scene: Deferred"@ {
        Some(ScenePass::Deferred)
    } else {
        None
    }
}

/// The bind groups of a draw, in the order of their indices: the camera's
/// if the shader takes a camera, then the light's if it takes a light, then
/// the material's. A shader that takes a camera cannot draw without one.
pub open spec fn bind_group_commands(
    shader: Shader,
    camera: Option<usize>,
    lighting: usize,
    material: usize,
) -> Result<Seq<FrameCommand>, RenderFault> {
    if shader.includes_camera && camera is None {
        Err(RenderFault::NoActiveCamera)
    } else {
        let with_camera: Seq<FrameCommand> = if shader.includes_camera {
            seq![FrameCommand::SetBindGroup { index: 0, bind_group: camera->0 }]
        } else {
            Seq::empty()
        };
        let with_lighting = if shader.includes_lighting {
            with_camera.push(FrameCommand::SetBindGroup { index: with_camera.len() as u32, bind_group: lighting })
        } else {
            with_camera
        };
        Ok(with_lighting.push(FrameCommand::SetBindGroup { index: with_lighting.len() as u32, bind_group: material }))
    }
}

impl Engine {
    /// The bind group of the active camera: that of the first camera of the
    /// entity that the scene finds under the active camera's name.
    pub open spec fn camera_group(&self) -> Option<usize> {
        match self.scene.found(self.active_camera@) {
            Some(entity) => {
                let cameras = cameras_in(entity.components@, entity.components@.len() as int);
                if cameras.len() > 0 {
                    Some(cameras[0].camera_bind_group)
                } else {
                    None
                }
            },
            None => None,
        }
    }

    /// The mesh behind a handle, if the handle is in range.
    pub open spec fn mesh_at(&self, handle: MeshHandle) -> Option<Mesh> {
        let files = self.scene.resources.meshes.values();
        if handle.file < files.len() && handle.mesh < files[handle.file as int].values().len() {
            Some(files[handle.file as int].values()[handle.mesh as int])
        } else {
            None
        }
    }

    /// The material behind a handle and its shader.
    pub open spec fn material_at(&self, handle: usize) -> Result<(Material, Shader), RenderFault> {
        let materials = self.scene.resources.materials.values();
        let shaders = self.scene.resources.shaders.values();
        if handle >= materials.len() {
            Err(RenderFault::MaterialNotLoaded)
        } else if materials[handle as int].shader_id >= shaders.len() {
            Err(RenderFault::UnknownShader)
        } else {
            Ok((materials[handle as int], shaders[materials[handle as int].shader_id as int]))
        }
    }

    /// The material of a name and its shader.
    pub open spec fn material_named(&self, name: Seq<char>) -> Result<(Material, Shader), RenderFault> {
        match index_in(self.scene.resources.materials.keys(), name) {
            None => Err(RenderFault::UnknownMaterial),
            Some(handle) => self.material_at(handle as usize),
        }
    }

    /// The commands that draw one model in a scene pass: nothing if the
    /// shader of its material computes; otherwise the pipeline, the vertex
    /// buffer of the mesh and the instance buffer, the index buffer, the
    /// bind groups, and one draw of all indices for all instances, whose
    /// number is taken in 32 bits.
    pub open spec fn model_commands(&self, kind: Option<ScenePass>, model: Model) -> Result<
        Seq<FrameCommand>,
        RenderFault,
    > {
        match model.mesh {
            None => Err(RenderFault::MeshNotLoaded),
            Some(handle) => match self.mesh_at(handle) {
                None => Err(RenderFault::MeshNotLoaded),
                Some(mesh) => match kind {
                    None => Err(RenderFault::InvalidScenePass),
                    Some(kind) => match (match kind {
                        ScenePass::VoxelLightmap => model.voxel_lightmap_material,
                        ScenePass::Deferred => model.scene_deferred_material,
                    }) {
                        None => Err(RenderFault::MaterialNotLoaded),
                        Some(material_index) => match self.material_at(material_index) {
                            Err(fault) => Err(fault),
                            Ok((material, shader)) => match shader.pipeline {
                                PipelineType::ComputePipeline(_) => Ok(Seq::empty()),
                                PipelineType::RenderPipeline(pipeline) => match model.instances.instances_buffer {
                                    None => Err(RenderFault::NoInstanceBuffer),
                                    Some(instances_buffer) => {
                                        match bind_group_commands(
                                            shader,
                                            self.camera_group(),
                                            self.scene_lighting.light_bind_group,
                                            material.bind_group,
                                        ) {
                                            Err(fault) => Err(fault),
                                            Ok(groups) => Ok(
                                                seq![
                                                    FrameCommand::SetPipeline { pipeline },
                                                    FrameCommand::SetVertexBuffer { slot: 0, buffer: mesh.vertex_buffer },
                                                    FrameCommand::SetVertexBuffer { slot: 1, buffer: instances_buffer },
                                                    FrameCommand::SetIndexBuffer { buffer: mesh.index_buffer },
                                                ] + groups + seq![
                                                    FrameCommand::DrawIndexed {
                                                        index_count: mesh.index_count,
                                                        instance_count: model.instances.instance_list@.len() as u32,
                                                    },
                                                ],
                                            ),
                                        }
                                    },
                                },
                            },
                        },
                    },
                },
            },
        }
    }

    /// The commands that draw the models among the first `n` components of
    /// an entity, in order; or the first fault among them.
    pub open spec fn entity_commands(
        &self,
        kind: Option<ScenePass>,
        entity: Entity,
        pass: usize,
        position: usize,
        n: int,
    ) -> Result<Seq<FrameCommand>, RenderError>
        decreases n,
    {
        if n <= 0 {
            Ok(Seq::empty())
        } else {
            match self.entity_commands(kind, entity, pass, position, n - 1) {
                Err(error) => Err(error),
                Ok(before) => match entity.components@[n - 1] {
                    Component::Model(model) => match self.model_commands(kind, model) {
                        Ok(commands) => Ok(before + commands),
                        Err(fault) => Err(
                            RenderError { fault, pass, entity: position, component: (n - 1) as usize },
                        ),
                    },
                    _ => Ok(before),
                },
            }
        }
    }

    /// The commands that draw the first `n` of `entities`, in order; or the
    /// first fault among them.
    pub open spec fn entities_commands(&self, kind: Option<ScenePass>, entities: Seq<Entity>, pass: usize, n: int) -> Result<
        Seq<FrameCommand>,
        RenderError,
    >
        decreases n,
    {
        if n <= 0 {
            Ok(Seq::empty())
        } else {
            match self.entities_commands(kind, entities, pass, n - 1) {
                Err(error) => Err(error),
                Ok(before) => match self.entity_commands(
                    kind,
                    entities[n - 1],
                    pass,
                    (n - 1) as usize,
                    entities[n - 1].components@.len() as int,
                ) {
                    Ok(commands) => Ok(before + commands),
                    Err(error) => Err(error),
                },
            }
        }
    }

    /// The commands that draw the whole scene in the pass labelled `label`:
    /// every model of every entity, in the order of the walk over the scene.
    pub open spec fn scene_commands(&self, label: Seq<char>, pass: usize) -> Result<Seq<FrameCommand>, RenderError> {
        self.entities_commands(scene_pass(label), walk(self.scene.root), pass, walk(self.scene.root).len() as int)
    }

    /// The commands that draw one quad over the viewport with the material
    /// `name`: nothing if its shader computes; otherwise the pipeline, the
    /// buffers of the quad, the bind groups, and one draw of the quad.
    pub open spec fn quad_commands(&self, name: Seq<char>, pass: usize) -> Result<Seq<FrameCommand>, RenderError> {
        let at = |fault: RenderFault| RenderError { fault, pass, entity: 0, component: 0 };
        match self.scene.resources.mesh_handle("BLIT"@, "QUAD"@) {
            None => Err(at(RenderFault::MissingBlitQuad)),
            Some(handle) => match self.mesh_at(handle) {
                None => Err(at(RenderFault::MissingBlitQuad)),
                Some(mesh) => match self.material_named(name) {
                    Err(fault) => Err(at(fault)),
                    Ok((material, shader)) => match shader.pipeline {
                        PipelineType::ComputePipeline(_) => Ok(Seq::empty()),
                        PipelineType::RenderPipeline(pipeline) => match bind_group_commands(
                            shader,
                            self.camera_group(),
                            self.scene_lighting.light_bind_group,
                            material.bind_group,
                        ) {
                            Err(fault) => Err(at(fault)),
                            Ok(groups) => Ok(
                                seq![
                                    FrameCommand::SetPipeline { pipeline },
                                    FrameCommand::SetVertexBuffer { slot: 0, buffer: mesh.vertex_buffer },
                                    FrameCommand::SetIndexBuffer { buffer: mesh.index_buffer },
                                ] + groups + seq![
                                    FrameCommand::DrawIndexed { index_count: mesh.index_count, instance_count: 1 },
                                ],
                            ),
                        },
                    },
                },
            },
        }
    }

    /// The commands of one pass. A render pass is begun, draws the scene or
    /// its quad, and is ended. A compute pass binds its material at index 0
    /// and dispatches its work groups; if the shader of its material does
    /// not compute, the pass is left out.
    pub open spec fn pass_commands(&self, pass: PassView, index: usize) -> Result<Seq<FrameCommand>, RenderError> {
        match pass {
            PassView::RenderPass { label, blit_material, .. } => {
                let body = if scene_pass(label) == Some(ScenePass::VoxelLightmap) {
                    self.scene_commands(label, index)
                } else {
                    match blit_material {
                        None => self.scene_commands(label, index),
                        Some(name) => self.quad_commands(name, index),
                    }
                };
                match body {
                    Err(error) => Err(error),
                    Ok(commands) => Ok(
                        seq![FrameCommand::BeginRenderPass { pass: index }] + commands + seq![FrameCommand::EndRenderPass],
                    ),
                }
            },
            PassView::ComputePass { material, work_groups_size, .. } => match self.material_named(material) {
                Err(fault) => Err(RenderError { fault, pass: index, entity: 0, component: 0 }),
                Ok((material, shader)) => match shader.pipeline {
                    PipelineType::RenderPipeline(_) => Ok(Seq::empty()),
                    PipelineType::ComputePipeline(pipeline) => Ok(
                        seq![
                            FrameCommand::BeginComputePass { pass: index },
                            FrameCommand::SetPipeline { pipeline },
                            FrameCommand::SetBindGroup { index: 0, bind_group: material.bind_group },
                            FrameCommand::Dispatch {
                                x: work_groups_size.0,
                                y: work_groups_size.1,
                                z: work_groups_size.2,
                            },
                            FrameCommand::EndComputePass,
                        ],
                    ),
                },
            },
        }
    }

    /// The commands of the first `n` of `passes`, pass after pass in the
    /// order of the list; or the fault of the first pass that has one.
    pub open spec fn passes_commands(&self, passes: Seq<PassView>, n: int) -> Result<Seq<FrameCommand>, RenderError>
        decreases n,
    {
        if n <= 0 {
            Ok(Seq::empty())
        } else {
            match self.passes_commands(passes, n - 1) {
                Err(error) => Err(error),
                Ok(before) => match self.pass_commands(passes[n - 1], (n - 1) as usize) {
                    Ok(commands) => Ok(before + commands),
                    Err(error) => Err(error),
                },
            }
        }
    }

    /// The commands of a frame: those of all passes, then the submission
    /// and the presentation.
    pub open spec fn frame_commands(&self, passes: Seq<PassView>) -> Result<Seq<FrameCommand>, RenderError> {
        match self.passes_commands(passes, passes.len() as int) {
            Err(error) => Err(error),
            Ok(commands) => Ok(commands + seq![FrameCommand::Submit, FrameCommand::Present]),
        }
    }

    /// Where the first `n` passes can be planned, so can the first `m` of them.
    pub proof fn lemma_passes_prefix(&self, passes: Seq<PassView>, m: int, n: int)
        requires
            0 <= m <= n,
            self.passes_commands(passes, n) is Ok,
        ensures
            self.passes_commands(passes, m) is Ok,
            self.passes_commands(passes, m)->Ok_0.len() <= self.passes_commands(passes, n)->Ok_0.len(),
            self.passes_commands(passes, n)->Ok_0.subrange(0, self.passes_commands(passes, m)->Ok_0.len() as int)
                == self.passes_commands(passes, m)->Ok_0,
        decreases n - m,
    {
        if m < n {
            self.lemma_passes_prefix(passes, m, n - 1);
            let shorter = self.passes_commands(passes, n - 1)->Ok_0;
            let whole = self.passes_commands(passes, n)->Ok_0;
            let start = self.passes_commands(passes, m)->Ok_0;
            assert(whole.subrange(0, start.len() as int) =~= shorter.subrange(0, start.len() as int));
        } else {
            let whole = self.passes_commands(passes, n)->Ok_0;
            assert(whole.subrange(0, whole.len() as int) =~= whole);
        }
    }

    /// Passes run strictly in the order of the list: in the plan of a frame,
    /// the commands of pass `i` stand in one piece, after the commands of
    /// all passes before it and before those of all passes after it.
    pub proof fn lemma_passes_in_order(&self, passes: Seq<PassView>, i: int)
        requires
            0 <= i < passes.len(),
            self.frame_commands(passes) is Ok,
        ensures
            self.passes_commands(passes, i) is Ok,
            self.pass_commands(passes[i], i as usize) is Ok,
            ({
                let start = self.passes_commands(passes, i)->Ok_0.len() as int;
                let end = start + self.pass_commands(passes[i], i as usize)->Ok_0.len();
                &&& end <= self.frame_commands(passes)->Ok_0.len()
                &&& self.frame_commands(passes)->Ok_0.subrange(0, start) == self.passes_commands(passes, i)->Ok_0
                &&& self.frame_commands(passes)->Ok_0.subrange(start, end) == self.pass_commands(
                    passes[i],
                    i as usize,
                )->Ok_0
            }),
    {
        let n = passes.len() as int;
        let frame = self.frame_commands(passes)->Ok_0;
        let all = self.passes_commands(passes, n)->Ok_0;
        self.lemma_passes_prefix(passes, i + 1, n);
        self.lemma_passes_prefix(passes, i, i + 1);
        let before = self.passes_commands(passes, i)->Ok_0;
        let with_pass = self.passes_commands(passes, i + 1)->Ok_0;
        let own = self.pass_commands(passes[i], i as usize)->Ok_0;
        assert(with_pass == before + own);
        assert(frame.subrange(0, with_pass.len() as int) =~= all.subrange(0, with_pass.len() as int));
        assert(frame.subrange(0, before.len() as int) =~= with_pass.subrange(0, before.len() as int));
        let start = before.len() as int;
        let end = start + own.len();
        assert(frame.subrange(start, end) =~= with_pass.subrange(start, end));
        assert(with_pass.subrange(start, end) =~= own);
    }

    /// The plan of a frame depends on nothing but the engine and the pass
    /// list: two frames planned in a row from the same state issue the same
    /// commands in the same order, or fail with the same fault.
    pub proof fn lemma_frames_are_deterministic(
        &self,
        passes: Seq<PassView>,
        first: Result<Vec<FrameCommand>, RenderError>,
        second: Result<Vec<FrameCommand>, RenderError>,
    )
        requires
            match self.frame_commands(passes) {
                Ok(commands) => first matches Ok(planned) && planned@ == commands,
                Err(error) => first == Err::<Vec<FrameCommand>, RenderError>(error),
            },
            match self.frame_commands(passes) {
                Ok(commands) => second matches Ok(planned) && planned@ == commands,
                Err(error) => second == Err::<Vec<FrameCommand>, RenderError>(error),
            },
        ensures
            match (first, second) {
                (Ok(a), Ok(b)) => a@ == b@,
                (Err(a), Err(b)) => a == b,
                _ => false,
            },
    {
    }

    /// Once a component has a fault, the fault stays whatever follows.
    proof fn lemma_entity_fault_persists(
        &self,
        kind: Option<ScenePass>,
        entity: Entity,
        pass: usize,
        position: usize,
        m: int,
        n: int,
    )
        requires
            m <= n,
            self.entity_commands(kind, entity, pass, position, m) is Err,
        ensures
            self.entity_commands(kind, entity, pass, position, n) == self.entity_commands(
                kind,
                entity,
                pass,
                position,
                m,
            ),
        decreases n - m,
    {
        if m < n {
            self.lemma_entity_fault_persists(kind, entity, pass, position, m, n - 1);
        }
    }

    /// Once an entity has a fault, the fault stays whatever follows.
    proof fn lemma_entities_fault_persists(
        &self,
        kind: Option<ScenePass>,
        entities: Seq<Entity>,
        pass: usize,
        m: int,
        n: int,
    )
        requires
            m <= n,
            self.entities_commands(kind, entities, pass, m) is Err,
        ensures
            self.entities_commands(kind, entities, pass, n) == self.entities_commands(kind, entities, pass, m),
        decreases n - m,
    {
        if m < n {
            self.lemma_entities_fault_persists(kind, entities, pass, m, n - 1);
        }
    }

    /// Once a pass has a fault, the fault stays whatever follows.
    proof fn lemma_passes_fault_persists(&self, passes: Seq<PassView>, m: int, n: int)
        requires
            m <= n,
            self.passes_commands(passes, m) is Err,
        ensures
            self.passes_commands(passes, n) == self.passes_commands(passes, m),
        decreases n - m,
    {
        if m < n {
            self.lemma_passes_fault_persists(passes, m, n - 1);
        }
    }

    /// The bind group of the active camera, if the scene has one.
    pub fn active_camera_bind_group(&self) -> (group: Option<usize>)
        requires
            self.wf(),
        ensures
            group == self.camera_group(),
    {
        match self.scene.find_entity(self.active_camera.as_str()) {
            Some(entity) => {
                let cameras = entity.get_cameras();
                if cameras.len() > 0 {
                    Some(cameras[0].camera_bind_group)
                } else {
                    None
                }
            },
            None => None,
        }
    }

    /// The material behind a handle and its shader.
    fn material_and_shader(&self, handle: usize) -> (result: Result<(&Material, &Shader), RenderFault>)
        requires
            self.wf(),
        ensures
            match self.material_at(handle) {
                Ok((material, shader)) => result == Ok::<(&Material, &Shader), RenderFault>((&material, &shader)),
                Err(fault) => result == Err::<(&Material, &Shader), RenderFault>(fault),
            },
    {
        match self.scene.resources.materials.get_index(handle) {
            None => Err(RenderFault::MaterialNotLoaded),
            Some((_, material)) => match self.scene.resources.shaders.get_index(material.shader_id) {
                None => Err(RenderFault::UnknownShader),
                Some((_, shader)) => Ok((material, shader)),
            },
        }
    }

    /// The material of a name and its shader.
    fn material_by_name(&self, name: &str) -> (result: Result<(&Material, &Shader), RenderFault>)
        requires
            self.wf(),
        ensures
            match self.material_named(name@) {
                Ok((material, shader)) => result == Ok::<(&Material, &Shader), RenderFault>((&material, &shader)),
                Err(fault) => result == Err::<(&Material, &Shader), RenderFault>(fault),
            },
    {
        match self.scene.resources.materials.index_of(name) {
            None => Err(RenderFault::UnknownMaterial),
            Some(handle) => self.material_and_shader(handle),
        }
    }

    /// The bind groups of a draw with `shader` and `material`.
    fn bind_groups(&self, shader: &Shader, material: &Material) -> (result: Result<Vec<FrameCommand>, RenderFault>)
        requires
            self.wf(),
        ensures
            match bind_group_commands(
                *shader,
                self.camera_group(),
                self.scene_lighting.light_bind_group,
                material.bind_group,
            ) {
                Ok(commands) => result matches Ok(groups) && groups@ == commands,
                Err(fault) => result == Err::<Vec<FrameCommand>, RenderFault>(fault),
            },
    {
        let mut groups: Vec<FrameCommand> = Vec::new();
        let mut index: u32 = 0;
        if shader.includes_camera {
            match self.active_camera_bind_group() {
                Some(camera) => {
                    groups.push(FrameCommand::SetBindGroup { index, bind_group: camera });
                    index += 1;
                },
                None => {
                    return Err(RenderFault::NoActiveCamera);
                },
            }
        }
        if shader.includes_lighting {
            groups.push(FrameCommand::SetBindGroup { index, bind_group: self.scene_lighting.light_bind_group });
            index += 1;
        }
        groups.push(FrameCommand::SetBindGroup { index, bind_group: material.bind_group });
        assert(groups@ =~= bind_group_commands(
            *shader,
            self.camera_group(),
            self.scene_lighting.light_bind_group,
            material.bind_group,
        )->Ok_0);
        Ok(groups)
    }

    /// The commands that draw one model in a scene pass.
    fn draw_model(&self, kind: Option<ScenePass>, model: &Model) -> (result: Result<Vec<FrameCommand>, RenderFault>)
        requires
            self.wf(),
        ensures
            match self.model_commands(kind, *model) {
                Ok(commands) => result matches Ok(drawn) && drawn@ == commands,
                Err(fault) => result == Err::<Vec<FrameCommand>, RenderFault>(fault),
            },
    {
        let handle = match model.mesh {
            Some(handle) => handle,
            None => {
                return Err(RenderFault::MeshNotLoaded);
            },
        };
        let mesh = match self.scene.resources.mesh(handle) {
            Some(mesh) => mesh,
            None => {
                return Err(RenderFault::MeshNotLoaded);
            },
        };
        let maybe_material_index = match kind {
            Some(ScenePass::VoxelLightmap) => model.voxel_lightmap_material,
            Some(ScenePass::Deferred) => model.scene_deferred_material,
            None => {
                return Err(RenderFault::InvalidScenePass);
            },
        };
        let material_index = match maybe_material_index {
            Some(material_index) => material_index,
            None => {
                return Err(RenderFault::MaterialNotLoaded);
            },
        };
        let (material, shader) = match self.material_and_shader(material_index) {
            Ok(pair) => pair,
            Err(fault) => {
                return Err(fault);
            },
        };
        let pipeline = match shader.pipeline {
            PipelineType::RenderPipeline(render_pipeline) => render_pipeline,
            PipelineType::ComputePipeline(_) => {
                return Ok(Vec::new());
            },
        };
        let instances_buffer = match model.instances.instances_buffer {
            Some(buffer) => buffer,
            None => {
                return Err(RenderFault::NoInstanceBuffer);
            },
        };
        let instance_count = #[verifier::truncate] (model.instances.instance_list.len() as u32);
        let mut groups = match self.bind_groups(shader, material) {
            Ok(groups) => groups,
            Err(fault) => {
                return Err(fault);
            },
        };
        let mut commands: Vec<FrameCommand> = Vec::new();
        commands.push(FrameCommand::SetPipeline { pipeline });
        commands.push(FrameCommand::SetVertexBuffer { slot: 0, buffer: mesh.vertex_buffer });
        commands.push(FrameCommand::SetVertexBuffer { slot: 1, buffer: instances_buffer });
        commands.push(FrameCommand::SetIndexBuffer { buffer: mesh.index_buffer });
        commands.append(&mut groups);
        commands.push(FrameCommand::DrawIndexed { index_count: mesh.index_count, instance_count });
        assert(commands@ =~= self.model_commands(kind, *model)->Ok_0);
        Ok(commands)
    }

    /// Plans the drawing of the whole scene in the pass labelled
    /// `pass_name`, which stands at `pass` in the pass list: every model of
    /// every entity, in the order of the walk over the scene. The label
    /// decides which material of a model is used.
    pub fn draw_scene(&self, pass_name: &str, pass: usize) -> (result: Result<Vec<FrameCommand>, RenderError>)
        requires
            self.wf(),
        ensures
            match self.scene_commands(pass_name@, pass) {
                Ok(commands) => result matches Ok(drawn) && drawn@ == commands,
                Err(error) => result == Err::<Vec<FrameCommand>, RenderError>(error),
            },
    {
        let kind = if str_eq(pass_name, "Pass: Calc Voxel Lightmap") {
            Some(ScenePass::VoxelLightmap)
        } else if str_eq(pass_name, "Scene: Deferred") {
            Some(ScenePass::Deferred)
        } else {
            None
        };
        let entities = self.scene.root.descendants();
        let ghost order = walk(self.scene.root);
        let mut commands: Vec<FrameCommand> = Vec::new();
        let count = entities.len();
        let mut e: usize = 0;
        while e < count
            invariant
                self.wf(),
                kind == scene_pass(pass_name@),
                order == walk(self.scene.root),
                count == order.len(),
                entities@.len() == count,
                forall|i: int| 0 <= i < count ==> *entities@[i] == order[i],
                e <= count,
                self.entities_commands(kind, order, pass, e as int) == Ok::<Seq<FrameCommand>, RenderError>(commands@),
            decreases count - e,
        {
            let entity = entities[e];
            let ghost before = commands@;
            let ghost own_start = commands@.len();
            let components = entity.components.len();
            let mut c: usize = 0;
            let mut own: Vec<FrameCommand> = Vec::new();
            while c < components
                invariant
                    self.wf(),
                    kind == scene_pass(pass_name@),
                    order == walk(self.scene.root),
                    *entity == order[e as int],
                    e < count,
                    count == order.len(),
                    components == entity.components@.len(),
                    c <= components,
                    self.entities_commands(kind, order, pass, e as int) is Ok,
                    self.entity_commands(kind, *entity, pass, e, c as int) == Ok::<Seq<FrameCommand>, RenderError>(own@),
                decreases components - c,
            {
                if let Component::Model(model) = &entity.components[c] {
                    match self.draw_model(kind, model) {
                        Ok(mut drawn) => {
                            own.append(&mut drawn);
                        },
                        Err(fault) => {
                            proof {
                                let error = RenderError { fault, pass, entity: e, component: c };
                                assert(self.entity_commands(kind, *entity, pass, e, c + 1) == Err::<
                                    Seq<FrameCommand>,
                                    RenderError,
                                >(error));
                                self.lemma_entity_fault_persists(kind, *entity, pass, e, c + 1, components as int);
                                assert(self.entities_commands(kind, order, pass, e + 1) == Err::<
                                    Seq<FrameCommand>,
                                    RenderError,
                                >(error));
                                self.lemma_entities_fault_persists(kind, order, pass, e + 1, count as int);
                            }
                            return Err(RenderError { fault, pass, entity: e, component: c });
                        },
                    }
                }
                c += 1;
            }
            commands.append(&mut own);
            e += 1;
        }
        Ok(commands)
    }

    /// Plans the drawing of one quad over the viewport with the material
    /// `material_name`, in the pass that stands at `pass` in the pass list.
    pub fn draw_quad(&self, material_name: &str, pass: usize) -> (result: Result<Vec<FrameCommand>, RenderError>)
        requires
            self.wf(),
        ensures
            match self.quad_commands(material_name@, pass) {
                Ok(commands) => result matches Ok(drawn) && drawn@ == commands,
                Err(error) => result == Err::<Vec<FrameCommand>, RenderError>(error),
            },
    {
        let handle = match self.scene.resources.mesh_index_of("BLIT", "QUAD") {
            Some(handle) => handle,
            None => {
                return Err(RenderError { fault: RenderFault::MissingBlitQuad, pass, entity: 0, component: 0 });
            },
        };
        let mesh = match self.scene.resources.mesh(handle) {
            Some(mesh) => mesh,
            None => {
                return Err(RenderError { fault: RenderFault::MissingBlitQuad, pass, entity: 0, component: 0 });
            },
        };
        let (material, shader) = match self.material_by_name(material_name) {
            Ok(pair) => pair,
            Err(fault) => {
                return Err(RenderError { fault, pass, entity: 0, component: 0 });
            },
        };
        let pipeline = match shader.pipeline {
            PipelineType::RenderPipeline(render_pipeline) => render_pipeline,
            PipelineType::ComputePipeline(_) => {
                return Ok(Vec::new());
            },
        };
        let mut groups = match self.bind_groups(shader, material) {
            Ok(groups) => groups,
            Err(fault) => {
                return Err(RenderError { fault, pass, entity: 0, component: 0 });
            },
        };
        let mut commands: Vec<FrameCommand> = Vec::new();
        commands.push(FrameCommand::SetPipeline { pipeline });
        commands.push(FrameCommand::SetVertexBuffer { slot: 0, buffer: mesh.vertex_buffer });
        commands.push(FrameCommand::SetIndexBuffer { buffer: mesh.index_buffer });
        commands.append(&mut groups);
        commands.push(FrameCommand::DrawIndexed { index_count: mesh.index_count, instance_count: 1 });
        assert(commands@ =~= self.quad_commands(material_name@, pass)->Ok_0);
        Ok(commands)
    }

    /// Plans one pass, which stands at `index` in the pass list.
    pub fn run_pass(&self, pass: &Pass, index: usize) -> (result: Result<Vec<FrameCommand>, RenderError>)
        requires
            self.wf(),
        ensures
            match self.pass_commands(pass@, index) {
                Ok(commands) => result matches Ok(planned) && planned@ == commands,
                Err(error) => result == Err::<Vec<FrameCommand>, RenderError>(error),
            },
    {
        match pass {
            Pass::RenderPass(render_pass) => {
                let drawn = if str_eq(render_pass.label.as_str(), "Pass: Calc Voxel Lightmap") {
                    self.draw_scene(render_pass.label.as_str(), index)
                } else {
                    match &render_pass.blit_material {
                        None => self.draw_scene(render_pass.label.as_str(), index),
                        Some(material_name) => self.draw_quad(material_name.as_str(), index),
                    }
                };
                match drawn {
                    Err(error) => Err(error),
                    Ok(mut body) => {
                        let mut commands: Vec<FrameCommand> = Vec::new();
                        commands.push(FrameCommand::BeginRenderPass { pass: index });
                        commands.append(&mut body);
                        commands.push(FrameCommand::EndRenderPass);
                        assert(commands@ =~= self.pass_commands(pass@, index)->Ok_0);
                        Ok(commands)
                    },
                }
            },
            Pass::ComputePass(compute_pass) => {
                let (material, shader) = match self.material_by_name(compute_pass.material.as_str()) {
                    Ok(pair) => pair,
                    Err(fault) => {
                        return Err(RenderError { fault, pass: index, entity: 0, component: 0 });
                    },
                };
                let pipeline = match shader.pipeline {
                    PipelineType::RenderPipeline(_) => {
                        return Ok(Vec::new());
                    },
                    PipelineType::ComputePipeline(compute_pipeline) => compute_pipeline,
                };
                let (x, y, z) = compute_pass.work_groups_size;
                let mut commands: Vec<FrameCommand> = Vec::new();
                commands.push(FrameCommand::BeginComputePass { pass: index });
                commands.push(FrameCommand::SetPipeline { pipeline });
                commands.push(FrameCommand::SetBindGroup { index: 0, bind_group: material.bind_group });
                commands.push(FrameCommand::Dispatch { x, y, z });
                commands.push(FrameCommand::EndComputePass);
                assert(commands@ =~= self.pass_commands(pass@, index)->Ok_0);
                Ok(commands)
            },
        }
    }

    /// Plans a frame over the given passes: the passes strictly in the
    /// order of the list, then the submission and the presentation. A fault
    /// in a pass fails the whole frame.
    pub fn execute(&self, passes: &Vec<Pass>) -> (result: Result<Vec<FrameCommand>, RenderError>)
        requires
            self.wf(),
        ensures
            match self.frame_commands(pass_views(passes@)) {
                Ok(commands) => result matches Ok(planned) && planned@ == commands,
                Err(error) => result == Err::<Vec<FrameCommand>, RenderError>(error),
            },
    {
        let ghost views = pass_views(passes@);
        let mut commands: Vec<FrameCommand> = Vec::new();
        let n = passes.len();
        let mut i: usize = 0;
        while i < n
            invariant
                self.wf(),
                views == pass_views(passes@),
                n == passes@.len(),
                i <= n,
                self.passes_commands(views, i as int) == Ok::<Seq<FrameCommand>, RenderError>(commands@),
            decreases n - i,
        {
            match self.run_pass(&passes[i], i) {
                Ok(mut planned) => {
                    commands.append(&mut planned);
                },
                Err(error) => {
                    proof {
                        self.lemma_passes_fault_persists(views, i + 1, n as int);
                    }
                    return Err(error);
                },
            }
            i += 1;
        }
        commands.push(FrameCommand::Submit);
        commands.push(FrameCommand::Present);
        assert(commands@ =~= self.frame_commands(views)->Ok_0);
        Ok(commands)
    }
}

} // verus!
