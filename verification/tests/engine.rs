use seurat::camera::{OrthographicProjection, PerspectiveProjection, Projection};
use seurat::component::Component;
use seurat::debug_buffer::{ElementState, VirtualKeyCode};
use seurat::engine::{
    ControlFlow, Engine, FrameCommand, FrameError, FrameOutcome, FrameUpdate, RenderError, RenderFault, SurfaceError, WindowEvent,
};
use seurat::entity::BehaviorStep;
use seurat::gpu::{BindingResource, DeviceCall, Extent3d, FrameWrite, SurfaceConfiguration, TextureFormat};
use seurat::instance::Instance;
use seurat::load::ModelFile;
use seurat::load::textures::DecodedImage;
use seurat::load::world::SceneParameters;
use seurat::mesh::{MeshMaterial, MeshSource};
use seurat::model::Model;
use seurat::pass::{Attachment, Color, ComputePass, Pass, RenderPass};
use seurat::transform::Transform;
use std::collections::HashMap;

fn config() -> SurfaceConfiguration {
    SurfaceConfiguration { format: TextureFormat::Bgra8UnormSrgb, width: 640, height: 480 }
}

fn mesh(name: &str, triangles: usize) -> MeshSource {
    MeshSource {
        name: String::from(name),
        vertices: vec![0; 33 * triangles],
        indices: (0..3 * triangles as u32).collect(),
        material: Some(MeshMaterial {
            diffuse_texture: format!("{}_albedo.png", name),
            shininess_texture: format!("{}_arm.png", name),
            normal_texture: format!("{}_normal.png", name),
        }),
    }
}

fn image(file: String) -> DecodedImage {
    DecodedImage { file, rgba: vec![255; 2 * 2 * 4], dimensions: (2, 2) }
}

fn parameters() -> SceneParameters {
    SceneParameters {
        main_projection: PerspectiveProjection::new(640, 480, 0x3F49_0FDB, 0x3DCC_CCCD, 0x42C8_0000),
        voxel_projection: OrthographicProjection::new(1, 1, 0x4220_0000, 0, 0x447A_0000),
        voxel_camera_transform: Transform::new((1, 2, 3), (4, 5, 6, 7), (8, 9, 10)),
        lamp_instance: Instance { location: (0, 0x4080_0000, 0), ..Instance::new() },
        lamp_behavior: 0,
        cube_instances: [Instance::new(); 100],
    }
}

fn loaded_engine() -> Engine {
    let mut engine = Engine::new(config());
    let files = vec![
        ModelFile { name: String::from("cube.obj"), meshes: vec![mesh("BeveledCube", 12)] },
        ModelFile { name: String::from("sponza_pbr.obj"), meshes: vec![mesh("Floor", 2), mesh("Arch", 5)] },
    ];
    let mut images = Vec::new();
    for name in ["BeveledCube", "Floor", "Arch"] {
        for map in ["albedo", "arm", "normal"] {
            images.push(image(format!("{}_{}.png", name, map)));
        }
    }
    let noise = vec![0u8; 4 * 4 * 4 * 2];
    let samples = vec![0u32; 64 * 4];
    engine.load(&files, parameters(), &noise, &images, samples).unwrap();
    engine
}

fn draws(commands: &[FrameCommand]) -> Vec<(u32, u32)> {
    commands
        .iter()
        .filter_map(|command| match command {
            FrameCommand::DrawIndexed { index_count, instance_count } => Some((*index_count, *instance_count)),
            _ => None,
        })
        .collect()
}

fn pass_of(commands: &[FrameCommand], pass: usize) -> Vec<FrameCommand> {
    let begin = commands
        .iter()
        .position(|command| {
            *command == FrameCommand::BeginRenderPass { pass } || *command == FrameCommand::BeginComputePass { pass }
        })
        .unwrap();
    let length = commands[begin..]
        .iter()
        .position(|command| matches!(command, FrameCommand::EndRenderPass | FrameCommand::EndComputePass))
        .unwrap();
    commands[begin..=begin + length].to_vec()
}

/// Plays the commands of a frame against a backend that only records which
/// pass wrote each texture view last, and reports what every draw read.
fn observed_writers(engine: &Engine, passes: &[Pass], commands: &[FrameCommand]) -> Vec<(usize, usize, Option<usize>)> {
    let mut last_writer: HashMap<usize, usize> = HashMap::new();
    let mut reads = Vec::new();
    let mut current = 0;
    for command in commands {
        match command {
            FrameCommand::BeginRenderPass { pass } => {
                current = *pass;
                if let Pass::RenderPass(render) = &passes[*pass] {
                    for attachment in &render.color_attachment_types {
                        if let Attachment::View(view) = attachment {
                            last_writer.insert(*view, *pass);
                        }
                    }
                    if let Some(view) = render.depth_attachment {
                        last_writer.insert(view, *pass);
                    }
                }
            }
            FrameCommand::SetBindGroup { bind_group, .. } => {
                if let DeviceCall::CreateBindGroup { entries, .. } = &engine.context.device.calls[*bind_group] {
                    for entry in entries {
                        if let BindingResource::TextureView(view) = entry.resource {
                            reads.push((current, view, last_writer.get(&view).copied()));
                        }
                    }
                }
            }
            _ => {}
        }
    }
    reads
}

fn blit(label: &str, target: Attachment, material: &str) -> Pass {
    Pass::RenderPass(RenderPass {
        label: String::from(label),
        depth_attachment: None,
        color_attachment_types: vec![target],
        blit_material: Some(String::from(material)),
        clear_color: Color { r: 0, g: 0, b: 0, a: 0x3FF0_0000_0000_0000 },
    })
}

#[test]
fn new_engine_asks_for_frame_textures_voxel_map_and_light() {
    let engine = Engine::new(config());
    assert_eq!(engine.context.config, config());
    assert_eq!(engine.context.device.calls.len(), 8 * 3 + 4 + 3);
    assert_eq!(engine.active_camera, "Main Camera");
    assert_eq!(engine.frame_textures.z_buffer.texture.size, Extent3d { width: 640, height: 480, depth_or_array_layers: 1 });
    assert_eq!(engine.voxel_light_map.texture.texture, 24);
    assert_eq!(engine.voxel_light_map.size, Extent3d { width: 128, height: 128, depth_or_array_layers: 128 });
    assert_eq!(engine.voxel_light_map.format, TextureFormat::Rgba8Unorm);
    assert_eq!(engine.voxel_light_map.label, "Voxel Light Map (u32)");
    assert_eq!(engine.scene_lighting.light_buffer, 28);
    assert_eq!(engine.scene_lighting.light_bind_group, 30);
    assert_eq!(engine.scene.root.name, "Scene Root");
    assert!(engine.scene.root.children.is_empty());
    assert_eq!(engine.scene.resources.shaders.len(), 0);
}

#[test]
fn frame_has_nine_passes_in_the_order_of_the_list() {
    let engine = loaded_engine();
    let passes = engine.passes().unwrap();
    let labels: Vec<&str> = passes
        .iter()
        .map(|pass| match pass {
            Pass::RenderPass(pass) => pass.label.as_str(),
            Pass::ComputePass(pass) => pass.label.as_str(),
        })
        .collect();
    assert_eq!(
        labels,
        vec![
            "Pass: Calc Voxel Lightmap",
            "Pass: Calc Voxel Lightmap",
            "Pass: Calc Voxel Lightmap",
            "Pass: Voxel Texture Generating",
            "Scene: Deferred",
            "Pass: SSAO Kernel",
            "Pass: SSAO Blurred",
            "Pass: PBR Shading",
            "Pass: HDR Exposure",
        ]
    );
    assert_eq!(
        passes[3],
        Pass::ComputePass(ComputePass {
            label: String::from("Pass: Voxel Texture Generating"),
            material: String::from("compute_voxel_texture_generating.material"),
            work_groups_size: (128, 128, 128),
        })
    );
    let textures = &engine.frame_textures;
    match &passes[4] {
        Pass::RenderPass(pass) => {
            assert_eq!(pass.depth_attachment, Some(textures.z_buffer.texture.view));
            assert_eq!(
                pass.color_attachment_types,
                vec![
                    Attachment::View(textures.world_space_fragment_location.texture.view),
                    Attachment::View(textures.world_space_normal.texture.view),
                    Attachment::View(textures.albedo_map.texture.view),
                    Attachment::View(textures.arm_map.texture.view),
                ]
            );
            assert_eq!(pass.blit_material, None);
            assert_eq!(f64::from_bits(pass.clear_color.a), 1.0);
            assert_eq!((pass.clear_color.r, pass.clear_color.g, pass.clear_color.b), (0, 0, 0));
        }
        other => panic!("unexpected pass {:?}", other),
    }
    match &passes[8] {
        Pass::RenderPass(pass) => {
            assert_eq!(pass.color_attachment_types, vec![Attachment::Surface]);
            assert_eq!(pass.blit_material.as_deref(), Some("pass_hdr_exposure.material"));
        }
        other => panic!("unexpected pass {:?}", other),
    }

    let commands = engine.render(Ok(())).unwrap();
    let begins: Vec<usize> = commands
        .iter()
        .filter_map(|command| match command {
            FrameCommand::BeginRenderPass { pass } => Some(*pass),
            FrameCommand::BeginComputePass { pass } => Some(*pass),
            _ => None,
        })
        .collect();
    assert_eq!(begins, vec![0, 1, 2, 3, 4, 5, 6, 7, 8]);
    assert_eq!(&commands[commands.len() - 2..], &[FrameCommand::Submit, FrameCommand::Present]);
    assert_eq!(commands.iter().filter(|command| **command == FrameCommand::Submit).count(), 1);
}

#[test]
fn scene_pass_draws_every_model_in_traversal_order() {
    let engine = loaded_engine();
    let commands = engine.render(Ok(())).unwrap();
    // The walk opens the children of an entity in order, so the last child
    // comes first: Sponza with Arch and Floor, then Cubes, then the lamp.
    let expected = vec![(15, 1), (6, 1), (36, 100), (36, 1)];
    assert_eq!(draws(&pass_of(&commands, 0)), expected);
    assert_eq!(draws(&pass_of(&commands, 4)), expected);
    let order: Vec<&str> = engine.scene.root.descendants().iter().map(|entity| entity.name.as_str()).collect();
    assert_eq!(
        order,
        vec!["Scene Root", "Sponza", "Arch", "Floor", "Cubes", "Lamp Model", "Voxel Camera", "Main Camera"]
    );
}

#[test]
fn model_draw_binds_camera_then_light_then_material() {
    let engine = loaded_engine();
    let commands = engine.render(Ok(())).unwrap();
    let deferred = pass_of(&commands, 4);
    let resources = &engine.scene.resources;
    let arch = resources.mesh(resources.mesh_index_of("sponza_pbr.obj", "Arch").unwrap()).unwrap();
    let material = resources.materials.get("scene_deferred_Arch.material").unwrap();
    let shader = resources.shaders.get("scene_deferred.wgsl").unwrap();
    let pipeline = match shader.pipeline {
        seurat::shader::PipelineType::RenderPipeline(pipeline) => pipeline,
        other => panic!("unexpected pipeline {:?}", other),
    };
    let sponza = engine.scene.root.find_descendant("Sponza").unwrap();
    let instances = sponza.children[1].get_models()[0].instances.instances_buffer.unwrap();
    let camera = engine.active_camera_bind_group().unwrap();
    assert_eq!(
        &deferred[..10],
        &[
            FrameCommand::BeginRenderPass { pass: 4 },
            FrameCommand::SetPipeline { pipeline },
            FrameCommand::SetVertexBuffer { slot: 0, buffer: arch.vertex_buffer },
            FrameCommand::SetVertexBuffer { slot: 1, buffer: instances },
            FrameCommand::SetIndexBuffer { buffer: arch.index_buffer },
            FrameCommand::SetBindGroup { index: 0, bind_group: camera },
            FrameCommand::SetBindGroup { index: 1, bind_group: engine.scene_lighting.light_bind_group },
            FrameCommand::SetBindGroup { index: 2, bind_group: material.bind_group },
            FrameCommand::DrawIndexed { index_count: 15, instance_count: 1 },
            FrameCommand::SetPipeline { pipeline },
        ]
    );
    assert_eq!(deferred.last(), Some(&FrameCommand::EndRenderPass));

    // The voxel shader takes the light but no camera: the light moves to index 0.
    let voxel = pass_of(&commands, 0);
    let material = resources.materials.get("calc_voxel_lightmap_Arch.material").unwrap();
    assert_eq!(
        &voxel[5..8],
        &[
            FrameCommand::SetBindGroup { index: 0, bind_group: engine.scene_lighting.light_bind_group },
            FrameCommand::SetBindGroup { index: 1, bind_group: material.bind_group },
            FrameCommand::DrawIndexed { index_count: 15, instance_count: 1 },
        ]
    );
}

#[test]
fn quad_pass_draws_one_quad_without_instances() {
    let engine = loaded_engine();
    let commands = engine.render(Ok(())).unwrap();
    let resources = &engine.scene.resources;
    let quad = resources.mesh(resources.mesh_index_of("BLIT", "QUAD").unwrap()).unwrap();
    let material = resources.materials.get("pass_hdr_exposure.material").unwrap();
    let pipeline = match resources.shaders.get("pass_hdr_exposure.wgsl").unwrap().pipeline {
        seurat::shader::PipelineType::RenderPipeline(pipeline) => pipeline,
        other => panic!("unexpected pipeline {:?}", other),
    };
    assert_eq!(
        pass_of(&commands, 8),
        vec![
            FrameCommand::BeginRenderPass { pass: 8 },
            FrameCommand::SetPipeline { pipeline },
            FrameCommand::SetVertexBuffer { slot: 0, buffer: quad.vertex_buffer },
            FrameCommand::SetIndexBuffer { buffer: quad.index_buffer },
            FrameCommand::SetBindGroup { index: 0, bind_group: material.bind_group },
            FrameCommand::DrawIndexed { index_count: 6, instance_count: 1 },
            FrameCommand::EndRenderPass,
        ]
    );
    assert_eq!(engine.draw_quad("pass_hdr_exposure.material", 8).unwrap(), pass_of(&commands, 8)[1..6].to_vec());
}

#[test]
fn compute_pass_binds_its_material_and_dispatches() {
    let engine = loaded_engine();
    let commands = engine.render(Ok(())).unwrap();
    let resources = &engine.scene.resources;
    let material = resources.materials.get("compute_voxel_texture_generating.material").unwrap();
    let pipeline = match resources.shaders.get("compute_voxel_texture_generating.wgsl").unwrap().pipeline {
        seurat::shader::PipelineType::ComputePipeline(pipeline) => pipeline,
        other => panic!("unexpected pipeline {:?}", other),
    };
    assert_eq!(
        pass_of(&commands, 3),
        vec![
            FrameCommand::BeginComputePass { pass: 3 },
            FrameCommand::SetPipeline { pipeline },
            FrameCommand::SetBindGroup { index: 0, bind_group: material.bind_group },
            FrameCommand::Dispatch { x: 128, y: 128, z: 128 },
            FrameCommand::EndComputePass,
        ]
    );
}

#[test]
fn two_frames_in_a_row_are_planned_alike() {
    let engine = loaded_engine();
    let first = engine.render(Ok(())).unwrap();
    let second = engine.render(Ok(())).unwrap();
    assert_eq!(first, second);
    let passes = engine.passes().unwrap();
    assert_eq!(engine.execute(&passes).unwrap(), first);
    assert_eq!(engine.execute(&passes).unwrap(), first);
}

#[test]
fn later_pass_observes_what_the_earlier_pass_wrote() {
    let engine = loaded_engine();
    let x = engine.frame_textures.pbr_shaded_map.texture.view;
    let passes = vec![
        blit("Pass: PBR Shading", Attachment::View(x), "pass_pbr_shading.material"),
        blit("Pass: HDR Exposure", Attachment::Surface, "pass_hdr_exposure.material"),
    ];
    let commands = engine.execute(&passes).unwrap();
    let reads = observed_writers(&engine, &passes, &commands);
    let read_of_x: Vec<&(usize, usize, Option<usize>)> = reads.iter().filter(|(_, view, _)| *view == x).collect();
    assert_eq!(read_of_x, vec![&(1, x, Some(0))]);
    let write = commands.iter().position(|command| *command == FrameCommand::BeginRenderPass { pass: 0 }).unwrap();
    let read = commands.iter().position(|command| *command == FrameCommand::BeginRenderPass { pass: 1 }).unwrap();
    assert!(write < read);
}

#[test]
fn every_full_screen_pass_reads_what_was_written_before_it() {
    let engine = loaded_engine();
    let passes = engine.passes().unwrap();
    let commands = engine.render(Ok(())).unwrap();
    let textures = &engine.frame_textures;
    let reads = observed_writers(&engine, &passes, &commands);
    for (pass, view, writer) in [
        (5, textures.world_space_fragment_location.texture.view, 4),
        (5, textures.world_space_normal.texture.view, 4),
        (6, textures.ssao_kernel_map.texture.view, 5),
        (7, textures.albedo_map.texture.view, 4),
        (7, textures.arm_map.texture.view, 4),
        (7, textures.ssao_blurred_map.texture.view, 6),
        (8, textures.pbr_shaded_map.texture.view, 7),
    ] {
        assert!(reads.contains(&(pass, view, Some(writer))), "pass {} reading view {}", pass, view);
    }
    // No pass reads a frame texture in the pass that writes it.
    for (pass, _, writer) in &reads {
        assert_ne!(Some(*pass), *writer);
    }
}

#[test]
fn render_without_a_surface_texture_hands_the_error_on() {
    let engine = loaded_engine();
    for error in [SurfaceError::Timeout, SurfaceError::Outdated, SurfaceError::Lost, SurfaceError::OutOfMemory] {
        assert_eq!(engine.render(Err(error)), Err(FrameError::Surface(error)));
    }
}

#[test]
fn render_before_loading_misses_the_voxel_target() {
    let engine = Engine::new(config());
    assert!(engine.passes().is_none());
    assert_eq!(
        engine.render(Ok(())),
        Err(FrameError::Render(RenderError {
            fault: RenderFault::MissingVoxelTarget,
            pass: 0,
            entity: 0,
            component: 0
        }))
    );
}

#[test]
fn faults_name_the_pass_and_the_model() {
    let mut engine = loaded_engine();
    let at = |fault, pass, entity, component| Err(RenderError { fault, pass, entity, component });
    assert_eq!(engine.draw_quad("no.material", 6), at(RenderFault::UnknownMaterial, 6, 0, 0));
    assert_eq!(engine.draw_scene("Pass: SSAO Kernel", 5), at(RenderFault::InvalidScenePass, 5, 2, 0));
    let unknown = vec![Pass::ComputePass(ComputePass {
        label: String::from("Compute"),
        material: String::from("no.material"),
        work_groups_size: (1, 1, 1),
    })];
    assert_eq!(engine.execute(&unknown), at(RenderFault::UnknownMaterial, 0, 0, 0));

    // A model that was added after loading has nothing resolved.
    let mut late = Model::new(("cube.obj", "BeveledCube"));
    engine.scene.root.find_descendant_mut("Cubes").unwrap().add_component(Component::Model(late_copy(&late)));
    assert_eq!(engine.draw_scene("Scene: Deferred", 4), at(RenderFault::MeshNotLoaded, 4, 4, 1));
    late.load(&engine.scene.resources).unwrap();
    let cubes = engine.scene.root.find_descendant_mut("Cubes").unwrap();
    cubes.components.pop();
    cubes.add_component(Component::Model(late));
    assert_eq!(engine.draw_scene("Scene: Deferred", 4), at(RenderFault::NoInstanceBuffer, 4, 4, 1));
    assert_eq!(
        engine.render(Ok(())),
        Err(FrameError::Render(RenderError { fault: RenderFault::NoInstanceBuffer, pass: 0, entity: 4, component: 1 }))
    );
    let cubes = engine.scene.root.find_descendant_mut("Cubes").unwrap();
    if let Some(Component::Model(model)) = cubes.components.last_mut() {
        model.instances.instances_buffer = Some(0);
        model.scene_deferred_material = None;
    }
    assert_eq!(engine.draw_scene("Scene: Deferred", 4), at(RenderFault::MaterialNotLoaded, 4, 4, 1));
    assert!(engine.draw_scene("Pass: Calc Voxel Lightmap", 0).is_ok());

    engine.active_camera = String::from("Nobody");
    assert_eq!(engine.active_camera_bind_group(), None);
    assert_eq!(engine.draw_quad("pass_pbr_shading.material", 7), at(RenderFault::NoActiveCamera, 7, 0, 0));
    assert!(engine.draw_quad("pass_hdr_exposure.material", 8).is_ok());
}

fn late_copy(model: &Model) -> Model {
    Model::new((model.mesh_name.0.as_str(), model.mesh_name.1.as_str()))
}

#[test]
fn shader_of_the_wrong_kind_leaves_the_pass_out() {
    let engine = loaded_engine();
    assert_eq!(engine.draw_quad("compute_voxel_texture_generating.material", 0), Ok(vec![]));
    let passes = vec![Pass::ComputePass(ComputePass {
        label: String::from("Compute"),
        material: String::from("pass_hdr_exposure.material"),
        work_groups_size: (1, 1, 1),
    })];
    assert_eq!(engine.execute(&passes), Ok(vec![FrameCommand::Submit, FrameCommand::Present]));
    assert_eq!(engine.run_pass(&passes[0], 0), Ok(vec![]));
}

#[test]
fn empty_pass_list_still_submits_and_presents() {
    let engine = Engine::new(config());
    assert_eq!(engine.execute(&vec![]), Ok(vec![FrameCommand::Submit, FrameCommand::Present]));
}

#[test]
fn resize_reconfigures_and_rebuilds_frame_textures() {
    let mut engine = loaded_engine();
    let calls = engine.context.device.calls.len();
    let old_view = engine.frame_textures.z_buffer.texture.view;
    let held = engine.frame_textures.handles();
    assert_eq!(held, (0..24).collect::<Vec<usize>>());
    engine.resize((1024, 768));
    // The frame textures that are built again have handles of their own.
    assert_eq!(engine.frame_textures.handles(), (calls + 1..calls + 25).collect::<Vec<usize>>());
    assert_eq!(
        engine.frame_textures.handles()[3..6],
        [
            engine.frame_textures.world_space_fragment_location.texture.texture,
            engine.frame_textures.world_space_fragment_location.texture.view,
            engine.frame_textures.world_space_fragment_location.texture.sampler
        ]
    );
    let config = SurfaceConfiguration { format: TextureFormat::Bgra8UnormSrgb, width: 1024, height: 768 };
    assert_eq!(engine.context.config, config);
    assert_eq!(engine.context.device.calls.len(), calls + 1 + 24);
    assert_eq!(engine.context.device.calls[calls], DeviceCall::ConfigureSurface(config));
    let size = Extent3d { width: 1024, height: 768, depth_or_array_layers: 1 };
    assert_eq!(engine.frame_textures.z_buffer.texture.size, size);
    assert_eq!(engine.frame_textures.pbr_shaded_map.texture.size, size);
    assert_eq!(engine.frame_textures.z_buffer.texture.format, TextureFormat::Depth32Float);
    assert_eq!(engine.frame_textures.z_buffer.label, "Z-buffer frame texture");
    assert_ne!(engine.frame_textures.z_buffer.texture.view, old_view);
    let camera = engine.scene.root.find_descendant("Main Camera").unwrap().get_cameras()[0];
    assert_eq!(
        camera.projection,
        Projection::Perspective(PerspectiveProjection::new(1024, 768, 0x3F49_0FDB, 0x3DCC_CCCD, 0x42C8_0000))
    );
    let voxel = engine.scene.root.find_descendant("Voxel Camera").unwrap().get_cameras()[0];
    assert_eq!(
        voxel.projection,
        Projection::Orthographic(OrthographicProjection::new(1, 1, 0x4220_0000, 0, 0x447A_0000))
    );
}

#[test]
fn resize_to_nothing_is_ignored() {
    let mut engine = loaded_engine();
    let calls = engine.context.device.calls.len();
    for size in [(0, 600), (800, 0), (0, 0)] {
        engine.resize(size);
        assert_eq!(engine.context.config, config());
        assert_eq!(engine.context.device.calls.len(), calls);
        assert_eq!(
            engine.frame_textures.z_buffer.texture.size,
            Extent3d { width: 640, height: 480, depth_or_array_layers: 1 }
        );
    }
}

#[test]
fn window_events_close_resize_or_do_nothing() {
    let mut engine = loaded_engine();
    assert_eq!(engine.process_window_event(&WindowEvent::CloseRequested), ControlFlow::Exit);
    assert_eq!(
        engine.process_window_event(&WindowEvent::KeyboardInput {
            state: ElementState::Pressed,
            virtual_keycode: Some(VirtualKeyCode::Escape)
        }),
        ControlFlow::Exit
    );
    for event in [
        WindowEvent::KeyboardInput { state: ElementState::Released, virtual_keycode: Some(VirtualKeyCode::Escape) },
        WindowEvent::KeyboardInput { state: ElementState::Pressed, virtual_keycode: Some(VirtualKeyCode::Up) },
        WindowEvent::KeyboardInput { state: ElementState::Pressed, virtual_keycode: None },
        WindowEvent::Other,
    ] {
        assert_eq!(engine.process_window_event(&event), ControlFlow::Poll);
        assert_eq!(engine.context.config, config());
    }
    assert_eq!(engine.process_window_event(&WindowEvent::Resized { width: 300, height: 200 }), ControlFlow::Poll);
    assert_eq!((engine.context.config.width, engine.context.config.height), (300, 200));
    assert_eq!(
        engine.process_window_event(&WindowEvent::ScaleFactorChanged { width: 600, height: 400 }),
        ControlFlow::Poll
    );
    assert_eq!((engine.context.config.width, engine.context.config.height), (600, 400));
    assert_eq!(engine.process_window_event(&WindowEvent::Resized { width: 0, height: 400 }), ControlFlow::Poll);
    assert_eq!((engine.context.config.width, engine.context.config.height), (600, 400));
}

#[test]
fn draw_frame_deals_with_surface_errors() {
    let mut engine = loaded_engine();
    let expected = engine.render(Ok(())).unwrap();
    assert_eq!(engine.draw_frame(Ok(()), (640, 480)), FrameOutcome::Drawn(expected));
    assert_eq!(
        engine.draw_frame(Err(SurfaceError::Timeout), (800, 600)),
        FrameOutcome::Skipped(SurfaceError::Timeout)
    );
    assert_eq!(
        engine.draw_frame(Err(SurfaceError::Outdated), (800, 600)),
        FrameOutcome::Skipped(SurfaceError::Outdated)
    );
    assert_eq!(engine.draw_frame(Err(SurfaceError::OutOfMemory), (800, 600)), FrameOutcome::Exit);
    assert_eq!(engine.context.config, config());
    assert_eq!(engine.draw_frame(Err(SurfaceError::Lost), (800, 600)), FrameOutcome::Resized);
    assert_eq!((engine.context.config.width, engine.context.config.height), (800, 600));
    assert!(matches!(engine.draw_frame(Ok(()), (800, 600)), FrameOutcome::Drawn(_)));
}

#[test]
fn a_fault_of_the_plan_ends_the_loop_and_is_reported_by_name() {
    let mut engine = Engine::new(config());
    let missing_target = RenderError { fault: RenderFault::MissingVoxelTarget, pass: 0, entity: 0, component: 0 };
    assert_eq!(engine.draw_frame(Ok(()), (640, 480)), FrameOutcome::Fatal(missing_target));
    assert_eq!(
        engine.fault_message(&missing_target),
        "the texture 'VOXEL_CALCULATION_FRAGMENTS_RENDER_RESOLUTION' is not loaded"
    );

    let mut engine = loaded_engine();
    let before = engine.context.device.calls.len();
    let late = Model::new(("cube.obj", "BeveledCube"));
    engine.scene.root.find_descendant_mut("Cubes").unwrap().add_component(Component::Model(late));
    let unresolved = RenderError { fault: RenderFault::MeshNotLoaded, pass: 0, entity: 4, component: 1 };
    assert_eq!(engine.draw_frame(Ok(()), (640, 480)), FrameOutcome::Fatal(unresolved));
    assert_eq!(engine.context.device.calls.len(), before);
    assert_eq!(
        engine.fault_message(&unresolved),
        "the mesh of the model is not resolved; pass 'Pass: Calc Voxel Lightmap'; entity 'Cubes'; \
         mesh 'BeveledCube' of 'cube.obj'"
    );
    assert_eq!(
        engine.fault_message(&RenderError { fault: RenderFault::UnknownMaterial, pass: 3, entity: 0, component: 0 }),
        "the material is not loaded; pass 'Pass: Voxel Texture Generating'; \
         material 'compute_voxel_texture_generating.material'"
    );
    engine.active_camera = String::from("Nobody");
    assert_eq!(
        engine.fault_message(&RenderError { fault: RenderFault::NoActiveCamera, pass: 99, entity: 0, component: 0 }),
        "the active camera is not in the scene; camera 'Nobody'"
    );
}

#[test]
fn update_moves_the_light_and_the_lamp_and_schedules_behaviors() {
    let mut engine = loaded_engine();
    let calls = engine.context.device.calls.len();
    let lamp = Instance { location: (11, 22, 33), rotation: (44, 55, 66, 77), scale: (88, 99, 110) };
    let buffer = engine.scene.root.find_descendant("Lamp Model").unwrap().get_models()[0].instances.instances_buffer;
    let FrameUpdate { writes, steps } = engine.update([11, 22, 33], lamp);
    assert_eq!(engine.scene_lighting.light_uniform.location, [11, 22, 33]);
    assert_eq!(engine.scene_lighting.light_uniform.color.map(f32::from_bits), [1.0, 1.0, 1.0]);
    // Nothing new is made: the record stays as it is, and the work is handed over as writes.
    assert_eq!(engine.context.device.calls.len(), calls);
    assert_eq!(
        writes,
        vec![
            FrameWrite::WriteBuffer {
                buffer: engine.scene_lighting.light_buffer,
                contents: vec![11, 22, 33, 0, 0x3F80_0000, 0x3F80_0000, 0x3F80_0000],
            },
            FrameWrite::RebuildInstanceBuffer { buffer: buffer.unwrap(), instances: vec![lamp] },
        ]
    );
    let model = engine.scene.root.find_descendant("Lamp Model").unwrap().get_models()[0];
    assert_eq!(model.instances.instance_list, vec![lamp]);
    assert_eq!(model.instances.instances_buffer, buffer);
    let cubes = engine.scene.root.find_descendant("Cubes").unwrap().get_models()[0];
    assert_eq!(cubes.instances.instance_list.len(), 100);
    assert_eq!(
        steps,
        vec![
            BehaviorStep::Descend(0),
            BehaviorStep::Ascend,
            BehaviorStep::Descend(1),
            BehaviorStep::Ascend,
            BehaviorStep::Descend(2),
            BehaviorStep::Update(0),
            BehaviorStep::Ascend,
            BehaviorStep::Descend(3),
            BehaviorStep::Ascend,
            BehaviorStep::Descend(4),
            BehaviorStep::Descend(0),
            BehaviorStep::Ascend,
            BehaviorStep::Descend(1),
            BehaviorStep::Ascend,
            BehaviorStep::Ascend,
        ]
    );
}

#[test]
fn updates_do_not_grow_the_record() {
    let mut engine = loaded_engine();
    // A model without an instance buffer gets one from the device, once.
    engine.scene.root.find_descendant_mut("Lamp Model").unwrap().add_component(Component::Model(Model::new((
        "cube.obj",
        "BeveledCube",
    ))));
    let calls = engine.context.device.calls.len();
    let lamp = Instance { location: (1, 2, 3), ..Instance::new() };
    let first = engine.update([1, 2, 3], lamp);
    assert_eq!(engine.context.device.calls.len(), calls + 1);
    assert_eq!(engine.context.device.calls[calls], DeviceCall::CreateInstanceBuffer { instances: vec![lamp] });
    assert_eq!(first.writes.len(), 2);
    let models = engine.scene.root.find_descendant("Lamp Model").unwrap().get_models();
    assert_eq!(models[1].instances.instances_buffer, Some(calls));
    let old_buffer = models[0].instances.instances_buffer.unwrap();
    for frame in 0..100u32 {
        let moved = Instance { location: (frame, 0, 0), ..Instance::new() };
        let update = engine.update([frame, 0, 0], moved);
        assert_eq!(engine.context.device.calls.len(), calls + 1);
        assert_eq!(
            update.writes[1..],
            [
                FrameWrite::RebuildInstanceBuffer { buffer: old_buffer, instances: vec![moved] },
                FrameWrite::RebuildInstanceBuffer { buffer: calls, instances: vec![moved] },
            ]
        );
    }
}

#[test]
fn quad_pass_needs_the_quad_and_a_loaded_shader() {
    let mut engine = Engine::new(config());
    assert_eq!(
        engine.draw_quad("pass_hdr_exposure.material", 3),
        Err(RenderError { fault: RenderFault::MissingBlitQuad, pass: 3, entity: 0, component: 0 })
    );
    engine.load_quad();
    assert_eq!(
        engine.draw_quad("pass_hdr_exposure.material", 3),
        Err(RenderError { fault: RenderFault::UnknownMaterial, pass: 3, entity: 0, component: 0 })
    );
    engine.scene.resources.materials.insert(
        String::from("pass_hdr_exposure.material"),
        seurat::material::Material { shader_id: 4, name: String::from("pass_hdr_exposure.material"), bind_group: 0 },
    );
    assert_eq!(
        engine.draw_quad("pass_hdr_exposure.material", 3),
        Err(RenderError { fault: RenderFault::UnknownShader, pass: 3, entity: 0, component: 0 })
    );
}
