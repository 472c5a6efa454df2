use seurat::camera::{OrthographicProjection, PerspectiveProjection, Projection};
use seurat::component::Component;
use seurat::engine::Engine;
use seurat::gpu::{
    AddressMode, BindGroupEntry, BindingResource, BufferBinding, BufferDescriptor, BufferUsages, DeviceCall,
    SurfaceConfiguration, TextureFormat,
};
use seurat::instance::Instance;
use seurat::load::{EngineLoadError, ModelFile, camera_of};
use seurat::load::materials::{BindingSource, VOXEL_STORAGE_SIZE, VoxelResources};
use seurat::load::textures::{DecodedImage, TextureRequest};
use seurat::load::world::SceneParameters;
use seurat::material::MaterialError;
use seurat::mesh::{MeshMaterial, MeshSource};
use seurat::model::{LoadError, MeshHandle, Model};
use seurat::shader::PipelineType;
use seurat::transform::Transform;

fn config() -> SurfaceConfiguration {
    SurfaceConfiguration { format: TextureFormat::Bgra8UnormSrgb, width: 640, height: 480 }
}

fn mesh(name: &str, maps: (&str, &str, &str)) -> MeshSource {
    MeshSource {
        name: String::from(name),
        vertices: vec![0; 33],
        indices: vec![0, 1, 2],
        material: Some(MeshMaterial {
            diffuse_texture: String::from(maps.0),
            shininess_texture: String::from(maps.1),
            normal_texture: String::from(maps.2),
        }),
    }
}

fn files() -> Vec<ModelFile> {
    vec![
        ModelFile {
            name: String::from("cube.obj"),
            meshes: vec![mesh("BeveledCube", ("cube_albedo.png", "cube_arm.png", "cube_normal.png"))],
        },
        ModelFile {
            name: String::from("sponza_pbr.obj"),
            meshes: vec![
                mesh("Floor", ("floor_albedo.png", "shared_arm.png", "floor_normal.png")),
                mesh("Arch", ("arch_albedo.png", "shared_arm.png", "floor_normal.png")),
            ],
        },
    ]
}

fn image(file: &str, dimensions: (u32, u32)) -> DecodedImage {
    DecodedImage {
        file: String::from(file),
        rgba: vec![9; (dimensions.0 * dimensions.1 * 4) as usize],
        dimensions,
    }
}

fn images() -> Vec<DecodedImage> {
    vec![
        image("cube_albedo.png", (2, 2)),
        image("cube_arm.png", (2, 2)),
        image("cube_normal.png", (2, 2)),
        image("floor_albedo.png", (4, 2)),
        image("shared_arm.png", (2, 2)),
        image("floor_normal.png", (2, 2)),
        image("arch_albedo.png", (1, 1)),
        image("unused.png", (8, 8)),
    ]
}

fn parameters() -> SceneParameters {
    SceneParameters {
        main_projection: PerspectiveProjection::new(640, 480, 1, 2, 3),
        voxel_projection: OrthographicProjection::new(1, 1, 4, 5, 6),
        voxel_camera_transform: Transform::new((1, 2, 3), (4, 5, 6, 7), (8, 9, 10)),
        lamp_instance: Instance { location: (0, 0x4080_0000, 0), ..Instance::new() },
        lamp_behavior: 5,
        cube_instances: [Instance::new(); 100],
    }
}

fn load(engine: &mut Engine, files: &Vec<ModelFile>, images: &Vec<DecodedImage>) -> Result<(), EngineLoadError> {
    engine.load(files, parameters(), &[0u8; 128], images, vec![0u32; 256])
}

fn names<V>(table: &seurat::resource_table::ResourceTable<V>) -> Vec<String> {
    (0..table.len()).map(|index| table.get_index(index).unwrap().0.clone()).collect()
}

#[test]
fn preload_puts_every_mesh_under_its_file_and_name() {
    let mut engine = Engine::new(config());
    let base = engine.context.device.calls.len();
    let names = engine.preload_model_files(&files());
    assert_eq!(names, vec!["cube.obj", "sponza_pbr.obj"]);
    assert_eq!(engine.context.device.calls.len(), base + 6);
    let resources = &engine.scene.resources;
    assert_eq!(resources.mesh_index_of("cube.obj", "BeveledCube"), Some(MeshHandle { file: 0, mesh: 0 }));
    assert_eq!(resources.mesh_index_of("sponza_pbr.obj", "Floor"), Some(MeshHandle { file: 1, mesh: 0 }));
    assert_eq!(resources.mesh_index_of("sponza_pbr.obj", "Arch"), Some(MeshHandle { file: 1, mesh: 1 }));
    assert_eq!(resources.mesh_index_of("cube.obj", "Arch"), None);
    assert_eq!(resources.mesh_index_of("other.obj", "Arch"), None);
    let arch = resources.mesh(MeshHandle { file: 1, mesh: 1 }).unwrap();
    assert_eq!(arch.name, "Arch");
    assert_eq!((arch.vertex_buffer, arch.index_buffer), (base + 4, base + 5));
    assert!(resources.mesh(MeshHandle { file: 1, mesh: 2 }).is_none());
    assert!(resources.mesh(MeshHandle { file: 2, mesh: 0 }).is_none());
}

#[test]
fn mesh_handles_stay_when_more_meshes_are_loaded() {
    let mut engine = Engine::new(config());
    engine.preload_model_files(&files());
    let floor = engine.scene.resources.mesh_index_of("sponza_pbr.obj", "Floor");
    engine.load_quad();
    engine.preload_model_files(&vec![ModelFile {
        name: String::from("sponza_pbr.obj"),
        meshes: vec![mesh("Roof", ("a", "b", "c")), mesh("Floor", ("a", "b", "c"))],
    }]);
    let resources = &engine.scene.resources;
    assert_eq!(resources.mesh_index_of("sponza_pbr.obj", "Floor"), floor);
    assert_eq!(resources.mesh_index_of("BLIT", "QUAD"), Some(MeshHandle { file: 2, mesh: 0 }));
    assert_eq!(resources.mesh_index_of("sponza_pbr.obj", "Roof"), Some(MeshHandle { file: 1, mesh: 2 }));
    assert_eq!(resources.mesh(floor.unwrap()).unwrap().map_albedo.as_deref(), Some("a"));
    assert_eq!(resources.mesh(MeshHandle { file: 2, mesh: 0 }).unwrap().name, "Blit Quad");
}

#[test]
fn scene_has_cameras_lamp_cubes_and_sponza() {
    let mut engine = Engine::new(config());
    engine.preload_model_files(&files());
    let base = engine.context.device.calls.len();
    engine.build_scene(parameters());
    let root = &engine.scene.root;
    let children: Vec<&str> = root.children.iter().map(|child| child.name.as_str()).collect();
    assert_eq!(children, vec!["Main Camera", "Voxel Camera", "Lamp Model", "Cubes", "Sponza"]);
    assert_eq!(engine.context.device.calls.len(), base + 3 + 3 + 1 + 1 + 2);

    let main = camera_of(root, "Main Camera").unwrap();
    assert_eq!(main.projection, Projection::Perspective(PerspectiveProjection::new(640, 480, 1, 2, 3)));
    assert_eq!((main.camera_buffer, main.camera_bind_group_layout, main.camera_bind_group), (base, base + 1, base + 2));
    assert_eq!(root.children[0].transform, Transform::default());
    let voxel = camera_of(root, "Voxel Camera").unwrap();
    assert_eq!(voxel.projection, Projection::Orthographic(OrthographicProjection::new(1, 1, 4, 5, 6)));
    assert_eq!(voxel.camera_buffer, base + 3);
    assert_eq!(root.children[1].transform, Transform::new((1, 2, 3), (4, 5, 6, 7), (8, 9, 10)));
    assert!(camera_of(root, "Lamp Model").is_none());
    assert!(camera_of(root, "Nobody").is_none());

    let lamp = &root.children[2];
    assert_eq!(lamp.components.len(), 2);
    let model = lamp.get_models()[0];
    assert_eq!(model.mesh_name, (String::from("cube.obj"), String::from("BeveledCube")));
    assert_eq!(model.instances.instance_list, vec![parameters().lamp_instance]);
    assert_eq!(model.instances.instances_buffer, Some(base + 6));
    assert_eq!(model.mesh, None);
    assert_eq!(lamp.get_behaviors(), vec![5]);

    let cubes = root.children[3].get_models()[0];
    assert_eq!(cubes.instances.instance_list.len(), 100);
    assert_eq!(cubes.instances.instances_buffer, Some(base + 7));

    let sponza = &root.children[4];
    assert!(sponza.components.is_empty());
    let parts: Vec<&str> = sponza.children.iter().map(|child| child.name.as_str()).collect();
    assert_eq!(parts, vec!["Floor", "Arch"]);
    let arch = sponza.children[1].get_models()[0];
    assert_eq!(arch.mesh_name, (String::from("sponza_pbr.obj"), String::from("Arch")));
    assert_eq!(arch.instances.instance_list, vec![Instance::new()]);
    assert_eq!(arch.instances.instances_buffer, Some(base + 9));
}

#[test]
fn textures_are_requested_once_in_the_order_of_first_use() {
    let mut engine = Engine::new(config());
    let names = engine.preload_model_files(&files());
    let request = |file: &str, format| TextureRequest {
        file: String::from(file),
        format,
        repeat_mode: AddressMode::Repeat,
    };
    assert_eq!(
        engine.texture_requests(&names),
        vec![
            request("cube_albedo.png", TextureFormat::Rgba8UnormSrgb),
            request("cube_arm.png", TextureFormat::Rgba8Unorm),
            request("cube_normal.png", TextureFormat::Rgba8Unorm),
            request("floor_albedo.png", TextureFormat::Rgba8UnormSrgb),
            request("shared_arm.png", TextureFormat::Rgba8Unorm),
            request("floor_normal.png", TextureFormat::Rgba8Unorm),
            request("arch_albedo.png", TextureFormat::Rgba8UnormSrgb),
        ]
    );
    assert_eq!(engine.texture_requests(&vec![String::from("sponza_pbr.obj")]).len(), 4);
    assert!(engine.texture_requests(&vec![String::from("unknown.obj")]).is_empty());
    assert!(engine.texture_requests(&vec![]).is_empty());
}

#[test]
fn loading_in_two_halves_asks_for_the_images_in_between() {
    let mut whole = Engine::new(config());
    load(&mut whole, &files(), &images()).unwrap();

    let mut engine = Engine::new(config());
    let (names, requests) = engine.begin_load(&files(), parameters());
    assert_eq!(names, vec!["cube.obj", "sponza_pbr.obj"]);
    assert_eq!(engine.scene.root.children.len(), 5);
    let wanted: Vec<&str> = requests.iter().map(|request| request.file.as_str()).collect();
    assert_eq!(
        wanted,
        vec![
            "cube_albedo.png",
            "cube_arm.png",
            "cube_normal.png",
            "floor_albedo.png",
            "shared_arm.png",
            "floor_normal.png",
            "arch_albedo.png"
        ]
    );
    // Exactly the images that were asked for are enough.
    let asked: Vec<DecodedImage> =
        images().into_iter().filter(|image| wanted.contains(&image.file.as_str())).collect();
    assert_eq!(asked.len(), 7);
    assert_eq!(engine.finish_load(&names, &[0u8; 128], &asked, vec![0u32; 256]), Ok(()));
    assert_eq!(engine.context.device.calls, whole.context.device.calls);
    assert_eq!(format!("{:?}", engine.scene.root), format!("{:?}", whole.scene.root));

    let mut engine = Engine::new(config());
    let (names, _) = engine.begin_load(&files(), parameters());
    let short: Vec<DecodedImage> = asked.into_iter().skip(1).collect();
    assert_eq!(
        engine.finish_load(&names, &[0u8; 128], &short, vec![0u32; 256]),
        Err(EngineLoadError::MissingImage { file: String::from("cube_albedo.png") })
    );
}

#[test]
fn same_file_in_two_formats_is_requested_twice() {
    let mut engine = Engine::new(config());
    let names = engine.preload_model_files(&vec![ModelFile {
        name: String::from("one.obj"),
        meshes: vec![mesh("M", ("both.png", "both.png", "both.png"))],
    }]);
    let requests = engine.texture_requests(&names);
    let formats: Vec<TextureFormat> = requests.iter().map(|request| request.format).collect();
    assert_eq!(formats, vec![TextureFormat::Rgba8UnormSrgb, TextureFormat::Rgba8Unorm]);
}

#[test]
fn loading_fills_the_tables_in_order() {
    let mut engine = Engine::new(config());
    load(&mut engine, &files(), &images()).unwrap();
    let resources = &engine.scene.resources;
    assert_eq!(
        names(&resources.shaders),
        vec![
            "calc_voxel_lightmap.wgsl",
            "scene_deferred.wgsl",
            "pass_ssao_kernel.wgsl",
            "pass_ssao_blurred.wgsl",
            "pass_pbr_shading.wgsl",
            "compute_voxel_texture_generating.wgsl",
            "pass_hdr_exposure.wgsl",
        ]
    );
    assert_eq!(
        names(&resources.textures),
        vec![
            "SSAO_NOISE",
            "VOXEL_CALCULATION_FRAGMENTS_RENDER_RESOLUTION",
            "cube_albedo.png",
            "cube_arm.png",
            "cube_normal.png",
            "floor_albedo.png",
            "shared_arm.png",
            "floor_normal.png",
            "arch_albedo.png",
        ]
    );
    assert_eq!(
        names(&resources.materials),
        vec![
            "scene_deferred_BeveledCube.material",
            "calc_voxel_lightmap_BeveledCube.material",
            "scene_deferred_Floor.material",
            "calc_voxel_lightmap_Floor.material",
            "scene_deferred_Arch.material",
            "calc_voxel_lightmap_Arch.material",
            "pass_ssao_kernel.material",
            "pass_ssao_blurred.material",
            "pass_pbr_shading.material",
            "compute_voxel_texture_generating.material",
            "pass_hdr_exposure.material",
        ]
    );
    assert_eq!(resources.mesh_index_of("BLIT", "QUAD"), Some(MeshHandle { file: 2, mesh: 0 }));
}

#[test]
fn every_loaded_material_refers_to_the_shader_it_was_built_against() {
    let mut engine = Engine::new(config());
    load(&mut engine, &files(), &images()).unwrap();
    let resources = &engine.scene.resources;
    let shader_of = |material: &str| {
        let (name, material) = resources.materials.get_index(resources.materials.index_of(material).unwrap()).unwrap();
        assert_eq!(name, &material.name);
        assert!(material.shader_id < resources.shaders.len());
        resources.shaders.get_index(material.shader_id).unwrap().0.clone()
    };
    assert_eq!(resources.materials.len(), 11);
    for mesh in ["BeveledCube", "Floor", "Arch"] {
        assert_eq!(shader_of(&format!("scene_deferred_{}.material", mesh)), "scene_deferred.wgsl");
        assert_eq!(shader_of(&format!("calc_voxel_lightmap_{}.material", mesh)), "calc_voxel_lightmap.wgsl");
    }
    for pass in ["pass_ssao_kernel", "pass_ssao_blurred", "pass_pbr_shading", "compute_voxel_texture_generating", "pass_hdr_exposure"] {
        assert_eq!(shader_of(&format!("{}.material", pass)), format!("{}.wgsl", pass));
    }
}

#[test]
fn shaders_take_the_camera_and_the_light_as_planned() {
    let mut engine = Engine::new(config());
    load(&mut engine, &files(), &images()).unwrap();
    let shaders = &engine.scene.resources.shaders;
    let flags: Vec<(bool, bool, usize)> = (0..shaders.len())
        .map(|index| {
            let shader = shaders.get_index(index).unwrap().1;
            (shader.includes_camera, shader.includes_lighting, shader.shader_bindings.len())
        })
        .collect();
    assert_eq!(
        flags,
        vec![
            (false, true, 3),
            (true, true, 4),
            (true, false, 4),
            (false, false, 1),
            (true, true, 5),
            (false, false, 2),
            (false, false, 1),
        ]
    );
    assert!(matches!(shaders.get("pass_hdr_exposure.wgsl").unwrap().pipeline, PipelineType::RenderPipeline(_)));
    assert!(matches!(
        shaders.get("compute_voxel_texture_generating.wgsl").unwrap().pipeline,
        PipelineType::ComputePipeline(_)
    ));
    let hdr = shaders.get("pass_hdr_exposure.wgsl").unwrap();
    match (&hdr.pipeline, &engine.context.device.calls[hdr.pipeline_layout + 2]) {
        (PipelineType::RenderPipeline(pipeline), DeviceCall::CreateRenderPipeline(descriptor)) => {
            assert_eq!(*pipeline, hdr.pipeline_layout + 2);
            assert_eq!(descriptor.targets, vec![TextureFormat::Bgra8UnormSrgb]);
        }
        other => panic!("unexpected pipeline {:?}", other),
    }
}

#[test]
fn loaded_texture_is_written_and_gets_its_mip_chain() {
    let mut engine = Engine::new(config());
    load(&mut engine, &files(), &images()).unwrap();
    let texture = *engine.scene.resources.textures.get("floor_albedo.png").unwrap();
    assert_eq!(texture.format, TextureFormat::Rgba8UnormSrgb);
    assert_eq!((texture.size.width, texture.size.height), (4, 2));
    assert_eq!((texture.view, texture.sampler), (texture.texture + 1, texture.texture + 2));
    let calls = &engine.context.device.calls;
    match &calls[texture.texture] {
        DeviceCall::CreateTexture { label, descriptor } => {
            assert_eq!(label, "floor_albedo.png");
            assert_eq!(descriptor.mip_level_count, 3);
        }
        other => panic!("unexpected call {:?}", other),
    }
    match &calls[texture.texture + 3] {
        DeviceCall::WriteTexture { texture: written, data, layout, .. } => {
            assert_eq!(*written, texture.texture);
            assert_eq!(data.len(), 32);
            assert_eq!(layout.bytes_per_row, Some(16));
            assert_eq!(layout.rows_per_image, Some(2));
        }
        other => panic!("unexpected call {:?}", other),
    }
    assert!(matches!(calls[texture.texture + 4], DeviceCall::CreateShaderModule { .. }));
    let blits = calls[texture.texture..]
        .iter()
        .take(4 + 4 + 3 + 4)
        .filter(|call| matches!(call, DeviceCall::Blit { .. }))
        .count();
    assert_eq!(blits, 2);
    let noise = engine.scene.resources.textures.get("SSAO_NOISE").unwrap();
    assert_eq!(noise.format, TextureFormat::Rgba16Float);
    assert_eq!((noise.size.width, noise.size.height), (4, 4));
    let target = engine.scene.resources.textures.get("VOXEL_CALCULATION_FRAGMENTS_RENDER_RESOLUTION").unwrap();
    assert_eq!((target.size.width, target.size.height), (1920, 1920));
    assert_eq!(target.texture, noise.texture + 4);
}

#[test]
fn materials_of_a_mesh_bind_its_maps_and_the_voxel_light_map() {
    let mut engine = Engine::new(config());
    load(&mut engine, &files(), &images()).unwrap();
    let resources = &engine.scene.resources;
    let calls = &engine.context.device.calls;
    let view_and_sampler = |name: &str| {
        let texture = resources.textures.get(name).unwrap();
        (texture.view, texture.sampler)
    };
    let entry = |binding, resource| BindGroupEntry { binding, resource };

    let deferred = resources.materials.get("scene_deferred_Arch.material").unwrap();
    assert_eq!(Some(deferred.shader_id), resources.shaders.index_of("scene_deferred.wgsl"));
    let (albedo, arm, normal) =
        (view_and_sampler("arch_albedo.png"), view_and_sampler("shared_arm.png"), view_and_sampler("floor_normal.png"));
    let voxels = engine.voxel_light_map.texture;
    match &calls[deferred.bind_group] {
        DeviceCall::CreateBindGroup { layout, entries } => {
            assert_eq!(*layout, resources.shaders.get("scene_deferred.wgsl").unwrap().bind_group_layout);
            assert_eq!(
                entries,
                &vec![
                    entry(0, BindingResource::TextureView(albedo.0)),
                    entry(1, BindingResource::Sampler(albedo.1)),
                    entry(2, BindingResource::TextureView(arm.0)),
                    entry(3, BindingResource::Sampler(arm.1)),
                    entry(4, BindingResource::TextureView(normal.0)),
                    entry(5, BindingResource::Sampler(normal.1)),
                    entry(6, BindingResource::TextureView(voxels.view)),
                    entry(7, BindingResource::Sampler(voxels.sampler)),
                ]
            );
        }
        other => panic!("unexpected call {:?}", other),
    }

    let voxel = resources.materials.get("calc_voxel_lightmap_Arch.material").unwrap();
    let first_material = resources.materials.get_index(0).unwrap().1.bind_group;
    let (samples, storage) = (first_material - 2, first_material - 1);
    assert_eq!(
        calls[storage],
        DeviceCall::CreateBuffer(BufferDescriptor {
            size: VOXEL_STORAGE_SIZE,
            usage: BufferUsages {
                copy_src: true,
                copy_dst: true,
                index: false,
                vertex: false,
                uniform: false,
                storage: true
            },
        })
    );
    assert_eq!(VOXEL_STORAGE_SIZE, 128 * 128 * 128 * 4 * 4);
    assert!(matches!(&calls[samples], DeviceCall::CreateBufferInit { contents, .. } if contents.len() == 256));
    let camera = camera_of(&engine.scene.root, "Voxel Camera").unwrap().camera_buffer;
    match &calls[voxel.bind_group] {
        DeviceCall::CreateBindGroup { entries, .. } => {
            assert_eq!(
                entries,
                &vec![
                    entry(0, BindingResource::Buffer(BufferBinding::entire(camera))),
                    entry(1, BindingResource::TextureView(albedo.0)),
                    entry(2, BindingResource::Sampler(albedo.1)),
                    entry(3, BindingResource::Buffer(BufferBinding::entire(storage))),
                ]
            );
        }
        other => panic!("unexpected call {:?}", other),
    }

    let compute = resources.materials.get("compute_voxel_texture_generating.material").unwrap();
    match &calls[compute.bind_group] {
        DeviceCall::CreateBindGroup { entries, .. } => {
            assert_eq!(
                entries,
                &vec![
                    entry(0, BindingResource::TextureView(engine.voxel_light_map.storage_texture_view)),
                    entry(1, BindingResource::Buffer(BufferBinding::entire(storage))),
                ]
            );
        }
        other => panic!("unexpected call {:?}", other),
    }
}

#[test]
fn material_definitions_list_meshes_first_and_passes_last() {
    let mut engine = Engine::new(config());
    let names = engine.preload_model_files(&files());
    let voxel = VoxelResources { texture: engine.voxel_light_map.texture, storage: 71, camera: 72 };
    let definitions = engine.material_definitions(&names, voxel, 70);
    assert_eq!(definitions.len(), 6 + 5);
    assert_eq!(definitions[2].name, "scene_deferred_Floor.material");
    assert_eq!(definitions[2].shader, "scene_deferred.wgsl");
    assert_eq!(
        definitions[3].bindings,
        vec![
            BindingSource::Buffer(BufferBinding::entire(72)),
            BindingSource::TextureName(String::from("floor_albedo.png")),
            BindingSource::Buffer(BufferBinding::entire(71)),
        ]
    );
    assert_eq!(definitions[6].name, "pass_ssao_kernel.material");
    assert_eq!(definitions[6].bindings[0], BindingSource::Buffer(BufferBinding::entire(70)));
    assert_eq!(definitions[6].bindings[1], BindingSource::TextureName(String::from("SSAO_NOISE")));
    assert_eq!(
        definitions[9].bindings[0],
        BindingSource::StorageTexture(engine.voxel_light_map.texture, Some(engine.voxel_light_map.storage_texture_view))
    );
    assert_eq!(definitions[10].bindings, vec![BindingSource::Texture(engine.frame_textures.pbr_shaded_map.texture)]);
}

#[test]
fn models_of_the_scene_are_resolved() {
    let mut engine = Engine::new(config());
    load(&mut engine, &files(), &images()).unwrap();
    let resources = &engine.scene.resources;
    let sponza = engine.scene.root.find_descendant("Sponza").unwrap();
    let arch = sponza.children[1].get_models()[0];
    assert_eq!(arch.mesh, resources.mesh_index_of("sponza_pbr.obj", "Arch"));
    assert_eq!(arch.scene_deferred_material, resources.materials.index_of("scene_deferred_Arch.material"));
    assert_eq!(arch.voxel_lightmap_material, resources.materials.index_of("calc_voxel_lightmap_Arch.material"));
    let lamp = engine.scene.root.find_descendant("Lamp Model").unwrap().get_models()[0];
    assert_eq!(lamp.mesh, Some(MeshHandle { file: 0, mesh: 0 }));
    assert_eq!(lamp.scene_deferred_material, Some(0));
    assert_eq!(lamp.voxel_lightmap_material, Some(1));
}

#[test]
fn missing_image_stops_the_loading_and_is_named() {
    let mut engine = Engine::new(config());
    let mut some = images();
    some.retain(|image| image.file != "shared_arm.png");
    assert_eq!(
        load(&mut engine, &files(), &some),
        Err(EngineLoadError::MissingImage { file: String::from("shared_arm.png") })
    );
    assert_eq!(engine.scene.resources.textures.len(), 0);
    assert_eq!(engine.scene.resources.materials.len(), 0);
    assert_eq!(engine.scene.resources.shaders.len(), 7);
}

#[test]
fn image_without_pixels_stops_the_loading_and_is_named() {
    let mut engine = Engine::new(config());
    let mut some = images();
    some[3].dimensions = (0, 2);
    assert_eq!(
        load(&mut engine, &files(), &some),
        Err(EngineLoadError::InvalidImage { file: String::from("floor_albedo.png") })
    );
    assert_eq!(engine.scene.resources.textures.len(), 0);
    let mut huge = images();
    huge[0].dimensions = (0x10000, 0x10000);
    let mut engine = Engine::new(config());
    assert_eq!(
        load(&mut engine, &files(), &huge),
        Err(EngineLoadError::InvalidImage { file: String::from("cube_albedo.png") })
    );
}

#[test]
fn mesh_without_maps_cannot_get_its_material() {
    let mut engine = Engine::new(config());
    let mut bare = files();
    bare[1].meshes[1].material = None;
    assert_eq!(
        load(&mut engine, &bare, &images()),
        Err(EngineLoadError::Material(MaterialError::BindingMismatch {
            material: String::from("scene_deferred_Arch.material")
        }))
    );
    let built: Vec<String> = names(&engine.scene.resources.materials);
    assert_eq!(built.len(), 4);
    assert_eq!(built[3], "calc_voxel_lightmap_Floor.material");
}

#[test]
fn resources_need_both_cameras() {
    let mut engine = Engine::new(config());
    let names = engine.preload_model_files(&files());
    let calls = engine.context.device.calls.len();
    assert_eq!(
        engine.load_resources(&names, &[0u8; 128], &images(), vec![0; 256]),
        Err(EngineLoadError::MissingCamera { entity: String::from("Main Camera") })
    );
    assert_eq!(engine.load_shaders(), Err(EngineLoadError::MissingCamera { entity: String::from("Main Camera") }));
    engine.scene.root.new_child("Main Camera").add_component(Component::Camera(seurat::camera::Camera::new(
        &mut engine.context.device,
        Projection::Perspective(PerspectiveProjection::new(1, 1, 0, 0, 0)),
    )));
    let calls = calls + 3;
    assert_eq!(
        engine.load_resources(&names, &[0u8; 128], &images(), vec![0; 256]),
        Err(EngineLoadError::MissingCamera { entity: String::from("Voxel Camera") })
    );
    assert_eq!(engine.context.device.calls.len(), calls);
    assert_eq!(
        engine.load_materials(&names, vec![0; 256]),
        Err(EngineLoadError::MissingCamera { entity: String::from("Voxel Camera") })
    );
    assert_eq!(engine.context.device.calls.len(), calls);
    assert_eq!(engine.scene.resources.mesh_index_of("BLIT", "QUAD"), None);
}

#[test]
fn model_of_an_unknown_mesh_fails_the_loading() {
    let mut engine = Engine::new(config());
    engine.scene.root.new_child("Stray").add_component(Component::Model(Model::new(("cube.obj", "Sphere"))));
    assert_eq!(
        load(&mut engine, &files(), &images()),
        Err(EngineLoadError::Model(LoadError::UnknownMesh {
            file: String::from("cube.obj"),
            mesh: String::from("Sphere")
        }))
    );
    // The scene stays as it was built: no model is resolved.
    let lamp = engine.scene.root.find_descendant("Lamp Model").unwrap().get_models()[0];
    assert_eq!(lamp.mesh, None);
    assert_eq!(engine.scene.resources.materials.len(), 11);
}

#[test]
fn check_images_reports_the_first_failure() {
    let requests = vec![
        TextureRequest { file: String::from("a.png"), format: TextureFormat::Rgba8Unorm, repeat_mode: AddressMode::Repeat },
        TextureRequest { file: String::from("b.png"), format: TextureFormat::Rgba8Unorm, repeat_mode: AddressMode::Repeat },
    ];
    assert_eq!(Engine::check_images(&requests, &vec![image("a.png", (1, 1)), image("b.png", (1, 1))]), None);
    assert_eq!(
        Engine::check_images(&requests, &vec![image("b.png", (1, 1))]),
        Some(EngineLoadError::MissingImage { file: String::from("a.png") })
    );
    assert_eq!(
        Engine::check_images(&requests, &vec![image("a.png", (1, 1)), image("b.png", (1, 0)), image("b.png", (1, 1))]),
        Some(EngineLoadError::InvalidImage { file: String::from("b.png") })
    );
    assert_eq!(Engine::check_images(&vec![], &vec![]), None);
}
