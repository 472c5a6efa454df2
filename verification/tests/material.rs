use seurat::gpu::{
    AddressMode, BindGroupEntry, BindingResource, BufferBinding, Device, DeviceCall, TextureFormat,
};
use seurat::material::{bind_group_entries, Material, MaterialDataBinding, MaterialError};
use seurat::scene::LoadedResources;
use seurat::shader::{
    ComputePipelineOptions, PipelineOptions, Shader, ShaderBinding, ShaderBindingBuffer, ShaderBindingTexture,
};
use seurat::texture::Texture;

fn buffer() -> ShaderBinding {
    ShaderBinding::Buffer(ShaderBindingBuffer::default())
}

fn texture() -> ShaderBinding {
    ShaderBinding::Texture(ShaderBindingTexture::default())
}

fn storage() -> ShaderBinding {
    ShaderBinding::StorageTexture(ShaderBindingTexture::default(), TextureFormat::Rgba8Unorm)
}

fn resources_with(device: &mut Device, bindings: Vec<ShaderBinding>, textures: &[&str]) -> LoadedResources {
    let mut resources = LoadedResources::new();
    let shader =
        Shader::new(device, "test.wgsl", bindings, PipelineOptions::ComputePipeline(ComputePipelineOptions {}));
    resources.shaders.insert(String::from("test.wgsl"), shader);
    for name in textures {
        let loaded = Texture::from_dimensions(device, (8, 8), name, TextureFormat::Rgba8Unorm, AddressMode::Repeat);
        resources.textures.insert(String::from(*name), loaded);
    }
    resources
}

#[test]
fn material_with_named_textures_has_five_entries() {
    let mut device = Device::new();
    let resources = resources_with(&mut device, vec![texture(), texture(), buffer()], &["albedo", "arm"]);
    let albedo = *resources.textures.get("albedo").unwrap();
    let arm = *resources.textures.get("arm").unwrap();
    let b = BufferBinding::entire(42);
    let base = device.calls.len();
    let material = Material::new(
        "stone.material",
        "test.wgsl",
        vec![
            MaterialDataBinding::TextureName("albedo"),
            MaterialDataBinding::TextureName("arm"),
            MaterialDataBinding::Buffer(b),
        ],
        &resources,
        &mut device,
    )
    .unwrap();
    assert_eq!(material.name, "stone.material");
    assert_eq!(material.shader_id, 0);
    assert_eq!(material.bind_group, base);
    assert_eq!(device.calls.len(), base + 1);
    match &device.calls[base] {
        DeviceCall::CreateBindGroup { layout, entries } => {
            assert_eq!(*layout, resources.shaders.get("test.wgsl").unwrap().bind_group_layout);
            assert_eq!(entries.len(), 5);
            let slots: Vec<u32> = entries.iter().map(|entry| entry.binding).collect();
            assert_eq!(slots, vec![0, 1, 2, 3, 4]);
            assert_eq!(
                entries,
                &vec![
                    BindGroupEntry { binding: 0, resource: BindingResource::TextureView(albedo.view) },
                    BindGroupEntry { binding: 1, resource: BindingResource::Sampler(albedo.sampler) },
                    BindGroupEntry { binding: 2, resource: BindingResource::TextureView(arm.view) },
                    BindGroupEntry { binding: 3, resource: BindingResource::Sampler(arm.sampler) },
                    BindGroupEntry { binding: 4, resource: BindingResource::Buffer(b) },
                ]
            );
        }
        other => panic!("unexpected call {:?}", other),
    }
}

#[test]
fn material_with_missing_texture_names_it() {
    let mut device = Device::new();
    let resources = resources_with(&mut device, vec![texture(), texture(), buffer()], &["albedo"]);
    let base = device.calls.len();
    let error = Material::new(
        "stone.material",
        "test.wgsl",
        vec![
            MaterialDataBinding::TextureName("albedo"),
            MaterialDataBinding::TextureName("arm"),
            MaterialDataBinding::Buffer(BufferBinding::entire(42)),
        ],
        &resources,
        &mut device,
    )
    .unwrap_err();
    assert_eq!(
        error,
        MaterialError::UnknownTexture { material: String::from("stone.material"), texture: String::from("arm") }
    );
    let message = error.message();
    assert!(message.contains("arm"));
    assert!(message.contains("stone.material"));
    assert_eq!(device.calls.len(), base);
}

#[test]
fn too_few_bindings_fail() {
    let mut device = Device::new();
    let resources = resources_with(&mut device, vec![texture(), buffer()], &["albedo"]);
    let error = Material::new(
        "short.material",
        "test.wgsl",
        vec![MaterialDataBinding::TextureName("albedo")],
        &resources,
        &mut device,
    )
    .unwrap_err();
    assert_eq!(error, MaterialError::BindingMismatch { material: String::from("short.material") });
    assert_eq!(
        error.message(),
        "Provided binding data for material 'short.material' does not match the shader definition"
    );
}

#[test]
fn too_many_bindings_fail() {
    let mut device = Device::new();
    let resources = resources_with(&mut device, vec![buffer()], &[]);
    let error = Material::new(
        "long.material",
        "test.wgsl",
        vec![
            MaterialDataBinding::Buffer(BufferBinding::entire(1)),
            MaterialDataBinding::Buffer(BufferBinding::entire(2)),
        ],
        &resources,
        &mut device,
    )
    .unwrap_err();
    assert_eq!(error, MaterialError::BindingMismatch { material: String::from("long.material") });
}

#[test]
fn buffer_where_texture_is_declared_fails() {
    let mut device = Device::new();
    let resources = resources_with(&mut device, vec![texture()], &[]);
    let base = device.calls.len();
    let error = Material::new(
        "wrong.material",
        "test.wgsl",
        vec![MaterialDataBinding::Buffer(BufferBinding::entire(1))],
        &resources,
        &mut device,
    )
    .unwrap_err();
    assert_eq!(error, MaterialError::BindingMismatch { material: String::from("wrong.material") });
    assert_eq!(device.calls.len(), base);
}

#[test]
fn texture_where_buffer_is_declared_fails() {
    let mut device = Device::new();
    let resources = resources_with(&mut device, vec![buffer()], &["albedo"]);
    let albedo = *resources.textures.get("albedo").unwrap();
    for binding in [
        MaterialDataBinding::Texture(&albedo),
        MaterialDataBinding::TextureName("albedo"),
        MaterialDataBinding::SampleableDepthTexture(&albedo, 3),
        MaterialDataBinding::StorageTexture(&albedo, None),
    ] {
        let error = Material::new("wrong.material", "test.wgsl", vec![binding], &resources, &mut device).unwrap_err();
        assert_eq!(error, MaterialError::BindingMismatch { material: String::from("wrong.material") });
    }
}

#[test]
fn unknown_shader_is_reported() {
    let mut device = Device::new();
    let resources = resources_with(&mut device, vec![buffer()], &[]);
    let error = Material::new("m.material", "other.wgsl", vec![], &resources, &mut device).unwrap_err();
    assert_eq!(
        error,
        MaterialError::UnknownShader { material: String::from("m.material"), shader: String::from("other.wgsl") }
    );
    assert_eq!(error.message(), "The shader 'other.wgsl' of material 'm.material' is not loaded");
}

#[test]
fn texture_slot_takes_its_resources_from_each_kind_of_binding() {
    let mut device = Device::new();
    let resources = resources_with(&mut device, vec![texture(), texture(), texture()], &["named"]);
    let named = *resources.textures.get("named").unwrap();
    let plain = Texture { texture: 100, view: 101, sampler: 102, ..named };
    let depth = Texture { texture: 200, view: 201, sampler: 202, ..named };
    let shader = resources.shaders.get("test.wgsl").unwrap();
    let entries = bind_group_entries(
        "m.material",
        shader,
        vec![
            MaterialDataBinding::Texture(&plain),
            MaterialDataBinding::SampleableDepthTexture(&depth, 999),
            MaterialDataBinding::TextureName("named"),
        ],
        &resources,
    )
    .unwrap();
    assert_eq!(
        entries,
        vec![
            BindGroupEntry { binding: 0, resource: BindingResource::TextureView(101) },
            BindGroupEntry { binding: 1, resource: BindingResource::Sampler(102) },
            BindGroupEntry { binding: 2, resource: BindingResource::TextureView(201) },
            BindGroupEntry { binding: 3, resource: BindingResource::Sampler(999) },
            BindGroupEntry { binding: 4, resource: BindingResource::TextureView(named.view) },
            BindGroupEntry { binding: 5, resource: BindingResource::Sampler(named.sampler) },
        ]
    );
}

#[test]
fn storage_texture_where_texture_is_declared_fails() {
    let mut device = Device::new();
    let resources = resources_with(&mut device, vec![texture()], &["albedo"]);
    let albedo = *resources.textures.get("albedo").unwrap();
    let base = device.calls.len();
    for binding in [
        MaterialDataBinding::StorageTexture(&albedo, Some(777)),
        MaterialDataBinding::StorageTexture(&albedo, None),
        MaterialDataBinding::Buffer(BufferBinding::entire(1)),
    ] {
        let error = Material::new("wrong.material", "test.wgsl", vec![binding], &resources, &mut device).unwrap_err();
        assert_eq!(error, MaterialError::BindingMismatch { material: String::from("wrong.material") });
    }
    assert_eq!(device.calls.len(), base);
}

#[test]
fn only_a_storage_texture_fills_a_declared_storage_texture() {
    let mut device = Device::new();
    let resources = resources_with(&mut device, vec![storage()], &["albedo"]);
    let albedo = *resources.textures.get("albedo").unwrap();
    let base = device.calls.len();
    for binding in [
        MaterialDataBinding::Texture(&albedo),
        MaterialDataBinding::TextureName("albedo"),
        MaterialDataBinding::TextureName("missing"),
        MaterialDataBinding::SampleableDepthTexture(&albedo, 3),
        MaterialDataBinding::Buffer(BufferBinding::entire(1)),
    ] {
        let error = Material::new("wrong.material", "test.wgsl", vec![binding], &resources, &mut device).unwrap_err();
        assert_eq!(error, MaterialError::BindingMismatch { material: String::from("wrong.material") });
    }
    assert_eq!(device.calls.len(), base);
    let material = Material::new(
        "right.material",
        "test.wgsl",
        vec![MaterialDataBinding::StorageTexture(&albedo, None)],
        &resources,
        &mut device,
    )
    .unwrap();
    assert_eq!(material.bind_group, base);
}

#[test]
fn storage_texture_slot_uses_the_storage_view_or_the_default_view() {
    let mut device = Device::new();
    let resources = resources_with(&mut device, vec![storage(), storage(), buffer()], &[]);
    let volume =
        Texture::from_dimensions(&mut device, (4, 4), "volume", TextureFormat::Rgba8Unorm, AddressMode::Repeat);
    let shader = resources.shaders.get("test.wgsl").unwrap();
    let entries = bind_group_entries(
        "m.material",
        shader,
        vec![
            MaterialDataBinding::StorageTexture(&volume, Some(555)),
            MaterialDataBinding::StorageTexture(&volume, None),
            MaterialDataBinding::Buffer(BufferBinding { buffer: 9, offset: 16, size: Some(32) }),
        ],
        &resources,
    )
    .unwrap();
    assert_eq!(
        entries,
        vec![
            BindGroupEntry { binding: 0, resource: BindingResource::TextureView(555) },
            BindGroupEntry { binding: 1, resource: BindingResource::TextureView(volume.view) },
            BindGroupEntry {
                binding: 2,
                resource: BindingResource::Buffer(BufferBinding { buffer: 9, offset: 16, size: Some(32) }),
            },
        ]
    );
}

#[test]
fn first_offending_position_decides_the_error() {
    let mut device = Device::new();
    let resources = resources_with(&mut device, vec![texture(), buffer()], &[]);
    let shader = resources.shaders.get("test.wgsl").unwrap();
    let error = bind_group_entries(
        "m.material",
        shader,
        vec![MaterialDataBinding::TextureName("gone"), MaterialDataBinding::TextureName("gone too")],
        &resources,
    )
    .unwrap_err();
    assert_eq!(
        error,
        MaterialError::UnknownTexture { material: String::from("m.material"), texture: String::from("gone") }
    );
}
