use seurat::gpu::{
    AddressMode, BindGroupEntry, BindingResource, CompareFunction, Device, DeviceCall, Extent3d, FilterMode,
    ImageDataLayout, PrimitiveTopology, ShaderSource, TextureDimension, TextureFormat, TextureUsages,
    TextureViewDescriptor,
};
use seurat::load::textures::DecodedImage;
use seurat::texture::{fits, Texture};
use seurat::voxel_texture::VoxelTexture;

fn mip_level_count(device: &Device, handle: usize) -> u32 {
    match &device.calls[handle] {
        DeviceCall::CreateTexture { descriptor, .. } => descriptor.mip_level_count,
        other => panic!("unexpected call {:?}", other),
    }
}

#[test]
fn mip_chain_is_as_long_as_the_largest_side_has_binary_digits() {
    let mut device = Device::new();
    for (dimensions, levels) in [((1, 1), 1), ((60, 60), 6), ((240, 1), 8), ((1920, 1920), 11), ((4, 4), 3), ((256, 3), 9)] {
        let texture =
            Texture::from_dimensions(&mut device, dimensions, "t", TextureFormat::Rgba8Unorm, AddressMode::Repeat);
        assert_eq!(mip_level_count(&device, texture.texture), levels);
    }
}

#[test]
fn flat_texture_without_pixels_still_has_one_layer_to_count() {
    let mut device = Device::new();
    let texture = Texture::from_dimensions(&mut device, (0, 0), "t", TextureFormat::Rgba8Unorm, AddressMode::Repeat);
    assert_eq!(texture.size, Extent3d { width: 0, height: 0, depth_or_array_layers: 1 });
    assert_eq!(mip_level_count(&device, texture.texture), 1);
}

#[test]
fn from_dimensions_records_texture_view_and_sampler() {
    let mut device = Device::new();
    let texture = Texture::from_dimensions(
        &mut device,
        (16, 8),
        "VOXEL_CALCULATION_FRAGMENTS_RENDER_RESOLUTION",
        TextureFormat::Rgba16Float,
        AddressMode::Repeat,
    );
    assert_eq!(
        texture,
        Texture {
            texture: 0,
            view: 1,
            sampler: 2,
            format: TextureFormat::Rgba16Float,
            size: Extent3d { width: 16, height: 8, depth_or_array_layers: 1 },
        }
    );
    assert_eq!(device.calls.len(), 3);
    match &device.calls[0] {
        DeviceCall::CreateTexture { label, descriptor } => {
            assert_eq!(label, "VOXEL_CALCULATION_FRAGMENTS_RENDER_RESOLUTION");
            assert_eq!(descriptor.size, texture.size);
            assert_eq!(descriptor.mip_level_count, 5);
            assert_eq!(descriptor.sample_count, 1);
            assert_eq!(descriptor.dimension, TextureDimension::D2);
            assert_eq!(descriptor.format, TextureFormat::Rgba16Float);
            assert_eq!(
                descriptor.usage,
                TextureUsages {
                    copy_src: false,
                    copy_dst: true,
                    texture_binding: true,
                    storage_binding: false,
                    render_attachment: true,
                }
            );
        }
        other => panic!("unexpected call {:?}", other),
    }
    assert_eq!(
        device.calls[1],
        DeviceCall::CreateView(TextureViewDescriptor { texture: 0, base_mip_level: 0, mip_level_count: None })
    );
    match &device.calls[2] {
        DeviceCall::CreateSampler(sampler) => {
            assert_eq!(sampler.address_mode_u, AddressMode::Repeat);
            assert_eq!(sampler.address_mode_v, AddressMode::Repeat);
            assert_eq!(sampler.address_mode_w, AddressMode::Repeat);
            assert_eq!(sampler.mag_filter, FilterMode::Linear);
            assert_eq!(sampler.min_filter, FilterMode::Linear);
            assert_eq!(sampler.mipmap_filter, FilterMode::Linear);
            assert_eq!(sampler.compare, None);
            assert_eq!(sampler.lod_min_clamp, 0);
            assert_eq!(sampler.lod_max_clamp, None);
        }
        other => panic!("unexpected call {:?}", other),
    }
}

#[test]
fn rgba_data_is_written_row_by_row() {
    let mut device = Device::new();
    let data = vec![7u8; 3 * 2 * 4];
    let texture =
        Texture::from_rgba_data(&mut device, &data, (3, 2), "pixels", TextureFormat::Rgba8Unorm, AddressMode::ClampToEdge);
    assert_eq!(device.calls.len(), 4);
    assert_eq!(
        device.calls[3],
        DeviceCall::WriteTexture {
            texture: texture.texture,
            data: data.clone(),
            layout: ImageDataLayout { offset: 0, bytes_per_row: Some(12), rows_per_image: Some(2) },
            size: Extent3d { width: 3, height: 2, depth_or_array_layers: 1 },
        }
    );
}

#[test]
fn wider_channels_give_longer_rows() {
    let mut device = Device::new();
    let data = vec![0u8; 4 * 4 * 4 * 2];
    Texture::from_rgba_data(&mut device, &data, (4, 4), "SSAO_NOISE", TextureFormat::Rgba16Float, AddressMode::Repeat);
    match &device.calls[3] {
        DeviceCall::WriteTexture { layout, .. } => {
            assert_eq!(*layout, ImageDataLayout { offset: 0, bytes_per_row: Some(32), rows_per_image: Some(4) });
        }
        other => panic!("unexpected call {:?}", other),
    }
}

#[test]
fn too_little_data_gives_no_row_length() {
    let mut device = Device::new();
    let data = vec![0u8; 8];
    Texture::from_rgba_data(&mut device, &data, (4, 4), "short", TextureFormat::Rgba8Unorm, AddressMode::Repeat);
    match &device.calls[3] {
        DeviceCall::WriteTexture { layout, .. } => {
            assert_eq!(*layout, ImageDataLayout { offset: 0, bytes_per_row: None, rows_per_image: Some(4) });
        }
        other => panic!("unexpected call {:?}", other),
    }
}

#[test]
fn mipmaps_are_filled_level_by_level() {
    let mut device = Device::new();
    let mut texture =
        Texture::from_dimensions(&mut device, (4, 4), "t", TextureFormat::Rgba8UnormSrgb, AddressMode::Repeat);
    let before = texture;
    texture.generate_mipmaps(&mut device);
    assert_eq!(texture, before);
    // Three levels: shader, pipeline, layout, sampler, three views, and two fills of two calls.
    assert_eq!(device.calls.len(), 3 + 4 + 3 + 4);
    assert_eq!(device.calls[3], DeviceCall::CreateShaderModule { source: ShaderSource::MipmapBlit });
    match &device.calls[4] {
        DeviceCall::CreateRenderPipeline(descriptor) => {
            assert_eq!(descriptor.layout, None);
            assert_eq!(descriptor.module, 3);
            assert_eq!(descriptor.vertex_entry_point, "vs_main");
            assert_eq!(descriptor.fragment_entry_point, "fs_main");
            assert!(descriptor.buffers.is_empty());
            assert_eq!(descriptor.targets, vec![TextureFormat::Rgba8UnormSrgb]);
            assert_eq!(descriptor.topology, PrimitiveTopology::TriangleStrip);
            assert_eq!(descriptor.cull_mode, None);
            assert_eq!(descriptor.depth_stencil, None);
        }
        other => panic!("unexpected call {:?}", other),
    }
    assert_eq!(device.calls[5], DeviceCall::GetBindGroupLayout { pipeline: 4, index: 0 });
    match &device.calls[6] {
        DeviceCall::CreateSampler(sampler) => {
            assert_eq!(sampler.address_mode_u, AddressMode::ClampToEdge);
            assert_eq!(sampler.mag_filter, FilterMode::Linear);
            assert_eq!(sampler.min_filter, FilterMode::Nearest);
            assert_eq!(sampler.mipmap_filter, FilterMode::Nearest);
        }
        other => panic!("unexpected call {:?}", other),
    }
    for level in 0..3u32 {
        assert_eq!(
            device.calls[7 + level as usize],
            DeviceCall::CreateView(TextureViewDescriptor {
                texture: 0,
                base_mip_level: level,
                mip_level_count: Some(1),
            })
        );
    }
    for target in 1..3usize {
        let group = 10 + 2 * (target - 1);
        assert_eq!(
            device.calls[group],
            DeviceCall::CreateBindGroup {
                layout: 5,
                entries: vec![
                    BindGroupEntry { binding: 0, resource: BindingResource::TextureView(7 + target - 1) },
                    BindGroupEntry { binding: 1, resource: BindingResource::Sampler(6) },
                ],
            }
        );
        assert_eq!(device.calls[group + 1], DeviceCall::Blit { pipeline: 4, bind_group: group, target: 7 + target });
    }
}

#[test]
fn single_level_texture_needs_no_fill() {
    let mut device = Device::new();
    let mut texture = Texture::from_dimensions(&mut device, (1, 1), "t", TextureFormat::Rgba8Unorm, AddressMode::Repeat);
    texture.generate_mipmaps(&mut device);
    assert_eq!(device.calls.len(), 3 + 4 + 1);
}

#[test]
fn voxel_texture_is_a_volume_with_a_storage_view() {
    let mut device = Device::new();
    let voxels = VoxelTexture::new(
        &mut device,
        (128, 64, 32),
        TextureFormat::Rgba8Unorm,
        "Voxel Light Map (u32)",
        Some(CompareFunction::Less),
    );
    let size = Extent3d { width: 128, height: 64, depth_or_array_layers: 32 };
    assert_eq!(voxels.texture, Texture { texture: 0, view: 1, sampler: 2, format: TextureFormat::Rgba8Unorm, size });
    assert_eq!(voxels.storage_texture_view, 3);
    assert_eq!(voxels.size, size);
    assert_eq!(voxels.format, TextureFormat::Rgba8Unorm);
    assert_eq!(voxels.label, "Voxel Light Map (u32)");
    assert_eq!(voxels.compare, Some(CompareFunction::Less));
    assert_eq!(device.calls.len(), 4);
    match &device.calls[0] {
        DeviceCall::CreateTexture { descriptor, .. } => {
            assert_eq!(descriptor.dimension, TextureDimension::D3);
            assert_eq!(descriptor.mip_level_count, 1);
            assert_eq!(
                descriptor.usage,
                TextureUsages {
                    copy_src: false,
                    copy_dst: false,
                    texture_binding: true,
                    storage_binding: true,
                    render_attachment: false,
                }
            );
        }
        other => panic!("unexpected call {:?}", other),
    }
    match &device.calls[2] {
        DeviceCall::CreateSampler(sampler) => {
            assert_eq!(sampler.mipmap_filter, FilterMode::Linear);
            assert_eq!(sampler.compare, Some(CompareFunction::Less));
            assert_eq!(sampler.lod_min_clamp, -100);
            assert_eq!(sampler.lod_max_clamp, Some(100));
        }
        other => panic!("unexpected call {:?}", other),
    }
    assert_eq!(
        device.calls[3],
        DeviceCall::CreateView(TextureViewDescriptor { texture: 0, base_mip_level: 0, mip_level_count: Some(1) })
    );
}

/// A PNG file of two pixels side by side: opaque red, and green at half opacity.
const TWO_PIXELS: [u8; 72] = [
    137, 80, 78, 71, 13, 10, 26, 10, 0, 0, 0, 13, 73, 72, 68, 82, 0, 0, 0, 2, 0, 0, 0, 1, 8, 6, 0, 0, 0, 244,
    34, 127, 138, 0, 0, 0, 15, 73, 68, 65, 84, 120, 156, 99, 248, 207, 192, 240, 31, 8, 27, 0, 16, 121, 3,
    126, 125, 99, 206, 215, 0, 0, 0, 0, 73, 69, 78, 68, 174, 66, 96, 130,
];

#[test]
fn pixels_of_a_decoded_file_make_a_texture() {
    let image = image::load_from_memory(&TWO_PIXELS).unwrap();
    let (width, height) = image::GenericImageView::dimensions(&image);
    let decoded = DecodedImage { file: String::from("two.png"), rgba: image.to_rgba8().into_raw(), dimensions: (width, height) };
    assert_eq!(decoded.rgba, vec![255, 0, 0, 255, 0, 255, 0, 128]);
    assert!(fits(decoded.rgba.len(), decoded.dimensions));
    let mut device = Device::new();
    let texture = Texture::from_rgba_data(
        &mut device,
        &decoded.rgba,
        decoded.dimensions,
        "two pixels",
        TextureFormat::Rgba8UnormSrgb,
        AddressMode::Repeat,
    );
    assert_eq!(texture.size, Extent3d { width: 2, height: 1, depth_or_array_layers: 1 });
    assert_eq!(texture.format, TextureFormat::Rgba8UnormSrgb);
    assert_eq!(device.calls.len(), 4);
    assert_eq!(
        device.calls[3],
        DeviceCall::WriteTexture {
            texture: texture.texture,
            data: vec![255, 0, 0, 255, 0, 255, 0, 128],
            layout: ImageDataLayout { offset: 0, bytes_per_row: Some(8), rows_per_image: Some(1) },
            size: texture.size,
        }
    );
}

#[test]
fn fits_wants_pixels_and_thirty_two_bit_sizes() {
    assert!(fits(16, (2, 2)));
    assert!(fits(0, (1, 1)));
    assert!(!fits(16, (0, 2)));
    assert!(!fits(16, (2, 0)));
    assert!(!fits(16, (0x10000, 0x10000)));
    assert!(!fits(16, (0x4000_0000, 1)));
    assert!(fits(16, (0x3FFF_FFFF, 1)));
    assert!(fits(0xFFFF_FFFF, (1, 1)));
}
