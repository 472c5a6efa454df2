//! The three-dimensional texture that holds the voxel light map.

use crate::frame_texture::{LOD_MAX_CLAMP, LOD_MIN_CLAMP};
use crate::gpu::{
    AddressMode, CompareFunction, Device, DeviceCall, DeviceCallView, Extent3d, FilterMode, SamplerDescriptor,
    TextureDescriptor, TextureDimension, TextureFormat, TextureUsages, TextureViewDescriptor,
};
use crate::texture::Texture;
use vstd::prelude::*;
use vstd::string::StringExecFns;

verus! {

/// A volume texture that shaders sample and compute passes write. Besides
/// its default view it has a view of its level 0 alone, for binding it as a
/// storage texture.
#[derive(Debug)]
pub struct VoxelTexture {
    pub texture: Texture,
    pub storage_texture_view: usize,
    pub size: Extent3d,
    pub format: TextureFormat,
    pub label: String,
    pub compare: Option<CompareFunction>,
}

/// The sampler of a voxel texture: clamped at the edges and linear in every respect.
pub open spec fn voxel_sampler(compare: Option<CompareFunction>) -> SamplerDescriptor {
    SamplerDescriptor {
        address_mode_u: AddressMode::ClampToEdge,
        address_mode_v: AddressMode::ClampToEdge,
        address_mode_w: AddressMode::ClampToEdge,
        mag_filter: FilterMode::Linear,
        min_filter: FilterMode::Linear,
        mipmap_filter: FilterMode::Linear,
        compare,
        lod_min_clamp: LOD_MIN_CLAMP,
        lod_max_clamp: Some(LOD_MAX_CLAMP),
    }
}

/// The extent of a volume.
pub open spec fn volume(dimensions: (u32, u32, u32)) -> Extent3d {
    Extent3d { width: dimensions.0, height: dimensions.1, depth_or_array_layers: dimensions.2 }
}

/// The four calls that make a voxel texture whose first call gets the
/// handle `base`: the volume, its default view, its sampler, and the view of
/// level 0 for storage access.
pub open spec fn voxel_texture_calls(
    base: int,
    dimensions: (u32, u32, u32),
    format: TextureFormat,
    label: Seq<char>,
    compare: Option<CompareFunction>,
) -> Seq<DeviceCallView> {
    seq![
        DeviceCallView::CreateTexture {
            label,
            descriptor: TextureDescriptor {
                size: volume(dimensions),
                mip_level_count: 1,
                sample_count: 1,
                dimension: TextureDimension::D3,
                format,
                usage: TextureUsages {
                    copy_src: false,
                    copy_dst: false,
                    texture_binding: true,
                    storage_binding: true,
                    render_attachment: false,
                },
            },
        },
        DeviceCallView::CreateView(
            TextureViewDescriptor { texture: base as usize, base_mip_level: 0, mip_level_count: None },
        ),
        DeviceCallView::CreateSampler(voxel_sampler(compare)),
        DeviceCallView::CreateView(
            TextureViewDescriptor { texture: base as usize, base_mip_level: 0, mip_level_count: Some(1u32) },
        ),
    ]
}

impl VoxelTexture {
    /// A volume of the given size. The four handles are consecutive: the
    /// volume, its default view, its sampler, its storage view.
    pub fn new(
        device: &mut Device,
        dimensions: (u32, u32, u32),
        format: TextureFormat,
        label: &str,
        compare: Option<CompareFunction>,
    ) -> (voxel_texture: VoxelTexture)
        ensures
            voxel_texture.texture == (Texture {
                texture: old(device)@.len() as usize,
                view: (old(device)@.len() + 1) as usize,
                sampler: (old(device)@.len() + 2) as usize,
                format,
                size: volume(dimensions),
            }),
            voxel_texture.storage_texture_view == old(device)@.len() + 3,
            voxel_texture.size == volume(dimensions),
            voxel_texture.format == format,
            voxel_texture.label@ == label@,
            voxel_texture.compare == compare,
            final(device)@ == old(device)@ + voxel_texture_calls(
                old(device)@.len() as int,
                dimensions,
                format,
                label@,
                compare,
            ),
    {
        let size = Extent3d { width: dimensions.0, height: dimensions.1, depth_or_array_layers: dimensions.2 };
        let texture = device.record(
            DeviceCall::CreateTexture {
                label: String::from_str(label),
                descriptor: TextureDescriptor {
                    size,
                    mip_level_count: 1,
                    sample_count: 1,
                    dimension: TextureDimension::D3,
                    format,
                    usage: TextureUsages {
                        copy_src: false,
                        copy_dst: false,
                        texture_binding: true,
                        storage_binding: true,
                        render_attachment: false,
                    },
                },
            },
        );
        let view = device.record(
            DeviceCall::CreateView(TextureViewDescriptor { texture, base_mip_level: 0, mip_level_count: None }),
        );
        let sampler = device.record(
            DeviceCall::CreateSampler(
                SamplerDescriptor {
                    address_mode_u: AddressMode::ClampToEdge,
                    address_mode_v: AddressMode::ClampToEdge,
                    address_mode_w: AddressMode::ClampToEdge,
                    mag_filter: FilterMode::Linear,
                    min_filter: FilterMode::Linear,
                    mipmap_filter: FilterMode::Linear,
                    compare,
                    lod_min_clamp: LOD_MIN_CLAMP,
                    lod_max_clamp: Some(LOD_MAX_CLAMP),
                },
            ),
        );
        let storage_texture_view = device.record(
            DeviceCall::CreateView(TextureViewDescriptor { texture, base_mip_level: 0, mip_level_count: Some(1) }),
        );
        assert(device@ =~= old(device)@ + voxel_texture_calls(
            old(device)@.len() as int,
            dimensions,
            format,
            label@,
            compare,
        ));
        VoxelTexture {
            texture: Texture { texture, view, sampler, format, size },
            storage_texture_view,
            size,
            format,
            label: String::from_str(label),
            compare,
        }
    }

    /// The voxel light map has a single level: there is no mip chain to
    /// fill, and nothing is asked of the device.
    pub fn generate_mipmaps(&mut self, device: &mut Device)
        ensures
            *final(self) == *old(self),
            final(device)@ == old(device)@,
    {
    }
}

} // verus!
