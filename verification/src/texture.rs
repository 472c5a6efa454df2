//! Two-dimensional textures with a mip chain: their creation, their first
//! contents, and the passes that fill the smaller mip levels.

use crate::gpu::{
    AddressMode, BindGroupEntry, BindingResource, Device, DeviceCall, DeviceCallView, Extent3d, FilterMode,
    ImageDataLayout, PrimitiveTopology, RenderPipelineDescriptor, RenderPipelineDescriptorView, SamplerDescriptor,
    ShaderSource, ShaderSourceView, TextureDescriptor, TextureDimension, TextureFormat, TextureUsages,
    TextureViewDescriptor, VertexBufferLayoutView,
};
use vstd::prelude::*;
use vstd::slice::slice_to_vec;
use vstd::string::StringExecFns;

verus! {

/// A texture on the device, with its default view and its sampler.
#[derive(Clone, Copy, Debug, PartialEq, Eq, Structural)]
pub struct Texture {
    pub texture: usize,
    pub view: usize,
    pub sampler: usize,
    pub format: TextureFormat,
    pub size: Extent3d,
}

/// The number of binary digits of `n`: 0 for 0, and one more than that of `n / 2` otherwise.
pub open spec fn bit_length(n: nat) -> nat
    decreases n,
{
    if n == 0 {
        0
    } else {
        1 + bit_length(n / 2)
    }
}

/// The largest of the three sides of an extent.
pub open spec fn largest_side(size: Extent3d) -> nat {
    let a = size.width as nat;
    let b = size.height as nat;
    let c = size.depth_or_array_layers as nat;
    if a >= b && a >= c {
        a
    } else if b >= c {
        b
    } else {
        c
    }
}

/// `wgpu::Extent3d::max_mips`: the length of the longest mip chain of a
/// texture of this extent, which is the number of binary digits of its
/// largest side.
#[verifier::external_body]
fn max_mips(size: &Extent3d) -> (levels: u32)
    ensures
        levels == bit_length(largest_side(*size)),
{
    wgpu::Extent3d {
        width: size.width,
        height: size.height,
        depth_or_array_layers: size.depth_or_array_layers,
    }.max_mips()
}

/// Whether an image of this many bytes and these dimensions has pixels and
/// can be addressed with 32 bits.
pub open spec fn image_fits(len: nat, dimensions: (u32, u32)) -> bool {
    &&& dimensions.0 > 0
    &&& dimensions.1 > 0
    &&& dimensions.0 * dimensions.1 <= u32::MAX
    &&& 4 * dimensions.0 <= u32::MAX
    &&& 4 * dimensions.0 * bytes_per_channel(len, dimensions) <= u32::MAX
}

/// Whether an image of this many bytes and these dimensions has pixels and
/// can be addressed with 32 bits.
pub fn fits(len: usize, dimensions: (u32, u32)) -> (ok: bool)
    ensures
        ok == image_fits(len as nat, dimensions),
{
    let (width, height) = dimensions;
    if width == 0 || height == 0 {
        return false;
    }
    let pixels = match width.checked_mul(height) {
        Some(pixels) => pixels,
        None => {
            return false;
        },
    };
    assert(pixels > 0) by (nonlinear_arith)
        requires
            pixels == width * height,
            width > 0,
            height > 0,
    ;
    let row = match width.checked_mul(4) {
        Some(row) => row,
        None => {
            return false;
        },
    };
    let channel: u32 = #[verifier::truncate] (len as u32) / pixels / 4;
    assert(4 * width * channel == row * channel) by (nonlinear_arith)
        requires
            row == width * 4,
    ;
    row.checked_mul(channel).is_some()
}

/// `value`, unless it is zero.
pub open spec fn non_zero(value: u32) -> Option<u32> {
    if value == 0 {
        None
    } else {
        Some(value)
    }
}

/// How an image-backed texture may be used: sampled, rendered into, and written.
pub open spec fn image_usage() -> TextureUsages {
    TextureUsages {
        copy_src: false,
        copy_dst: true,
        texture_binding: true,
        storage_binding: false,
        render_attachment: true,
    }
}

/// The sampler of an image-backed texture: linear in every respect, with
/// one address mode for all three directions.
pub open spec fn image_sampler(repeat_mode: AddressMode) -> SamplerDescriptor {
    SamplerDescriptor {
        address_mode_u: repeat_mode,
        address_mode_v: repeat_mode,
        address_mode_w: repeat_mode,
        mag_filter: FilterMode::Linear,
        min_filter: FilterMode::Linear,
        mipmap_filter: FilterMode::Linear,
        compare: None,
        lod_min_clamp: 0,
        lod_max_clamp: None,
    }
}

/// The sampler with which one mip level is read to fill the next.
pub open spec fn mip_sampler() -> SamplerDescriptor {
    SamplerDescriptor {
        address_mode_u: AddressMode::ClampToEdge,
        address_mode_v: AddressMode::ClampToEdge,
        address_mode_w: AddressMode::ClampToEdge,
        mag_filter: FilterMode::Linear,
        min_filter: FilterMode::Nearest,
        mipmap_filter: FilterMode::Nearest,
        compare: None,
        lod_min_clamp: 0,
        lod_max_clamp: None,
    }
}

/// The extent of a flat image.
pub open spec fn flat(dimensions: (u32, u32)) -> Extent3d {
    Extent3d { width: dimensions.0, height: dimensions.1, depth_or_array_layers: 1 }
}

/// The three calls that make an image-backed texture whose first call gets
/// the handle `base`: the texture with a full mip chain, its default view,
/// and its sampler.
pub open spec fn image_texture_calls(
    base: int,
    dimensions: (u32, u32),
    label: Seq<char>,
    format: TextureFormat,
    repeat_mode: AddressMode,
) -> Seq<DeviceCallView> {
    seq![
        DeviceCallView::CreateTexture {
            label,
            descriptor: TextureDescriptor {
                size: flat(dimensions),
                mip_level_count: bit_length(largest_side(flat(dimensions))) as u32,
                sample_count: 1,
                dimension: TextureDimension::D2,
                format,
                usage: image_usage(),
            },
        },
        DeviceCallView::CreateView(
            TextureViewDescriptor { texture: base as usize, base_mip_level: 0, mip_level_count: None },
        ),
        DeviceCallView::CreateSampler(image_sampler(repeat_mode)),
    ]
}

/// The number of bytes that each colour channel of a pixel takes, for an
/// image of four channels whose length is taken in 32 bits.
pub open spec fn bytes_per_channel(data_len: nat, dimensions: (u32, u32)) -> nat {
    ((data_len as u32) as nat) / ((dimensions.0 * dimensions.1) as nat) / 4
}

/// How the rows of a four-channel image lie in its data.
pub open spec fn image_layout(data_len: nat, dimensions: (u32, u32)) -> ImageDataLayout {
    ImageDataLayout {
        offset: 0,
        bytes_per_row: non_zero((4 * dimensions.0 * bytes_per_channel(data_len, dimensions)) as u32),
        rows_per_image: non_zero(dimensions.1),
    }
}

/// The pipeline that fills a mip level from the one above it.
pub open spec fn blit_pipeline(module: usize, format: TextureFormat) -> RenderPipelineDescriptorView {
    RenderPipelineDescriptorView {
        layout: None,
        module,
        vertex_entry_point: "vs_main"@,
        fragment_entry_point: "fs_main"@,
        buffers: Seq::<VertexBufferLayoutView>::empty(),
        targets: seq![format],
        topology: PrimitiveTopology::TriangleStrip,
        cull_mode: None,
        depth_stencil: None,
    }
}

/// The views of the first `levels` mip levels of `texture`, one level each.
pub open spec fn mip_view_calls(texture: usize, levels: nat) -> Seq<DeviceCallView> {
    Seq::new(
        levels,
        |i: int|
            DeviceCallView::CreateView(
                TextureViewDescriptor { texture, base_mip_level: i as u32, mip_level_count: Some(1u32) },
            ),
    )
}

/// The calls that fill the mip levels from 1 up to, but not including,
/// `upto`. Each level takes two calls: a bind group that reads the level
/// above through `sampler`, and the pass that draws into the level. The view
/// of level `i` has the handle `views + i`, and the first call here the
/// handle `groups`.
pub open spec fn mip_fill_calls(
    pipeline: usize,
    layout: usize,
    sampler: usize,
    views: int,
    groups: int,
    upto: nat,
) -> Seq<DeviceCallView>
    decreases upto,
{
    if upto <= 1 {
        Seq::empty()
    } else {
        let target = (upto - 1) as nat;
        mip_fill_calls(pipeline, layout, sampler, views, groups, target) + seq![
            DeviceCallView::CreateBindGroup {
                layout,
                entries: seq![
                    BindGroupEntry { binding: 0, resource: BindingResource::TextureView((views + target - 1) as usize) },
                    BindGroupEntry { binding: 1, resource: BindingResource::Sampler(sampler) },
                ],
            },
            DeviceCallView::Blit {
                pipeline,
                bind_group: (groups + 2 * (target - 1)) as usize,
                target: (views + target) as usize,
            },
        ]
    }
}

/// Everything that building the mip chain of a texture asks of the device,
/// when the first call gets the handle `base`: the blit shader, a pipeline
/// for the texture's format, the layout of its bind group, a sampler, one
/// view per mip level, and then level after level the pass that fills it.
pub open spec fn mipmap_calls(base: int, texture: Texture) -> Seq<DeviceCallView> {
    let levels = bit_length(largest_side(texture.size));
    seq![
        DeviceCallView::CreateShaderModule { source: ShaderSourceView::MipmapBlit },
        DeviceCallView::CreateRenderPipeline(blit_pipeline(base as usize, texture.format)),
        DeviceCallView::GetBindGroupLayout { pipeline: (base + 1) as usize, index: 0 },
        DeviceCallView::CreateSampler(mip_sampler()),
    ] + mip_view_calls(texture.texture, levels) + mip_fill_calls(
        (base + 1) as usize,
        (base + 2) as usize,
        (base + 3) as usize,
        base + 4,
        base + 4 + levels,
        levels,
    )
}

/// A number of binary digits is at most the number itself, and 32 for what fits in 32 bits.
pub proof fn lemma_bit_length_bound(n: nat)
    ensures
        bit_length(n) <= n,
        n <= u32::MAX ==> bit_length(n) <= 32,
    decreases n,
{
    if n > 0 {
        lemma_bit_length_bound(n / 2);
        if n <= u32::MAX {
            vstd::arithmetic::power2::lemma2_to64();
            lemma_bit_length_halves(n, 32);
        }
    }
}

/// A number below two to the `k` has at most `k` binary digits.
proof fn lemma_bit_length_halves(n: nat, k: nat)
    requires
        n < vstd::arithmetic::power2::pow2(k),
    ensures
        bit_length(n) <= k,
    decreases n,
{
    if n > 0 {
        if k == 0 {
            vstd::arithmetic::power2::lemma2_to64();
        } else {
            vstd::arithmetic::power2::lemma_pow2_unfold(k);
            lemma_bit_length_halves(n / 2, (k - 1) as nat);
        }
    }
}

impl Texture {
    /// An empty texture of the given size, with a full mip chain, its
    /// default view and a linear sampler. The three handles are consecutive,
    /// the texture's first.
    pub fn from_dimensions(
        device: &mut Device,
        dimensions: (u32, u32),
        label: &str,
        format: TextureFormat,
        repeat_mode: AddressMode,
    ) -> (texture: Texture)
        ensures
            texture == (Texture {
                texture: old(device)@.len() as usize,
                view: (old(device)@.len() + 1) as usize,
                sampler: (old(device)@.len() + 2) as usize,
                format,
                size: flat(dimensions),
            }),
            final(device)@ == old(device)@ + image_texture_calls(
                old(device)@.len() as int,
                dimensions,
                label@,
                format,
                repeat_mode,
            ),
    {
        let size = Extent3d { width: dimensions.0, height: dimensions.1, depth_or_array_layers: 1 };
        let texture = device.record(
            DeviceCall::CreateTexture {
                label: String::from_str(label),
                descriptor: TextureDescriptor {
                    size,
                    mip_level_count: max_mips(&size),
                    sample_count: 1,
                    dimension: TextureDimension::D2,
                    format,
                    usage: TextureUsages {
                        copy_src: false,
                        copy_dst: true,
                        texture_binding: true,
                        storage_binding: false,
                        render_attachment: true,
                    },
                },
            },
        );
        let view = device.record(
            DeviceCall::CreateView(TextureViewDescriptor { texture, base_mip_level: 0, mip_level_count: None }),
        );
        let sampler = device.record(
            DeviceCall::CreateSampler(
                SamplerDescriptor {
                    address_mode_u: repeat_mode,
                    address_mode_v: repeat_mode,
                    address_mode_w: repeat_mode,
                    mag_filter: FilterMode::Linear,
                    min_filter: FilterMode::Linear,
                    mipmap_filter: FilterMode::Linear,
                    compare: None,
                    lod_min_clamp: 0,
                    lod_max_clamp: None,
                },
            ),
        );
        assert(device@ =~= old(device)@ + image_texture_calls(
            old(device)@.len() as int,
            dimensions,
            label@,
            format,
            repeat_mode,
        ));
        Texture { texture, view, sampler, format, size }
    }

    /// A texture of the given size filled with four-channel pixel data: the
    /// texture as `from_dimensions` makes it, and then one write of the
    /// whole data into its level 0. A row takes four channels for each pixel
    /// of the width, and each channel as many bytes as the data holds per
    /// channel.
    pub fn from_rgba_data(
        device: &mut Device,
        rgba_data: &[u8],
        dimensions: (u32, u32),
        label: &str,
        format: TextureFormat,
        repeat_mode: AddressMode,
    ) -> (texture: Texture)
        requires
            image_fits(rgba_data@.len(), dimensions),
        ensures
            texture == (Texture {
                texture: old(device)@.len() as usize,
                view: (old(device)@.len() + 1) as usize,
                sampler: (old(device)@.len() + 2) as usize,
                format,
                size: flat(dimensions),
            }),
            final(device)@ == (old(device)@ + image_texture_calls(
                old(device)@.len() as int,
                dimensions,
                label@,
                format,
                repeat_mode,
            )).push(
                DeviceCallView::WriteTexture {
                    texture: texture.texture,
                    data: rgba_data@,
                    layout: image_layout(rgba_data@.len(), dimensions),
                    size: flat(dimensions),
                },
            ),
    {
        let texture = Texture::from_dimensions(device, dimensions, label, format, repeat_mode);
        assert(dimensions.0 * dimensions.1 > 0) by (nonlinear_arith)
            requires
                dimensions.0 > 0,
                dimensions.1 > 0,
        ;
        let pixels: u32 = dimensions.0 * dimensions.1;
        let color_bytes_per_channel: u32 = #[verifier::truncate] (rgba_data.len() as u32) / pixels / 4;
        assert(4 * dimensions.0 * color_bytes_per_channel == 4 * (dimensions.0 * color_bytes_per_channel))
            by (nonlinear_arith);
        assert(4 * dimensions.0 <= 4 * dimensions.0 * color_bytes_per_channel || color_bytes_per_channel == 0)
            by (nonlinear_arith);
        let row: u32 = 4 * dimensions.0 * color_bytes_per_channel;
        let layout = ImageDataLayout {
            offset: 0,
            bytes_per_row: if row == 0 {
                None
            } else {
                Some(row)
            },
            rows_per_image: if dimensions.1 == 0 {
                None
            } else {
                Some(dimensions.1)
            },
        };
        let data = slice_to_vec(rgba_data);
        device.record(DeviceCall::WriteTexture { texture: texture.texture, data, layout, size: texture.size });
        texture
    }

    /// Fills the mip levels below level 0, each from the level above it.
    /// The texture itself stays as it is.
    pub fn generate_mipmaps(&mut self, device: &mut Device)
        ensures
            *final(self) == *old(self),
            final(device)@ == old(device)@ + mipmap_calls(old(device)@.len() as int, *old(self)),
    {
        let ghost base = device@.len() as int;
        let ghost levels = bit_length(largest_side(self.size));
        proof {
            lemma_bit_length_bound(largest_side(self.size));
            reveal_strlit("vs_main");
            reveal_strlit("fs_main");
        }
        let shader = device.record(DeviceCall::CreateShaderModule { source: ShaderSource::MipmapBlit });
        let mut targets = Vec::new();
        targets.push(self.format);
        let descriptor = RenderPipelineDescriptor {
            layout: None,
            module: shader,
            vertex_entry_point: String::from_str("vs_main"),
            fragment_entry_point: String::from_str("fs_main"),
            buffers: Vec::new(),
            targets,
            topology: PrimitiveTopology::TriangleStrip,
            cull_mode: None,
            depth_stencil: None,
        };
        assert(descriptor@ =~= blit_pipeline(shader, self.format)) by {
            assert(descriptor@.buffers =~= Seq::<VertexBufferLayoutView>::empty());
            assert(descriptor@.targets =~= seq![self.format]);
        }
        let pipeline = device.record(DeviceCall::CreateRenderPipeline(descriptor));
        let bind_group_layout = device.record(DeviceCall::GetBindGroupLayout { pipeline, index: 0 });
        let sampler = device.record(
            DeviceCall::CreateSampler(
                SamplerDescriptor {
                    address_mode_u: AddressMode::ClampToEdge,
                    address_mode_v: AddressMode::ClampToEdge,
                    address_mode_w: AddressMode::ClampToEdge,
                    mag_filter: FilterMode::Linear,
                    min_filter: FilterMode::Nearest,
                    mipmap_filter: FilterMode::Nearest,
                    compare: None,
                    lod_min_clamp: 0,
                    lod_max_clamp: None,
                },
            ),
        );
        let ghost head = device@;
        assert(head =~= old(device)@ + seq![
            DeviceCallView::CreateShaderModule { source: ShaderSourceView::MipmapBlit },
            DeviceCallView::CreateRenderPipeline(blit_pipeline(base as usize, self.format)),
            DeviceCallView::GetBindGroupLayout { pipeline: (base + 1) as usize, index: 0 },
            DeviceCallView::CreateSampler(mip_sampler()),
        ]);
        let mip_level_count = max_mips(&self.size);
        let mut views: Vec<usize> = Vec::new();
        let mut mip: u32 = 0;
        while mip < mip_level_count
            invariant
                mip <= mip_level_count,
                mip_level_count == levels,
                levels <= 32,
                head.len() == base + 4,
                device@ == head + mip_view_calls(self.texture, mip as nat),
                views@.len() == mip,
                forall|i: int| 0 <= i < mip ==> views@[i] == base + 4 + i,
            decreases mip_level_count - mip,
        {
            let view = device.record(
                DeviceCall::CreateView(
                    TextureViewDescriptor { texture: self.texture, base_mip_level: mip, mip_level_count: Some(1) },
                ),
            );
            views.push(view);
            mip += 1;
            assert(device@ =~= head + mip_view_calls(self.texture, mip as nat));
        }
        let ghost with_views = device@;
        let mut target_mip: u32 = 1;
        while target_mip < mip_level_count
            invariant
                1 <= target_mip,
                target_mip <= mip_level_count || (mip_level_count == 0 && target_mip == 1),
                mip_level_count == levels,
                levels <= 32,
                with_views.len() == base + 4 + levels,
                views@.len() == levels,
                forall|i: int| 0 <= i < levels ==> views@[i] == base + 4 + i,
                pipeline == base + 1,
                bind_group_layout == base + 2,
                sampler == base + 3,
                device@ == with_views + mip_fill_calls(
                    pipeline,
                    bind_group_layout,
                    sampler,
                    base + 4,
                    base + 4 + levels,
                    target_mip as nat,
                ),
                mip_fill_calls(pipeline, bind_group_layout, sampler, base + 4, base + 4 + levels, target_mip as nat).len()
                    == 2 * (target_mip - 1),
            decreases mip_level_count - target_mip,
        {
            let mut entries = Vec::new();
            entries.push(
                BindGroupEntry {
                    binding: 0,
                    resource: BindingResource::TextureView(views[target_mip as usize - 1]),
                },
            );
            entries.push(BindGroupEntry { binding: 1, resource: BindingResource::Sampler(sampler) });
            assert(entries@ =~= seq![
                BindGroupEntry { binding: 0, resource: BindingResource::TextureView((base + 4 + target_mip - 1) as usize) },
                BindGroupEntry { binding: 1, resource: BindingResource::Sampler(sampler) },
            ]);
            let bind_group = device.record(DeviceCall::CreateBindGroup { layout: bind_group_layout, entries });
            assert(bind_group == base + 4 + levels + 2 * (target_mip - 1));
            device.record(DeviceCall::Blit { pipeline, bind_group, target: views[target_mip as usize] });
            target_mip += 1;
            assert(device@ =~= with_views + mip_fill_calls(
                pipeline,
                bind_group_layout,
                sampler,
                base + 4,
                base + 4 + levels,
                target_mip as nat,
            ));
        }
        assert(mip_fill_calls(pipeline, bind_group_layout, sampler, base + 4, base + 4 + levels, target_mip as nat)
            == mip_fill_calls(pipeline, bind_group_layout, sampler, base + 4, base + 4 + levels, levels)) by {
            if levels == 0 {
                assert(mip_fill_calls(pipeline, bind_group_layout, sampler, base + 4, base + 4 + levels, 1)
                    =~= Seq::<DeviceCallView>::empty());
                assert(mip_fill_calls(pipeline, bind_group_layout, sampler, base + 4, base + 4 + levels, 0)
                    =~= Seq::<DeviceCallView>::empty());
            }
        }
        assert(device@ =~= old(device)@ + mipmap_calls(base, *self));
    }
}

} // verus!
