//! The intermediate images that passes write and later passes read. They
//! follow the size of the output surface.

use crate::gpu::{
    AddressMode, CompareFunction, Device, DeviceCall, DeviceCallView, Extent3d, FilterMode, SamplerDescriptor,
    SurfaceConfiguration, TextureDescriptor, TextureDimension, TextureFormat, TextureUsages, TextureViewDescriptor,
};
use crate::texture::Texture;
use vstd::prelude::*;
use vstd::string::StringExecFns;

verus! {

/// The lowest level of detail that the sampler of a frame texture reaches.
pub const LOD_MIN_CLAMP: i32 = -100;

/// The highest level of detail that the sampler of a frame texture reaches.
pub const LOD_MAX_CLAMP: i32 = 100;

/// One frame texture: the image on the device, and what it takes to build
/// it again at another size.
#[derive(Debug)]
pub struct FrameTexture {
    pub texture: Texture,
    pub label: String,
    pub compare: Option<CompareFunction>,
}

/// How a frame texture may be used: rendered into, sampled, and copied both ways.
pub open spec fn frame_usage() -> TextureUsages {
    TextureUsages {
        copy_src: true,
        copy_dst: true,
        texture_binding: true,
        storage_binding: false,
        render_attachment: true,
    }
}

/// The sampler of a frame texture: clamped at the edges, linear within a
/// level and nearest between levels.
pub open spec fn frame_sampler(compare: Option<CompareFunction>) -> SamplerDescriptor {
    SamplerDescriptor {
        address_mode_u: AddressMode::ClampToEdge,
        address_mode_v: AddressMode::ClampToEdge,
        address_mode_w: AddressMode::ClampToEdge,
        mag_filter: FilterMode::Linear,
        min_filter: FilterMode::Linear,
        mipmap_filter: FilterMode::Nearest,
        compare,
        lod_min_clamp: LOD_MIN_CLAMP,
        lod_max_clamp: Some(LOD_MAX_CLAMP),
    }
}

/// The image of a frame texture for a surface of the given size.
pub open spec fn frame_descriptor(width: u32, height: u32, format: TextureFormat) -> TextureDescriptor {
    TextureDescriptor {
        size: Extent3d { width, height, depth_or_array_layers: 1 },
        mip_level_count: 1,
        sample_count: 1,
        dimension: TextureDimension::D2,
        format,
        usage: frame_usage(),
    }
}

/// The three calls that make a frame texture whose first call gets the
/// handle `base`: the image, its default view, and its sampler.
pub open spec fn frame_texture_calls(
    base: int,
    width: u32,
    height: u32,
    format: TextureFormat,
    label: Seq<char>,
    compare: Option<CompareFunction>,
) -> Seq<DeviceCallView> {
    seq![
        DeviceCallView::CreateTexture { label, descriptor: frame_descriptor(width, height, format) },
        DeviceCallView::CreateView(
            TextureViewDescriptor { texture: base as usize, base_mip_level: 0, mip_level_count: None },
        ),
        DeviceCallView::CreateSampler(frame_sampler(compare)),
    ]
}

/// The texture that those three calls make.
pub open spec fn frame_texture_at(base: int, width: u32, height: u32, format: TextureFormat) -> Texture {
    Texture {
        texture: base as usize,
        view: (base + 1) as usize,
        sampler: (base + 2) as usize,
        format,
        size: Extent3d { width, height, depth_or_array_layers: 1 },
    }
}

/// The handles of a texture: of the image, of its view, and of its sampler.
pub open spec fn texture_handles(texture: Texture) -> Seq<usize> {
    seq![texture.texture, texture.view, texture.sampler]
}

/// Adds the handles of a texture to a list.
fn push_handles(handles: &mut Vec<usize>, texture: &Texture)
    ensures
        final(handles)@ == old(handles)@ + texture_handles(*texture),
{
    handles.push(texture.texture);
    handles.push(texture.view);
    handles.push(texture.sampler);
    assert(handles@ =~= old(handles)@ + texture_handles(*texture));
}

impl FrameTexture {
    /// A frame texture as large as the surface. The three handles are
    /// consecutive, the image's first.
    pub fn new(
        device: &mut Device,
        config: &SurfaceConfiguration,
        format: TextureFormat,
        label: &str,
        compare: Option<CompareFunction>,
    ) -> (frame_texture: FrameTexture)
        ensures
            frame_texture.texture == frame_texture_at(old(device)@.len() as int, config.width, config.height, format),
            frame_texture.label@ == label@,
            frame_texture.compare == compare,
            final(device)@ == old(device)@ + frame_texture_calls(
                old(device)@.len() as int,
                config.width,
                config.height,
                format,
                label@,
                compare,
            ),
    {
        let size = Extent3d { width: config.width, height: config.height, depth_or_array_layers: 1 };
        let texture = device.record(
            DeviceCall::CreateTexture {
                label: String::from_str(label),
                descriptor: TextureDescriptor {
                    size,
                    mip_level_count: 1,
                    sample_count: 1,
                    dimension: TextureDimension::D2,
                    format,
                    usage: TextureUsages {
                        copy_src: true,
                        copy_dst: true,
                        texture_binding: true,
                        storage_binding: false,
                        render_attachment: true,
                    },
                },
            },
        );
        let view = device.record(
            DeviceCall::CreateView(TextureViewDescriptor { texture, base_mip_level: 0, mip_level_count: None }),
        );
        let sampler = device.record(
            DeviceCall::CreateSampler(
                SamplerDescriptor {
                    address_mode_u: AddressMode::ClampToEdge,
                    address_mode_v: AddressMode::ClampToEdge,
                    address_mode_w: AddressMode::ClampToEdge,
                    mag_filter: FilterMode::Linear,
                    min_filter: FilterMode::Linear,
                    mipmap_filter: FilterMode::Nearest,
                    compare,
                    lod_min_clamp: LOD_MIN_CLAMP,
                    lod_max_clamp: Some(LOD_MAX_CLAMP),
                },
            ),
        );
        assert(device@ =~= old(device)@ + frame_texture_calls(
            old(device)@.len() as int,
            config.width,
            config.height,
            format,
            label@,
            compare,
        ));
        FrameTexture {
            texture: Texture { texture, view, sampler, format, size },
            label: String::from_str(label),
            compare,
        }
    }

    /// Builds the image again at the size of the surface. Format, label and
    /// comparison stay; the handles are new.
    pub fn recreate(&mut self, device: &mut Device, config: &SurfaceConfiguration)
        ensures
            final(self).texture == frame_texture_at(
                old(device)@.len() as int,
                config.width,
                config.height,
                old(self).texture.format,
            ),
            final(self).label == old(self).label,
            final(self).compare == old(self).compare,
            final(device)@ == old(device)@ + frame_texture_calls(
                old(device)@.len() as int,
                config.width,
                config.height,
                old(self).texture.format,
                old(self).label@,
                old(self).compare,
            ),
    {
        self.texture = FrameTexture::new(device, config, self.texture.format, self.label.as_str(), self.compare).texture;
    }
}

/// The frame textures of the engine.
#[derive(Debug)]
pub struct FrameTextures {
    pub z_buffer: FrameTexture,
    pub world_space_fragment_location: FrameTexture,
    pub world_space_normal: FrameTexture,
    pub albedo_map: FrameTexture,
    pub arm_map: FrameTexture,
    pub ssao_kernel_map: FrameTexture,
    pub ssao_blurred_map: FrameTexture,
    pub pbr_shaded_map: FrameTexture,
}

impl FrameTextures {
    /// The frame textures in the order in which they are built.
    pub open spec fn all(&self) -> Seq<FrameTexture> {
        seq![
            self.z_buffer,
            self.world_space_fragment_location,
            self.world_space_normal,
            self.albedo_map,
            self.arm_map,
            self.ssao_kernel_map,
            self.ssao_blurred_map,
            self.pbr_shaded_map,
        ]
    }

    /// The handles of everything that the frame textures have on the
    /// device: the image, the view and the sampler of each, in the order of
    /// `all`.
    pub open spec fn spec_handles(&self) -> Seq<usize> {
        texture_handles(self.z_buffer.texture) + texture_handles(self.world_space_fragment_location.texture)
            + texture_handles(self.world_space_normal.texture) + texture_handles(self.albedo_map.texture)
            + texture_handles(self.arm_map.texture) + texture_handles(self.ssao_kernel_map.texture)
            + texture_handles(self.ssao_blurred_map.texture) + texture_handles(self.pbr_shaded_map.texture)
    }

    /// The handles of everything that the frame textures have on the
    /// device. Once the frame textures are built again, the host drops what
    /// stands behind the handles that they had before.
    pub fn handles(&self) -> (handles: Vec<usize>)
        ensures
            handles@ == self.spec_handles(),
    {
        let mut handles: Vec<usize> = Vec::new();
        push_handles(&mut handles, &self.z_buffer.texture);
        push_handles(&mut handles, &self.world_space_fragment_location.texture);
        push_handles(&mut handles, &self.world_space_normal.texture);
        push_handles(&mut handles, &self.albedo_map.texture);
        push_handles(&mut handles, &self.arm_map.texture);
        push_handles(&mut handles, &self.ssao_kernel_map.texture);
        push_handles(&mut handles, &self.ssao_blurred_map.texture);
        push_handles(&mut handles, &self.pbr_shaded_map.texture);
        assert(handles@ =~= self.spec_handles());
        handles
    }

    /// Frame textures that are built again have handles of their own: each
    /// is the handle of one of the calls that built them, from `base` on, so
    /// none is a handle that was given out before.
    pub proof fn lemma_recreated_handles_are_fresh(
        before: FrameTextures,
        after: FrameTextures,
        base: int,
        width: u32,
        height: u32,
        i: int,
    )
        requires
            Self::recreated(before.all(), after.all(), base, width, height),
            0 <= base,
            base + 24 <= usize::MAX,
            0 <= i < 24,
        ensures
            after.spec_handles().len() == 24,
            base <= after.spec_handles()[i] < base + 24,
    {
        let all = after.all();
        assert(all[0].texture == frame_texture_at(base, width, height, before.all()[0].texture.format));
        assert(all[1].texture == frame_texture_at(base + 3, width, height, before.all()[1].texture.format));
        assert(all[2].texture == frame_texture_at(base + 6, width, height, before.all()[2].texture.format));
        assert(all[3].texture == frame_texture_at(base + 9, width, height, before.all()[3].texture.format));
        assert(all[4].texture == frame_texture_at(base + 12, width, height, before.all()[4].texture.format));
        assert(all[5].texture == frame_texture_at(base + 15, width, height, before.all()[5].texture.format));
        assert(all[6].texture == frame_texture_at(base + 18, width, height, before.all()[6].texture.format));
        assert(all[7].texture == frame_texture_at(base + 21, width, height, before.all()[7].texture.format));
    }

    /// The calls that build the first `n` of `textures` again, when the
    /// first call gets the handle `base`.
    pub open spec fn recreate_calls(textures: Seq<FrameTexture>, base: int, width: u32, height: u32, n: int) -> Seq<
        DeviceCallView,
    >
        decreases n,
    {
        if n <= 0 {
            Seq::empty()
        } else {
            Self::recreate_calls(textures, base, width, height, n - 1) + frame_texture_calls(
                base + 3 * (n - 1),
                width,
                height,
                textures[n - 1].texture.format,
                textures[n - 1].label@,
                textures[n - 1].compare,
            )
        }
    }

    /// Building `n` frame textures takes three calls each.
    pub proof fn lemma_recreate_calls_len(textures: Seq<FrameTexture>, base: int, width: u32, height: u32, n: int)
        requires
            0 <= n,
        ensures
            Self::recreate_calls(textures, base, width, height, n).len() == 3 * n,
        decreases n,
    {
        if n > 0 {
            Self::lemma_recreate_calls_len(textures, base, width, height, n - 1);
        }
    }

    /// Whether `after` is `before` built again for a surface of the given
    /// size by calls from handle `base` on: each texture keeps its format,
    /// label and comparison, and takes the size and its three new handles.
    pub open spec fn recreated(before: Seq<FrameTexture>, after: Seq<FrameTexture>, base: int, width: u32, height: u32) -> bool {
        &&& after.len() == before.len()
        &&& forall|i: int|
            0 <= i < before.len() ==> {
                &&& (#[trigger] after[i]).texture == frame_texture_at(base + 3 * i, width, height, before[i].texture.format)
                &&& after[i].label == before[i].label
                &&& after[i].compare == before[i].compare
            }
    }

    /// What each frame texture is made of, in the order of `all`: its
    /// format, its label, and the comparison of its sampler. Only the depth
    /// buffer has a comparison.
    pub open spec fn plan() -> Seq<(TextureFormat, Seq<char>, Option<CompareFunction>)> {
        seq![
            (TextureFormat::Depth32Float, "Z-buffer frame texture"@, Some(CompareFunction::LessEqual)),
            (TextureFormat::Rgba16Float, "World Space Fragment Location frame texture"@, None),
            (TextureFormat::Rgba16Float, "World Space Normal frame texture"@, None),
            (TextureFormat::Bgra8UnormSrgb, "Albedo Map frame texture"@, None),
            (TextureFormat::Bgra8Unorm, "ARM Map frame texture"@, None),
            (TextureFormat::Rgba16Float, "SSAO Kernel Map frame texture"@, None),
            (TextureFormat::Rgba16Float, "SSAO Blurred Map frame texture"@, None),
            (TextureFormat::Rgba16Float, "PBR Shaded Map frame texture"@, None),
        ]
    }

    /// Whether `textures` are the frame textures of the plan, built for a
    /// surface of the given size by calls from handle `base` on.
    pub open spec fn planned(textures: Seq<FrameTexture>, base: int, width: u32, height: u32) -> bool {
        &&& textures.len() == 8
        &&& forall|i: int|
            0 <= i < 8 ==> {
                &&& (#[trigger] textures[i]).texture == frame_texture_at(base + 3 * i, width, height, Self::plan()[i].0)
                &&& textures[i].label@ == Self::plan()[i].1
                &&& textures[i].compare == Self::plan()[i].2
            }
    }

    /// Builds the frame textures of the plan at the size of the surface, in order.
    pub fn new(device: &mut Device, config: &SurfaceConfiguration) -> (textures: FrameTextures)
        ensures
            Self::planned(textures.all(), old(device)@.len() as int, config.width, config.height),
            final(device)@ == old(device)@ + Self::recreate_calls(
                textures.all(),
                old(device)@.len() as int,
                config.width,
                config.height,
                8,
            ),
    {
        let ghost base = device@.len() as int;
        let ghost w = config.width;
        let ghost h = config.height;
        let z_buffer = FrameTexture::new(
            device,
            config,
            TextureFormat::Depth32Float,
            "Z-buffer frame texture",
            Some(CompareFunction::LessEqual),
        );
        let world_space_fragment_location = FrameTexture::new(
            device,
            config,
            TextureFormat::Rgba16Float,
            "World Space Fragment Location frame texture",
            None,
        );
        let world_space_normal = FrameTexture::new(
            device,
            config,
            TextureFormat::Rgba16Float,
            "World Space Normal frame texture",
            None,
        );
        let albedo_map = FrameTexture::new(device, config, TextureFormat::Bgra8UnormSrgb, "Albedo Map frame texture", None);
        let arm_map = FrameTexture::new(device, config, TextureFormat::Bgra8Unorm, "ARM Map frame texture", None);
        let ghost five = device@;
        let ssao_kernel_map = FrameTexture::new(
            device,
            config,
            TextureFormat::Rgba16Float,
            "SSAO Kernel Map frame texture",
            None,
        );
        let ssao_blurred_map = FrameTexture::new(
            device,
            config,
            TextureFormat::Rgba16Float,
            "SSAO Blurred Map frame texture",
            None,
        );
        let pbr_shaded_map = FrameTexture::new(
            device,
            config,
            TextureFormat::Rgba16Float,
            "PBR Shaded Map frame texture",
            None,
        );
        let textures = FrameTextures {
            z_buffer,
            world_space_fragment_location,
            world_space_normal,
            albedo_map,
            arm_map,
            ssao_kernel_map,
            ssao_blurred_map,
            pbr_shaded_map,
        };
        proof {
            let all = textures.all();
            assert(Self::recreate_calls(all, base, w, h, 0) =~= Seq::<DeviceCallView>::empty());
            assert(Self::recreate_calls(all, base, w, h, 1) =~= frame_texture_calls(
                base,
                w,
                h,
                all[0].texture.format,
                all[0].label@,
                all[0].compare,
            ));
            assert(five =~= old(device)@ + Self::recreate_calls(all, base, w, h, 5)) by {
                reveal_with_fuel(FrameTextures::recreate_calls, 6);
            }
            assert(device@ =~= old(device)@ + Self::recreate_calls(all, base, w, h, 8)) by {
                reveal_with_fuel(FrameTextures::recreate_calls, 4);
            }
        }
        textures
    }

    /// Builds every frame texture again at the size of the surface, in
    /// order. A surface without width or height is passed over: nothing is
    /// built and nothing changes.
    pub fn recreate_all(&mut self, device: &mut Device, config: &SurfaceConfiguration)
        ensures
            config.width == 0 || config.height == 0 ==> *final(self) == *old(self) && final(device)@ == old(device)@,
            config.width > 0 && config.height > 0 ==> {
                &&& Self::recreated(
                    old(self).all(),
                    final(self).all(),
                    old(device)@.len() as int,
                    config.width,
                    config.height,
                )
                &&& final(device)@ == old(device)@ + Self::recreate_calls(
                    old(self).all(),
                    old(device)@.len() as int,
                    config.width,
                    config.height,
                    8,
                )
            },
    {
        if config.width == 0 || config.height == 0 {
            return ;
        }
        let ghost before = self.all();
        let ghost base = device@.len() as int;
        let ghost w = config.width;
        let ghost h = config.height;
        self.z_buffer.recreate(device, config);
        assert(device@ =~= old(device)@ + Self::recreate_calls(before, base, w, h, 1)) by {
            assert(Self::recreate_calls(before, base, w, h, 0) =~= Seq::<DeviceCallView>::empty());
        }
        self.world_space_fragment_location.recreate(device, config);
        assert(device@ =~= old(device)@ + Self::recreate_calls(before, base, w, h, 2));
        self.world_space_normal.recreate(device, config);
        assert(device@ =~= old(device)@ + Self::recreate_calls(before, base, w, h, 3));
        self.albedo_map.recreate(device, config);
        assert(device@ =~= old(device)@ + Self::recreate_calls(before, base, w, h, 4));
        self.arm_map.recreate(device, config);
        assert(device@ =~= old(device)@ + Self::recreate_calls(before, base, w, h, 5));
        self.ssao_kernel_map.recreate(device, config);
        assert(device@ =~= old(device)@ + Self::recreate_calls(before, base, w, h, 6));
        self.ssao_blurred_map.recreate(device, config);
        assert(device@ =~= old(device)@ + Self::recreate_calls(before, base, w, h, 7));
        self.pbr_shaded_map.recreate(device, config);
        assert(device@ =~= old(device)@ + Self::recreate_calls(before, base, w, h, 8));
    }
}

/// Resizing twice to the same size leaves the frame textures as resizing
/// once does, but for the handles: formats, labels, comparisons and sizes
/// agree, and the device is asked for the same images and samplers.
pub proof fn lemma_resize_is_idempotent(
    start: Seq<FrameTexture>,
    once: Seq<FrameTexture>,
    twice: Seq<FrameTexture>,
    first: int,
    second: int,
    width: u32,
    height: u32,
)
    requires
        FrameTextures::recreated(start, once, first, width, height),
        FrameTextures::recreated(once, twice, second, width, height),
    ensures
        twice.len() == once.len(),
        forall|i: int|
            0 <= i < once.len() ==> {
                &&& (#[trigger] twice[i]).texture.format == once[i].texture.format
                &&& twice[i].texture.size == once[i].texture.size
                &&& twice[i].label == once[i].label
                &&& twice[i].compare == once[i].compare
                &&& frame_texture_calls(
                    second + 3 * i,
                    width,
                    height,
                    once[i].texture.format,
                    once[i].label@,
                    once[i].compare,
                )[0] == frame_texture_calls(
                    first + 3 * i,
                    width,
                    height,
                    start[i].texture.format,
                    start[i].label@,
                    start[i].compare,
                )[0]
                &&& frame_texture_calls(
                    second + 3 * i,
                    width,
                    height,
                    once[i].texture.format,
                    once[i].label@,
                    once[i].compare,
                )[2] == frame_texture_calls(
                    first + 3 * i,
                    width,
                    height,
                    start[i].texture.format,
                    start[i].label@,
                    start[i].compare,
                )[2]
            },
{
    assert forall|i: int| 0 <= i < once.len() implies {
        &&& (#[trigger] twice[i]).texture.format == once[i].texture.format
        &&& twice[i].texture.size == once[i].texture.size
        &&& twice[i].label == once[i].label
        &&& twice[i].compare == once[i].compare
        &&& frame_texture_calls(second + 3 * i, width, height, once[i].texture.format, once[i].label@, once[i].compare)[0]
            == frame_texture_calls(
            first + 3 * i,
            width,
            height,
            start[i].texture.format,
            start[i].label@,
            start[i].compare,
        )[0]
        &&& frame_texture_calls(second + 3 * i, width, height, once[i].texture.format, once[i].label@, once[i].compare)[2]
            == frame_texture_calls(
            first + 3 * i,
            width,
            height,
            start[i].texture.format,
            start[i].label@,
            start[i].compare,
        )[2]
    } by {
        let a = once[i];
        let b = twice[i];
    }
}

} // verus!
