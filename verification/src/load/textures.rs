//! The textures of the engine: which ones the meshes ask for, the images
//! they are loaded from, and how they get into the table of textures.

use crate::engine::Engine;
use crate::gpu::{AddressMode, Device, DeviceCallView, TextureFormat};
use crate::load::{EngineLoadError, meshes_of};
use crate::mesh::Mesh;
use crate::resource_table::{ResourceTable, index_in, keys_after_insert};
use crate::scene::LoadedResources;
use crate::text::str_eq;
use crate::texture::{
    Texture, bytes_per_channel, fits, flat, image_fits, image_layout, image_texture_calls, mipmap_calls,
};
use vstd::prelude::*;
use vstd::string::StringExecFns;

verus! {

/// A texture that the meshes of the scene need, by the name of its file,
/// with the pixel format and the address mode to load it with.
#[derive(Clone, Debug, PartialEq, Eq)]
pub struct TextureRequest {
    pub file: String,
    pub format: TextureFormat,
    pub repeat_mode: AddressMode,
}

impl View for TextureRequest {
    type V = TextureRequestView;

    open spec fn view(&self) -> TextureRequestView {
        TextureRequestView { file: self.file@, format: self.format, repeat_mode: self.repeat_mode }
    }
}

/// The mathematical content of a [`TextureRequest`].
pub struct TextureRequestView {
    pub file: Seq<char>,
    pub format: TextureFormat,
    pub repeat_mode: AddressMode,
}

/// The content of each request of a list, in order.
pub open spec fn request_views(requests: Seq<TextureRequest>) -> Seq<TextureRequestView> {
    Seq::new(requests.len(), |i: int| requests[i]@)
}

/// The request for one texture map of a mesh, if the mesh has the map.
/// Every map is loaded with repeating addresses.
pub open spec fn map_request(map: Option<String>, format: TextureFormat) -> Seq<TextureRequestView> {
    match map {
        Some(file) => seq![TextureRequestView { file: file@, format, repeat_mode: AddressMode::Repeat }],
        None => Seq::empty(),
    }
}

/// The textures that one mesh needs: its albedo map in sRGB, and its map of
/// occlusion, roughness and metalness and its normal map as plain numbers.
pub open spec fn mesh_requests(mesh: Mesh) -> Seq<TextureRequestView> {
    map_request(mesh.map_albedo, TextureFormat::Rgba8UnormSrgb) + map_request(
        mesh.map_arm,
        TextureFormat::Rgba8Unorm,
    ) + map_request(mesh.map_normal, TextureFormat::Rgba8Unorm)
}

/// The textures that the first `n` of `meshes` need, mesh after mesh.
pub open spec fn meshes_requests(meshes: Seq<Mesh>, n: int) -> Seq<TextureRequestView>
    decreases n,
{
    if n <= 0 {
        Seq::empty()
    } else {
        meshes_requests(meshes, n - 1) + mesh_requests(meshes[n - 1])
    }
}

/// The textures that the meshes of the first `n` of `files` need, file after file.
pub open spec fn files_requests(resources: LoadedResources, files: Seq<String>, n: int) -> Seq<TextureRequestView>
    decreases n,
{
    if n <= 0 {
        Seq::empty()
    } else {
        files_requests(resources, files, n - 1) + meshes_requests(
            meshes_of(resources, files[n - 1]@),
            meshes_of(resources, files[n - 1]@).len() as int,
        )
    }
}

/// The first `n` of `requests` with every request kept only where it
/// stands first.
pub open spec fn without_repeats(requests: Seq<TextureRequestView>, n: int) -> Seq<TextureRequestView>
    decreases n,
{
    if n <= 0 {
        Seq::empty()
    } else {
        let before = without_repeats(requests, n - 1);
        if before.contains(requests[n - 1]) {
            before
        } else {
            before.push(requests[n - 1])
        }
    }
}

/// What is left of the first `n` of `requests` is a set written down in
/// order: no request stands in it twice, and a request stands in it
/// exactly when it is one of those `n`.
pub proof fn lemma_without_repeats(requests: Seq<TextureRequestView>, n: int)
    requires
        0 <= n <= requests.len(),
    ensures
        without_repeats(requests, n).no_duplicates(),
        forall|request: TextureRequestView|
            without_repeats(requests, n).contains(request) <==> exists|i: int|
                0 <= i < n && #[trigger] requests[i] == request,
    decreases n,
{
    if n > 0 {
        lemma_without_repeats(requests, n - 1);
        let before = without_repeats(requests, n - 1);
        let kept = without_repeats(requests, n);
        assert forall|request: TextureRequestView|
            kept.contains(request) <==> exists|i: int| 0 <= i < n && #[trigger] requests[i] == request by {
            if kept.contains(request) {
                let at = choose|at: int| 0 <= at < kept.len() && kept[at] == request;
                if at < before.len() {
                    assert(before[at] == request);
                    assert(before.contains(request));
                    let i = choose|i: int| 0 <= i < n - 1 && #[trigger] requests[i] == request;
                    assert(0 <= i < n && requests[i] == request);
                } else {
                    assert(requests[n - 1] == request);
                }
            }
            if exists|i: int| 0 <= i < n && #[trigger] requests[i] == request {
                let i = choose|i: int| 0 <= i < n && #[trigger] requests[i] == request;
                if i < n - 1 {
                    assert(before.contains(request));
                    let at = choose|at: int| 0 <= at < before.len() && before[at] == request;
                    assert(kept[at] == request);
                } else if before.contains(request) {
                } else {
                    assert(kept[kept.len() - 1] == request);
                }
            }
        }
    }
}

/// Whether `requests` holds a request with this content.
fn holds(requests: &Vec<TextureRequest>, file: &str, format: TextureFormat, repeat_mode: AddressMode) -> (found: bool)
    ensures
        found == request_views(requests@).contains(TextureRequestView { file: file@, format, repeat_mode }),
{
    let ghost wanted = TextureRequestView { file: file@, format, repeat_mode };
    let n = requests.len();
    let mut i: usize = 0;
    while i < n
        invariant
            n == requests@.len(),
            i <= n,
            wanted == (TextureRequestView { file: file@, format, repeat_mode }),
            forall|j: int| 0 <= j < i ==> request_views(requests@)[j] != wanted,
        decreases n - i,
    {
        let request = &requests[i];
        if str_eq(request.file.as_str(), file) && request.format == format && request.repeat_mode == repeat_mode {
            assert(request_views(requests@)[i as int] == wanted);
            return true;
        }
        i += 1;
    }
    false
}

/// Adds the request for one texture map to `requests`.
fn request_map(requests: &mut Vec<TextureRequest>, map: &Option<String>, format: TextureFormat)
    ensures
        request_views(final(requests)@) == request_views(old(requests)@) + map_request(*map, format),
{
    if let Some(file) = map {
        requests.push(TextureRequest { file: file.clone(), format, repeat_mode: AddressMode::Repeat });
    }
    assert(request_views(requests@) =~= request_views(old(requests)@) + map_request(*map, format));
}

/// An image, decoded: the name of its file, its pixels of four channels
/// row by row, and its width and height. The host decodes the files and
/// hands the images over; the engine tests that each fits its texture.
#[derive(Debug, PartialEq, Eq)]
pub struct DecodedImage {
    pub file: String,
    pub rgba: Vec<u8>,
    pub dimensions: (u32, u32),
}

/// The place of the first of `images` that is of the file `file`, or the
/// number of images if none is.
pub open spec fn first_image(images: Seq<DecodedImage>, file: Seq<char>) -> int
    decreases images.len(),
{
    if images.len() == 0 {
        0
    } else if images[0].file@ == file {
        0
    } else {
        1 + first_image(images.drop_first(), file)
    }
}

/// `first_image` is the least place of an image of the file, and at most the length.
pub proof fn lemma_first_image(images: Seq<DecodedImage>, file: Seq<char>)
    ensures
        0 <= first_image(images, file) <= images.len(),
        first_image(images, file) < images.len() ==> images[first_image(images, file)].file@ == file,
        forall|i: int| 0 <= i < first_image(images, file) ==> (#[trigger] images[i]).file@ != file,
    decreases images.len(),
{
    if images.len() > 0 && images[0].file@ != file {
        let tail = images.drop_first();
        lemma_first_image(tail, file);
        assert forall|i: int| 0 <= i < first_image(images, file) implies (#[trigger] images[i]).file@ != file by {
            if i > 0 {
                assert(images[i] == tail[i - 1]);
            }
        }
    }
}

/// What is wrong with the images handed over for a list of requests.
pub enum ImageFailure {
    Missing(Seq<char>),
    Invalid(Seq<char>),
}

/// What is wrong with the image for one request, if anything: there is no
/// image of its file, or the first such image does not fit.
pub open spec fn request_failure(request: TextureRequestView, images: Seq<DecodedImage>) -> Option<ImageFailure> {
    let at = first_image(images, request.file);
    if at >= images.len() {
        Some(ImageFailure::Missing(request.file))
    } else if !image_fits(images[at].rgba@.len(), images[at].dimensions) {
        Some(ImageFailure::Invalid(request.file))
    } else {
        None
    }
}

/// The first failure among the first `n` of `requests`.
pub open spec fn requests_failure(requests: Seq<TextureRequestView>, images: Seq<DecodedImage>, n: int) -> Option<
    ImageFailure,
>
    decreases n,
{
    if n <= 0 {
        None
    } else {
        match requests_failure(requests, images, n - 1) {
            Some(failure) => Some(failure),
            None => request_failure(requests[n - 1], images),
        }
    }
}

/// The texture that loading `image` for `request` makes, when the first
/// call gets the handle `base`.
pub open spec fn loaded_texture(base: int, request: TextureRequestView, image: DecodedImage) -> Texture {
    Texture {
        texture: base as usize,
        view: (base + 1) as usize,
        sampler: (base + 2) as usize,
        format: request.format,
        size: flat(image.dimensions),
    }
}

/// The calls that load `image` for `request`: the texture with its view and
/// sampler, the write of the pixels, and the filling of the mip chain.
pub open spec fn loaded_calls(base: int, request: TextureRequestView, image: DecodedImage) -> Seq<DeviceCallView> {
    image_texture_calls(base, image.dimensions, request.file, request.format, request.repeat_mode).push(
        DeviceCallView::WriteTexture {
            texture: base as usize,
            data: image.rgba@,
            layout: image_layout(image.rgba@.len(), image.dimensions),
            size: flat(image.dimensions),
        },
    ) + mipmap_calls(base + 4, loaded_texture(base, request, image))
}

/// The calls that load the first `n` of `requests`, each from the first
/// image of its file, when the first call gets the handle `base`.
pub open spec fn requests_calls(base: int, requests: Seq<TextureRequestView>, images: Seq<DecodedImage>, n: int) -> Seq<
    DeviceCallView,
>
    decreases n,
{
    if n <= 0 {
        Seq::empty()
    } else {
        let before = requests_calls(base, requests, images, n - 1);
        before + loaded_calls(
            base + before.len(),
            requests[n - 1],
            images[first_image(images, requests[n - 1].file)],
        )
    }
}

/// The textures that loading the first `n` of `requests` makes, in order.
pub open spec fn requests_textures(base: int, requests: Seq<TextureRequestView>, images: Seq<DecodedImage>, n: int) -> Seq<
    Texture,
>
    decreases n,
{
    if n <= 0 {
        Seq::empty()
    } else {
        requests_textures(base, requests, images, n - 1).push(
            loaded_texture(
                base + requests_calls(base, requests, images, n - 1).len(),
                requests[n - 1],
                images[first_image(images, requests[n - 1].file)],
            ),
        )
    }
}

/// The files of the first `n` of `requests`, in order.
pub open spec fn requests_files(requests: Seq<TextureRequestView>, n: int) -> Seq<Seq<char>> {
    Seq::new(n as nat, |i: int| requests[i].file)
}

/// Once a request fails, the failure stays whatever requests follow.
proof fn lemma_requests_failure_persists(requests: Seq<TextureRequestView>, images: Seq<DecodedImage>, m: int, n: int)
    requires
        m <= n,
        requests_failure(requests, images, m) is Some,
    ensures
        requests_failure(requests, images, n) == requests_failure(requests, images, m),
    decreases n - m,
{
    if m < n {
        lemma_requests_failure_persists(requests, images, m, n - 1);
    }
}

/// Where no request among the first `n` fails, none of them fails.
proof fn lemma_requests_succeed(requests: Seq<TextureRequestView>, images: Seq<DecodedImage>, n: int, i: int)
    requires
        0 <= i < n,
        requests_failure(requests, images, n) is None,
    ensures
        request_failure(requests[i], images) is None,
    decreases n,
{
    if i < n - 1 {
        lemma_requests_succeed(requests, images, n - 1, i);
    }
}

/// The textures of the first `n` requests are as many, and each is the one
/// that its request makes where its calls begin.
pub proof fn lemma_requests_textures(
    base: int,
    requests: Seq<TextureRequestView>,
    images: Seq<DecodedImage>,
    n: int,
    i: int,
)
    requires
        0 <= i < n,
    ensures
        requests_textures(base, requests, images, n).len() == n,
        requests_textures(base, requests, images, n)[i] == loaded_texture(
            base + requests_calls(base, requests, images, i).len(),
            requests[i],
            images[first_image(images, requests[i].file)],
        ),
    decreases n,
{
    if n > 1 {
        lemma_requests_textures(base, requests, images, n - 1, if i < n - 1 {
            i
        } else {
            0
        });
    } else {
        assert(requests_textures(base, requests, images, 0).len() == 0);
    }
}

/// The place of the first of `images` that is of the file `file`.
fn find_image(images: &Vec<DecodedImage>, file: &str) -> (found: Option<usize>)
    ensures
        match found {
            Some(at) => at == first_image(images@, file@) && at < images@.len(),
            None => first_image(images@, file@) == images@.len(),
        },
{
    proof {
        lemma_first_image(images@, file@);
    }
    let n = images.len();
    let mut i: usize = 0;
    while i < n
        invariant
            n == images@.len(),
            i <= n,
            i <= first_image(images@, file@) <= n,
            first_image(images@, file@) < n ==> images@[first_image(images@, file@)].file@ == file@,
            forall|j: int| 0 <= j < first_image(images@, file@) ==> (#[trigger] images@[j]).file@ != file@,
        decreases n - i,
    {
        if str_eq(images[i].file.as_str(), file) {
            return Some(i);
        }
        i += 1;
    }
    None
}

/// Loads one requested texture from its image, fills its mip chain, and
/// stores it under the name of its file.
fn load_image(
    device: &mut Device,
    textures: &mut ResourceTable<Texture>,
    request: &TextureRequest,
    image: &DecodedImage,
) -> (at: usize)
    requires
        old(textures).wf(),
        image_fits(image.rgba@.len(), image.dimensions),
    ensures
        final(device)@ == old(device)@ + loaded_calls(old(device)@.len() as int, request@, *image),
        final(textures).wf(),
        final(textures).keys() == keys_after_insert(old(textures).keys(), request.file@),
        index_in(final(textures).keys(), request.file@) == Some(at as int),
        at < final(textures).values().len(),
        final(textures).values()[at as int] == loaded_texture(old(device)@.len() as int, request@, *image),
        forall|i: int|
            0 <= i < old(textures).values().len() && i != at ==> final(textures).values()[i] == old(textures).values()[i],
        old(textures).values().len() <= final(textures).values().len(),
{
    let mut texture = Texture::from_rgba_data(
        device,
        image.rgba.as_slice(),
        image.dimensions,
        request.file.as_str(),
        request.format,
        request.repeat_mode,
    );
    texture.generate_mipmaps(device);
    assert(device@ =~= old(device)@ + loaded_calls(old(device)@.len() as int, request@, *image));
    textures.insert_full(request.file.clone(), texture)
}

impl Engine {
    /// The textures that the given model files need, as the tables stand.
    pub open spec fn requested(&self, model_files: Seq<String>) -> Seq<TextureRequestView> {
        without_repeats(
            files_requests(self.scene.resources, model_files, model_files.len() as int),
            files_requests(self.scene.resources, model_files, model_files.len() as int).len() as int,
        )
    }

    /// The textures that the meshes of the given model files need, each
    /// once, in the order in which the meshes first ask for them. The
    /// requests are a set; they are kept as a vector without repeats, so
    /// that the textures are loaded in the same order on every run.
    pub fn texture_requests(&self, model_files: &Vec<String>) -> (requests: Vec<TextureRequest>)
        requires
            self.wf(),
        ensures
            request_views(requests@) == without_repeats(
                files_requests(self.scene.resources, model_files@, model_files@.len() as int),
                files_requests(self.scene.resources, model_files@, model_files@.len() as int).len() as int,
            ),
            request_views(requests@).no_duplicates(),
            forall|request: TextureRequestView|
                request_views(requests@).contains(request) <==> files_requests(
                    self.scene.resources,
                    model_files@,
                    model_files@.len() as int,
                ).contains(request),
    {
        let mut all: Vec<TextureRequest> = Vec::new();
        let count = model_files.len();
        let mut i: usize = 0;
        while i < count
            invariant
                self.wf(),
                count == model_files@.len(),
                i <= count,
                request_views(all@) == files_requests(self.scene.resources, model_files@, i as int),
            decreases count - i,
        {
            let ghost before = request_views(all@);
            if let Some(meshes) = self.scene.resources.meshes.get(model_files[i].as_str()) {
                let n = meshes.len();
                let mut j: usize = 0;
                while j < n
                    invariant
                        meshes.wf(),
                        n == meshes.values().len(),
                        j <= n,
                        request_views(all@) == before + meshes_requests(meshes.values(), j as int),
                    decreases n - j,
                {
                    if let Some((_, mesh)) = meshes.get_index(j) {
                        let ghost so_far = request_views(all@);
                        request_map(&mut all, &mesh.map_albedo, TextureFormat::Rgba8UnormSrgb);
                        request_map(&mut all, &mesh.map_arm, TextureFormat::Rgba8Unorm);
                        request_map(&mut all, &mesh.map_normal, TextureFormat::Rgba8Unorm);
                        assert(request_views(all@) =~= so_far + mesh_requests(*mesh));
                    }
                    j += 1;
                    assert(request_views(all@) =~= before + meshes_requests(meshes.values(), j as int));
                }
            } else {
                assert(meshes_requests(Seq::<Mesh>::empty(), 0) =~= Seq::<TextureRequestView>::empty());
            }
            i += 1;
            assert(request_views(all@) =~= files_requests(self.scene.resources, model_files@, i as int));
        }
        let ghost wanted = request_views(all@);
        let mut requests: Vec<TextureRequest> = Vec::new();
        let total = all.len();
        let mut k: usize = 0;
        while k < total
            invariant
                total == all@.len(),
                k <= total,
                wanted == request_views(all@),
                request_views(requests@) == without_repeats(wanted, k as int),
            decreases total - k,
        {
            let request = &all[k];
            assert(request@ == wanted[k as int]);
            if !holds(&requests, request.file.as_str(), request.format, request.repeat_mode) {
                requests.push(
                    TextureRequest {
                        file: request.file.clone(),
                        format: request.format,
                        repeat_mode: request.repeat_mode,
                    },
                );
            }
            k += 1;
            assert(request_views(requests@) =~= without_repeats(wanted, k as int));
        }
        proof {
            lemma_without_repeats(wanted, wanted.len() as int);
        }
        requests
    }

    /// The names under which the textures of the engine are stored, in the
    /// order in which they are loaded: the noise for ambient occlusion, the
    /// target of the voxel passes, and the files of the requests.
    pub open spec fn texture_names(requests: Seq<TextureRequestView>) -> Seq<Seq<char>> {
        seq!["SSAO_NOISE"@, "VOXEL_CALCULATION_FRAGMENTS_RENDER_RESOLUTION"@] + requests_files(
            requests,
            requests.len() as int,
        )
    }

    /// The textures of the engine, in the order in which they are loaded,
    /// when the first call gets the handle `base`: the noise of four by four
    /// pixels, the target of 1920 by 1920 pixels, and the requested textures.
    pub open spec fn textures_made(base: int, requests: Seq<TextureRequestView>, images: Seq<DecodedImage>) -> Seq<
        Texture,
    > {
        seq![
            Texture {
                texture: base as usize,
                view: (base + 1) as usize,
                sampler: (base + 2) as usize,
                format: TextureFormat::Rgba16Float,
                size: flat((4, 4)),
            },
            Texture {
                texture: (base + 4) as usize,
                view: (base + 5) as usize,
                sampler: (base + 6) as usize,
                format: TextureFormat::Rgba16Float,
                size: flat((1920, 1920)),
            },
        ] + requests_textures(base + 7, requests, images, requests.len() as int)
    }

    /// The calls that load the textures of the engine, when the first call
    /// gets the handle `base`.
    pub open spec fn textures_calls(
        base: int,
        noise: Seq<u8>,
        requests: Seq<TextureRequestView>,
        images: Seq<DecodedImage>,
    ) -> Seq<DeviceCallView> {
        image_texture_calls(base, (4, 4), "SSAO_NOISE"@, TextureFormat::Rgba16Float, AddressMode::Repeat).push(
            DeviceCallView::WriteTexture {
                texture: base as usize,
                data: noise,
                layout: image_layout(noise.len(), (4, 4)),
                size: flat((4, 4)),
            },
        ) + image_texture_calls(
            base + 4,
            (1920, 1920),
            "VOXEL_CALCULATION_FRAGMENTS_RENDER_RESOLUTION"@,
            TextureFormat::Rgba16Float,
            AddressMode::Repeat,
        ) + requests_calls(base + 7, requests, images, requests.len() as int)
    }

    /// Loading the quad and the shaders does not change what the meshes of
    /// the first `n` model files ask for.
    proof fn lemma_files_requests_stay(built: Engine, quad: Engine, shaders: Engine, model_files: Seq<String>, n: int)
        requires
            Self::quad_loaded(built, quad),
            Self::shaders_loaded(quad, shaders),
            0 <= n <= model_files.len(),
            forall|i: int| 0 <= i < model_files.len() ==> (#[trigger] model_files[i])@ != "BLIT"@,
        ensures
            files_requests(shaders.scene.resources, model_files, n) == files_requests(
                built.scene.resources,
                model_files,
                n,
            ),
        decreases n,
    {
        if n > 0 {
            Self::lemma_files_requests_stay(built, quad, shaders, model_files, n - 1);
            let file = model_files[n - 1]@;
            assert(meshes_of(quad.scene.resources, file) == meshes_of(built.scene.resources, file));
        }
    }

    /// Loading the quad and the shaders does not change which textures the
    /// meshes of model files ask for. So the requests that `begin_load`
    /// hands out, on the engine `built`, are the requests for which the
    /// textures are loaded later, on the engine `shaders`. The name "BLIT"
    /// is the engine's own: a model file of that name is left out here.
    pub proof fn lemma_requests_stay(built: Engine, quad: Engine, shaders: Engine, model_files: Seq<String>)
        requires
            Self::quad_loaded(built, quad),
            Self::shaders_loaded(quad, shaders),
            forall|i: int| 0 <= i < model_files.len() ==> (#[trigger] model_files[i])@ != "BLIT"@,
        ensures
            shaders.requested(model_files) == built.requested(model_files),
    {
        Self::lemma_files_requests_stay(built, quad, shaders, model_files, model_files.len() as int);
    }

    /// Whether `after` is the engine `before` with its textures loaded: the
    /// noise, the target of the voxel passes, and every texture that the
    /// meshes of the model files ask for, each from the first image of its
    /// file and with its mip chain filled. Nothing else changes.
    pub open spec fn textures_loaded(
        before: Engine,
        after: Engine,
        model_files: Seq<String>,
        noise: Seq<u8>,
        images: Seq<DecodedImage>,
    ) -> bool {
        let base = before.context.device@.len() as int;
        let requests = before.requested(model_files);
        &&& after.context.device@ == before.context.device@ + Self::textures_calls(base, noise, requests, images)
        &&& ResourceTable::filled_from(
            before.scene.resources.textures,
            after.scene.resources.textures,
            Self::texture_names(requests),
            Self::textures_made(base, requests, images),
            |texture: Texture, made: Texture| texture == made,
        )
        &&& after.context.config == before.context.config
        &&& after.frame_textures == before.frame_textures
        &&& after.voxel_light_map == before.voxel_light_map
        &&& after.active_camera == before.active_camera
        &&& after.scene_lighting == before.scene_lighting
        &&& after.scene.root == before.scene.root
        &&& after.scene.entity_name_paths == before.scene.entity_name_paths
        &&& after.scene.resources.shaders == before.scene.resources.shaders
        &&& after.scene.resources.materials == before.scene.resources.materials
        &&& after.scene.resources.meshes == before.scene.resources.meshes
    }

    /// What is wrong with the images for the requested textures, as an
    /// error; `None` if every request has an image that fits.
    pub fn check_images(requests: &Vec<TextureRequest>, images: &Vec<DecodedImage>) -> (failure: Option<EngineLoadError>)
        ensures
            match requests_failure(request_views(requests@), images@, requests@.len() as int) {
                None => failure is None,
                Some(ImageFailure::Missing(file)) => failure matches Some(EngineLoadError::MissingImage { file: f }) && f@
                    == file,
                Some(ImageFailure::Invalid(file)) => failure matches Some(EngineLoadError::InvalidImage { file: f }) && f@
                    == file,
            },
    {
        let ghost views = request_views(requests@);
        let n = requests.len();
        let mut i: usize = 0;
        while i < n
            invariant
                n == requests@.len(),
                views == request_views(requests@),
                i <= n,
                requests_failure(views, images@, i as int) is None,
            decreases n - i,
        {
            let request = &requests[i];
            assert(views[i as int] == request@);
            match find_image(images, request.file.as_str()) {
                None => {
                    proof {
                        lemma_requests_failure_persists(views, images@, i + 1, n as int);
                    }
                    return Some(EngineLoadError::MissingImage { file: request.file.clone() });
                },
                Some(at) => {
                    if !fits(images[at].rgba.len(), images[at].dimensions) {
                        proof {
                            lemma_requests_failure_persists(views, images@, i + 1, n as int);
                        }
                        return Some(EngineLoadError::InvalidImage { file: request.file.clone() });
                    }
                },
            }
            i += 1;
        }
        None
    }

    /// Loads the textures of the engine: the noise for ambient occlusion
    /// from the pixels handed over, the target of the voxel passes, and
    /// every texture that the meshes of the model files ask for, each from
    /// the first image of its file. The images are checked first: where one
    /// is missing or does not fit, nothing is loaded.
    pub fn load_textures(&mut self, model_files: &Vec<String>, noise: &[u8], images: &Vec<DecodedImage>) -> (result:
        Result<(), EngineLoadError>)
        requires
            old(self).wf(),
        ensures
            final(self).wf(),
            match requests_failure(
                old(self).requested(model_files@),
                images@,
                old(self).requested(model_files@).len() as int,
            ) {
                None => result is Ok && Self::textures_loaded(*old(self), *final(self), model_files@, noise@, images@),
                Some(ImageFailure::Missing(file)) => {
                    &&& result matches Err(EngineLoadError::MissingImage { file: f })
                    &&& f@ == file
                    &&& *final(self) == *old(self)
                },
                Some(ImageFailure::Invalid(file)) => {
                    &&& result matches Err(EngineLoadError::InvalidImage { file: f })
                    &&& f@ == file
                    &&& *final(self) == *old(self)
                },
            },
    {
        let requests = self.texture_requests(model_files);
        match Self::check_images(&requests, images) {
            Some(error) => {
                return Err(error);
            },
            None => {},
        }
        let ghost views = request_views(requests@);
        let ghost base = self.context.device@.len() as int;
        let ghost before = self.scene.resources.textures;
        let ghost same = |texture: Texture, made: Texture| texture == made;
        let ghost names = Self::texture_names(views);
        let ghost made = Self::textures_made(base, views, images@);
        proof {
            ResourceTable::lemma_filled_start(before, same);
        }

        let ghost middle = self.scene.resources.textures;
        proof {
            let bytes = (noise@.len() as u32) as nat;
            let texels = bytes / 16;
            assert(bytes_per_channel(noise@.len(), (4, 4)) == texels / 4);
            assert(16 * (texels / 4) <= u32::MAX);
        }
        let texture = Texture::from_rgba_data(
            &mut self.context.device,
            noise,
            (4, 4),
            "SSAO_NOISE",
            TextureFormat::Rgba16Float,
            AddressMode::Repeat,
        );
        let at = self.scene.resources.textures.insert_full(String::from_str("SSAO_NOISE"), texture);
        proof {
            ResourceTable::lemma_filled_step(
                before,
                middle,
                self.scene.resources.textures,
                Seq::<Seq<char>>::empty(),
                Seq::<Texture>::empty(),
                same,
                "SSAO_NOISE"@,
                texture,
                at as int,
            );
        }

        let ghost middle = self.scene.resources.textures;
        let texture = Texture::from_dimensions(
            &mut self.context.device,
            (1920, 1920),
            "VOXEL_CALCULATION_FRAGMENTS_RENDER_RESOLUTION",
            TextureFormat::Rgba16Float,
            AddressMode::Repeat,
        );
        let at = self.scene.resources.textures.insert_full(
            String::from_str("VOXEL_CALCULATION_FRAGMENTS_RENDER_RESOLUTION"),
            texture,
        );
        proof {
            ResourceTable::lemma_filled_step(
                before,
                middle,
                self.scene.resources.textures,
                Seq::<Seq<char>>::empty().push("SSAO_NOISE"@),
                Seq::<Texture>::empty().push(made[0]),
                same,
                "VOXEL_CALCULATION_FRAGMENTS_RENDER_RESOLUTION"@,
                texture,
                at as int,
            );
            assert(Seq::<Seq<char>>::empty().push("SSAO_NOISE"@).push(
                "VOXEL_CALCULATION_FRAGMENTS_RENDER_RESOLUTION"@,
            ) =~= names.take(2));
            assert(Seq::<Texture>::empty().push(made[0]).push(made[1]) =~= made.take(2));
            assert(requests_calls(base + 7, views, images@, 0) =~= Seq::<DeviceCallView>::empty());
        }
        let ghost fixed = self.context.device@;

        let n = requests.len();
        proof {
            if n > 0 {
                lemma_requests_textures(base + 7, views, images@, n as int, 0);
            }
        }
        let mut i: usize = 0;
        while i < n
            invariant
                self.scene.wf(),
                n == requests@.len(),
                views == request_views(requests@),
                i <= n,
                requests_failure(views, images@, n as int) is None,
                base == old(self).context.device@.len(),
                before == old(self).scene.resources.textures,
                before.wf(),
                same == |texture: Texture, made: Texture| texture == made,
                names == Self::texture_names(views),
                made == Self::textures_made(base, views, images@),
                made.len() == 2 + n,
                fixed.len() == base + 7,
                self.context.device@ == fixed + requests_calls(base + 7, views, images@, i as int),
                ResourceTable::filled_from(
                    before,
                    self.scene.resources.textures,
                    names.take(2 + i),
                    made.take(2 + i),
                    same,
                ),
                self.context.config == old(self).context.config,
                self.frame_textures == old(self).frame_textures,
                self.voxel_light_map == old(self).voxel_light_map,
                self.active_camera == old(self).active_camera,
                self.scene_lighting == old(self).scene_lighting,
                self.scene.root == old(self).scene.root,
                self.scene.entity_name_paths == old(self).scene.entity_name_paths,
                self.scene.resources.shaders == old(self).scene.resources.shaders,
                self.scene.resources.materials == old(self).scene.resources.materials,
                self.scene.resources.meshes == old(self).scene.resources.meshes,
            decreases n - i,
        {
            let request = &requests[i];
            proof {
                assert(views[i as int] == request@);
                lemma_requests_succeed(views, images@, n as int, i as int);
            }
            if let Some(found) = find_image(images, request.file.as_str()) {
                let image = &images[found];
                let ghost middle = self.scene.resources.textures;
                let ghost so_far = self.context.device@;
                let at = load_image(&mut self.context.device, &mut self.scene.resources.textures, request, image);
                proof {
                    let texture = loaded_texture(so_far.len() as int, views[i as int], *image);
                    lemma_requests_textures(base + 7, views, images@, n as int, i as int);
                    assert(made[2 + i] == texture);
                    ResourceTable::lemma_filled_step(
                        before,
                        middle,
                        self.scene.resources.textures,
                        names.take(2 + i),
                        made.take(2 + i),
                        same,
                        request.file@,
                        texture,
                        at as int,
                    );
                    assert(names.take(2 + i).push(request.file@) =~= names.take(2 + i + 1));
                    assert(made.take(2 + i).push(texture) =~= made.take(2 + i + 1));
                }
            }
            i += 1;
            assert(self.context.device@ =~= fixed + requests_calls(base + 7, views, images@, i as int));
        }
        proof {
            if n > 0 {
                lemma_requests_textures(base + 7, views, images@, n as int, 0);
            }
            assert(names.take(2 + n) =~= names);
            assert(made.take(2 + n) =~= made);
            assert(self.context.device@ =~= old(self).context.device@ + Self::textures_calls(
                base,
                noise@,
                views,
                images@,
            ));
        }
        Ok(())
    }
}

} // verus!
