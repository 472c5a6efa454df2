//! Materials: a shader together with the concrete resources for its slots.

use crate::gpu::{BindGroupEntry, BindingResource, BufferBinding, Device, DeviceCall, DeviceCallView};
use crate::resource_table::index_in;
use crate::scene::LoadedResources;
use crate::shader::{lemma_slot_count_monotonic, slot_count, Shader, ShaderBinding};
use crate::texture::Texture;
use vstd::prelude::*;
use vstd::string::StringExecFns;

verus! {

/// A material: the handle of its shader, its name, and its bind group.
#[derive(Debug)]
pub struct Material {
    pub shader_id: usize,
    pub name: String,
    pub bind_group: usize,
}

/// The resource that a material supplies for one binding its shader declares.
#[derive(Clone, Copy, Debug)]
pub enum MaterialDataBinding<'a> {
    /// A range of a buffer.
    Buffer(BufferBinding),
    /// A texture with its own sampler.
    Texture(&'a Texture),
    /// A depth texture, read through the given comparison sampler.
    SampleableDepthTexture(&'a Texture, usize),
    /// A texture for storage access, through the given view or else its default view.
    StorageTexture(&'a Texture, Option<usize>),
    /// A loaded texture, looked up by name.
    TextureName(&'a str),
}

/// The mathematical content of a [`MaterialDataBinding`].
pub enum DataBindingView {
    Buffer(BufferBinding),
    Texture(Texture),
    SampleableDepthTexture(Texture, usize),
    StorageTexture(Texture, Option<usize>),
    TextureName(Seq<char>),
}

impl<'a> View for MaterialDataBinding<'a> {
    type V = DataBindingView;

    open spec fn view(&self) -> DataBindingView {
        match self {
            MaterialDataBinding::Buffer(buffer) => DataBindingView::Buffer(*buffer),
            MaterialDataBinding::Texture(texture) => DataBindingView::Texture(**texture),
            MaterialDataBinding::SampleableDepthTexture(texture, sampler) => DataBindingView::SampleableDepthTexture(
                **texture,
                *sampler,
            ),
            MaterialDataBinding::StorageTexture(texture, view) => DataBindingView::StorageTexture(**texture, *view),
            MaterialDataBinding::TextureName(name) => DataBindingView::TextureName(name@),
        }
    }
}

/// The content of each supplied binding, in order.
pub open spec fn binding_views(data: Seq<MaterialDataBinding>) -> Seq<DataBindingView> {
    Seq::new(data.len(), |i: int| data[i]@)
}

/// Why a material could not be built.
#[derive(Clone, Debug, PartialEq, Eq)]
pub enum MaterialError {
    /// The shader that the material names is not loaded.
    UnknownShader { material: String, shader: String },
    /// The supplied bindings do not match, in number or in kind, what the shader declares.
    BindingMismatch { material: String },
    /// A texture that the material names is not loaded.
    UnknownTexture { material: String, texture: String },
}

/// Why the bindings of a material could not be resolved.
pub enum BindingFailure {
    Mismatch,
    UnknownTexture(Seq<char>),
}

/// Why a material could not be defined: its shader is not loaded, or its
/// bindings could not be resolved.
pub enum DefinitionFailure {
    UnknownShader,
    Binding(BindingFailure),
}

/// What defines the material of the shader `shader` with the supplied
/// bindings `data`, as the tables stand: the handle of the shader, the
/// layout of the bind group, and its entries.
pub open spec fn definition(resources: LoadedResources, shader: Seq<char>, data: Seq<DataBindingView>) -> Result<
    (int, usize, Seq<BindGroupEntry>),
    DefinitionFailure,
> {
    match index_in(resources.shaders.keys(), shader) {
        None => Err(DefinitionFailure::UnknownShader),
        Some(shader_id) => match material_entries(
            resources.shaders.values()[shader_id].shader_bindings@,
            data,
            resources.textures.keys(),
            resources.textures.values(),
        ) {
            Ok(entries) => Ok((shader_id, resources.shaders.values()[shader_id].bind_group_layout, entries)),
            Err(failure) => Err(DefinitionFailure::Binding(failure)),
        },
    }
}

impl MaterialError {
    /// Whether this is the error that `failure` gives for the material
    /// `material` of the shader `shader`.
    pub open spec fn tells(&self, material: Seq<char>, shader: Seq<char>, failure: DefinitionFailure) -> bool {
        match failure {
            DefinitionFailure::UnknownShader => *self matches MaterialError::UnknownShader { material: m, shader: s }
                && m@ == material && s@ == shader,
            DefinitionFailure::Binding(binding) => self.reports(material, binding),
        }
    }

    /// Whether this is the error that `failure` gives for the material `material`.
    pub open spec fn reports(&self, material: Seq<char>, failure: BindingFailure) -> bool {
        match failure {
            BindingFailure::Mismatch => *self matches MaterialError::BindingMismatch { material: m } && m@ == material,
            BindingFailure::UnknownTexture(name) => *self matches MaterialError::UnknownTexture { material: m, texture: t }
                && m@ == material && t@ == name,
        }
    }

    /// The text of the error.
    pub open spec fn spec_message(&self) -> Seq<char> {
        match self {
            MaterialError::UnknownShader { material, shader } => "The shader '"@ + shader@ + "' of material '"@
                + material@ + "' is not loaded"@,
            MaterialError::BindingMismatch { material } => "Provided binding data for material '"@ + material@
                + "' does not match the shader definition"@,
            MaterialError::UnknownTexture { material, texture } => "The texture '"@ + texture@ + "' of material '"@
                + material@ + "' is not loaded"@,
        }
    }

    /// The text of the error. It names the material, and the shader or
    /// texture that is missing.
    pub fn message(&self) -> (text: String)
        ensures
            text@ == self.spec_message(),
    {
        match self {
            MaterialError::UnknownShader { material, shader } => String::from_str("The shader '").concat(
                shader.as_str(),
            ).concat("' of material '").concat(material.as_str()).concat("' is not loaded"),
            MaterialError::BindingMismatch { material } => String::from_str(
                "Provided binding data for material '",
            ).concat(material.as_str()).concat("' does not match the shader definition"),
            MaterialError::UnknownTexture { material, texture } => String::from_str("The texture '").concat(
                texture.as_str(),
            ).concat("' of material '").concat(material.as_str()).concat("' is not loaded"),
        }
    }
}

/// The sampler and the view that a supplied binding gives to the two slots
/// of a declared texture. A texture gives its own, a depth texture its view
/// with the sampler supplied beside it, and a name those of the loaded
/// texture. A buffer or a storage texture is of another kind.
pub open spec fn texture_of(data: DataBindingView, keys: Seq<Seq<char>>, textures: Seq<Texture>) -> Result<
    (usize, usize),
    BindingFailure,
> {
    match data {
        DataBindingView::Texture(texture) => Ok((texture.sampler, texture.view)),
        DataBindingView::SampleableDepthTexture(texture, sampler) => Ok((sampler, texture.view)),
        DataBindingView::TextureName(name) => match index_in(keys, name) {
            Some(i) => Ok((textures[i].sampler, textures[i].view)),
            None => Err(BindingFailure::UnknownTexture(name)),
        },
        _ => Err(BindingFailure::Mismatch),
    }
}

/// The view that a supplied binding gives to the slot of a declared storage
/// texture: the storage view of a storage texture where one is given, else
/// the default view of its texture. Every other binding is of another kind.
pub open spec fn storage_view_of(data: DataBindingView) -> Result<usize, BindingFailure> {
    match data {
        DataBindingView::StorageTexture(texture, view) => Ok(
            match view {
                Some(v) => v,
                None => texture.view,
            },
        ),
        _ => Err(BindingFailure::Mismatch),
    }
}

/// The bind group entries for one declared binding whose first slot is
/// `slot`, filled from the supplied binding.
pub open spec fn filled(
    declared: ShaderBinding,
    data: DataBindingView,
    slot: u32,
    keys: Seq<Seq<char>>,
    textures: Seq<Texture>,
) -> Result<Seq<BindGroupEntry>, BindingFailure> {
    match declared {
        ShaderBinding::Buffer(_) => match data {
            DataBindingView::Buffer(buffer) => Ok(
                seq![BindGroupEntry { binding: slot, resource: BindingResource::Buffer(buffer) }],
            ),
            _ => Err(BindingFailure::Mismatch),
        },
        ShaderBinding::Texture(_) => match texture_of(data, keys, textures) {
            Ok((sampler, view)) => Ok(
                seq![
                    BindGroupEntry { binding: slot, resource: BindingResource::TextureView(view) },
                    BindGroupEntry { binding: (slot + 1) as u32, resource: BindingResource::Sampler(sampler) },
                ],
            ),
            Err(failure) => Err(failure),
        },
        ShaderBinding::StorageTexture(_, _) => match storage_view_of(data) {
            Ok(view) => Ok(seq![BindGroupEntry { binding: slot, resource: BindingResource::TextureView(view) }]),
            Err(failure) => Err(failure),
        },
    }
}

/// The bind group entries for the first `n` declared bindings, filled
/// position by position from the supplied bindings; or the failure at the
/// first position that cannot be filled.
pub open spec fn filled_upto(
    declared: Seq<ShaderBinding>,
    data: Seq<DataBindingView>,
    keys: Seq<Seq<char>>,
    textures: Seq<Texture>,
    n: int,
) -> Result<Seq<BindGroupEntry>, BindingFailure>
    decreases n,
{
    if n <= 0 {
        Ok(Seq::empty())
    } else {
        match filled_upto(declared, data, keys, textures, n - 1) {
            Ok(before) => match filled(
                declared[n - 1],
                data[n - 1],
                slot_count(declared, n - 1) as u32,
                keys,
                textures,
            ) {
                Ok(entries) => Ok(before + entries),
                Err(failure) => Err(failure),
            },
            Err(failure) => Err(failure),
        }
    }
}

/// Once a position cannot be filled, the failure stays whatever follows.
pub proof fn lemma_failure_persists(
    declared: Seq<ShaderBinding>,
    data: Seq<DataBindingView>,
    keys: Seq<Seq<char>>,
    textures: Seq<Texture>,
    m: int,
    n: int,
)
    requires
        m <= n,
        filled_upto(declared, data, keys, textures, m) is Err,
    ensures
        filled_upto(declared, data, keys, textures, n) == filled_upto(declared, data, keys, textures, m),
    decreases n - m,
{
    if m < n {
        lemma_failure_persists(declared, data, keys, textures, m, n - 1);
    }
}

/// The bind group entries of a material: a mismatch unless exactly one
/// binding is supplied for each declared one, and otherwise the entries
/// filled position by position.
pub open spec fn material_entries(
    declared: Seq<ShaderBinding>,
    data: Seq<DataBindingView>,
    keys: Seq<Seq<char>>,
    textures: Seq<Texture>,
) -> Result<Seq<BindGroupEntry>, BindingFailure> {
    if data.len() != declared.len() {
        Err(BindingFailure::Mismatch)
    } else {
        filled_upto(declared, data, keys, textures, declared.len() as int)
    }
}

/// Whether the supplied binding is of the kind that fills the declared
/// one: a buffer for a buffer; a texture, the name of a texture, or a depth
/// texture with its sampler for a texture; a storage texture for a storage
/// texture.
pub open spec fn kind_matches(declared: ShaderBinding, data: DataBindingView) -> bool {
    match declared {
        ShaderBinding::Buffer(_) => data is Buffer,
        ShaderBinding::Texture(_) => data is Texture || data is TextureName || data is SampleableDepthTexture,
        ShaderBinding::StorageTexture(_, _) => data is StorageTexture,
    }
}

/// Whether the supplied binding names a texture that is not loaded.
pub open spec fn names_unknown(data: DataBindingView, keys: Seq<Seq<char>>) -> bool {
    data matches DataBindingView::TextureName(name) && index_in(keys, name) is None
}

/// Filling succeeds for the first `n` positions exactly when every supplied
/// binding there is of the declared kind and names no texture that is not
/// loaded. The entries then take exactly the slots that the declaration
/// implies, one for a buffer or storage texture and two for a sampled
/// texture, numbered 0, 1, 2 and so on without a gap.
pub proof fn lemma_filled_slots(
    declared: Seq<ShaderBinding>,
    data: Seq<DataBindingView>,
    keys: Seq<Seq<char>>,
    textures: Seq<Texture>,
    n: int,
)
    requires
        0 <= n <= declared.len(),
        n <= data.len(),
        slot_count(declared, n) <= u32::MAX,
    ensures
        filled_upto(declared, data, keys, textures, n) is Ok <==> (forall|i: int|
            0 <= i < n ==> kind_matches(#[trigger] declared[i], data[i]) && !names_unknown(data[i], keys)),
        filled_upto(declared, data, keys, textures, n) matches Ok(entries) ==> {
            &&& entries.len() == slot_count(declared, n)
            &&& forall|j: int| 0 <= j < entries.len() ==> (#[trigger] entries[j]).binding == j
        },
    decreases n,
{
    if n > 0 {
        lemma_slot_count_monotonic(declared, n - 1, n);
        lemma_filled_slots(declared, data, keys, textures, n - 1);
        let before = filled_upto(declared, data, keys, textures, n - 1);
        if before is Ok {
            if filled_upto(declared, data, keys, textures, n) is Err {
                assert(!(kind_matches(declared[n - 1], data[n - 1]) && !names_unknown(data[n - 1], keys)));
            }
        } else {
            let i = choose|i: int|
                0 <= i < n - 1 && !(kind_matches(#[trigger] declared[i], data[i]) && !names_unknown(data[i], keys));
            assert(!(kind_matches(declared[i], data[i]) && !names_unknown(data[i], keys)));
        }
    }
}

/// A material can be built exactly when it supplies one binding for each
/// that the shader declares, each of the declared kind, and names only
/// loaded textures. Its bind group then has exactly as many entries as the
/// declared bindings take slots, numbered through from 0.
pub proof fn lemma_material_entries(
    declared: Seq<ShaderBinding>,
    data: Seq<DataBindingView>,
    keys: Seq<Seq<char>>,
    textures: Seq<Texture>,
)
    requires
        slot_count(declared, declared.len() as int) <= u32::MAX,
    ensures
        material_entries(declared, data, keys, textures) is Ok <==> {
            &&& data.len() == declared.len()
            &&& forall|i: int|
                0 <= i < declared.len() ==> kind_matches(#[trigger] declared[i], data[i]) && !names_unknown(
                    data[i],
                    keys,
                )
        },
        material_entries(declared, data, keys, textures) matches Ok(entries) ==> {
            &&& entries.len() == slot_count(declared, declared.len() as int)
            &&& forall|j: int| 0 <= j < entries.len() ==> (#[trigger] entries[j]).binding == j
        },
{
    if data.len() == declared.len() {
        lemma_filled_slots(declared, data, keys, textures, declared.len() as int);
    }
}

/// Whether `part` stands somewhere in `text`, letter for letter.
pub open spec fn stands_in(text: Seq<char>, part: Seq<char>) -> bool {
    exists|at: int| 0 <= at && at + part.len() <= text.len() && #[trigger] text.subrange(at, at + part.len()) == part
}

/// A material that names a texture that is not loaded cannot be built, and
/// the failure says which texture and which material. Where the shader is
/// loaded, as many bindings are supplied as it declares, the binding at
/// `at` names the texture `name` for a declared texture, no texture is
/// loaded under that name, and nothing is wrong before `at`, the material
/// fails for that texture; the error that tells of it holds the name of
/// the texture and the name of the material, and its text shows both.
pub proof fn lemma_missing_texture_is_named(
    resources: LoadedResources,
    material: Seq<char>,
    shader: Seq<char>,
    data: Seq<DataBindingView>,
    at: int,
    name: Seq<char>,
    error: MaterialError,
)
    requires
        resources.wf(),
        index_in(resources.shaders.keys(), shader) matches Some(id) && {
            let declared = resources.shaders.values()[id].shader_bindings@;
            &&& data.len() == declared.len()
            &&& 0 <= at < data.len()
            &&& declared[at] is Texture
            &&& forall|i: int|
                0 <= i < at ==> kind_matches(#[trigger] declared[i], data[i]) && !names_unknown(
                    data[i],
                    resources.textures.keys(),
                )
        },
        data[at] == DataBindingView::TextureName(name),
        index_in(resources.textures.keys(), name) is None,
        definition(resources, shader, data) matches Err(failure) && error.tells(material, shader, failure),
    ensures
        definition(resources, shader, data) == Err::<(int, usize, Seq<BindGroupEntry>), DefinitionFailure>(
            DefinitionFailure::Binding(BindingFailure::UnknownTexture(name)),
        ),
        error matches MaterialError::UnknownTexture { material: m, texture: t } && m@ == material && t@ == name,
        stands_in(error.spec_message(), name),
        stands_in(error.spec_message(), material),
{
    let id = index_in(resources.shaders.keys(), shader)->0;
    let declared = resources.shaders.values()[id].shader_bindings@;
    let keys = resources.textures.keys();
    let textures = resources.textures.values();
    resources.shaders.lemma_keys_distinct();
    assert(resources.shaders.values()[id].wf());
    lemma_slot_count_monotonic(declared, at, declared.len() as int);
    lemma_filled_slots(declared, data, keys, textures, at);
    assert(filled_upto(declared, data, keys, textures, at) is Ok);
    assert(filled_upto(declared, data, keys, textures, at + 1) == Err::<Seq<BindGroupEntry>, BindingFailure>(
        BindingFailure::UnknownTexture(name),
    ));
    lemma_failure_persists(declared, data, keys, textures, at + 1, declared.len() as int);
    let text = error.spec_message();
    let first = "The texture '"@.len() as int;
    let second = first + name.len() + "' of material '"@.len();
    assert(text.subrange(first, first + name.len()) =~= name);
    assert(text.subrange(second, second + material.len()) =~= material);
}

impl Material {
    /// Builds the material `material_name` for the shader `shader_name`.
    /// On success the bind group is made with the shader's layout and the
    /// entries that the supplied bindings fill. On failure nothing is asked
    /// of the device, and the error names the material.
    pub fn new(
        material_name: &str,
        shader_name: &str,
        data_bindings: Vec<MaterialDataBinding>,
        resources: &LoadedResources,
        device: &mut Device,
    ) -> (result: Result<Material, MaterialError>)
        requires
            resources.wf(),
        ensures
            match definition(*resources, shader_name@, binding_views(data_bindings@)) {
                Ok((shader_id, layout, entries)) => {
                    &&& result matches Ok(material)
                    &&& material.shader_id == shader_id
                    &&& material.name@ == material_name@
                    &&& material.bind_group == old(device)@.len()
                    &&& final(device)@ == old(device)@.push(DeviceCallView::CreateBindGroup { layout, entries })
                },
                Err(failure) => {
                    &&& result matches Err(error)
                    &&& error.tells(material_name@, shader_name@, failure)
                    &&& final(device)@ == old(device)@
                },
            },
    {
        let shader_id = match resources.shaders.index_of(shader_name) {
            Some(shader_id) => shader_id,
            None => {
                return Err(
                    MaterialError::UnknownShader {
                        material: String::from_str(material_name),
                        shader: String::from_str(shader_name),
                    },
                );
            },
        };
        let shader = match resources.shaders.get_index(shader_id) {
            Some((_, shader)) => shader,
            None => {
                return Err(
                    MaterialError::UnknownShader {
                        material: String::from_str(material_name),
                        shader: String::from_str(shader_name),
                    },
                );
            },
        };
        let entries = match bind_group_entries(material_name, shader, data_bindings, resources) {
            Ok(entries) => entries,
            Err(error) => {
                return Err(error);
            },
        };
        let bind_group = device.record(DeviceCall::CreateBindGroup { layout: shader.bind_group_layout, entries });
        Ok(Material { shader_id, name: String::from_str(material_name), bind_group })
    }
}

/// The sampler and the view that a supplied binding gives to the two slots
/// of a declared texture.
fn resolve_texture(material_name: &str, data: &MaterialDataBinding, resources: &LoadedResources) -> (result: Result<
    (usize, usize),
    MaterialError,
>)
    requires
        resources.wf(),
    ensures
        match texture_of(data@, resources.textures.keys(), resources.textures.values()) {
            Ok(pair) => result == Ok::<(usize, usize), MaterialError>(pair),
            Err(failure) => result matches Err(error) && error.reports(material_name@, failure),
        },
{
    match data {
        MaterialDataBinding::Texture(texture) => Ok((texture.sampler, texture.view)),
        MaterialDataBinding::SampleableDepthTexture(texture, sampler) => Ok((*sampler, texture.view)),
        MaterialDataBinding::TextureName(name) => match resources.textures.get(name) {
            Some(texture) => Ok((texture.sampler, texture.view)),
            None => Err(
                MaterialError::UnknownTexture {
                    material: String::from_str(material_name),
                    texture: String::from_str(name),
                },
            ),
        },
        _ => Err(MaterialError::BindingMismatch { material: String::from_str(material_name) }),
    }
}

/// The view that a supplied binding gives to the slot of a declared storage
/// texture.
fn resolve_storage_view(material_name: &str, data: &MaterialDataBinding) -> (result: Result<usize, MaterialError>)
    ensures
        match storage_view_of(data@) {
            Ok(view) => result == Ok::<usize, MaterialError>(view),
            Err(failure) => result matches Err(error) && error.reports(material_name@, failure),
        },
{
    match data {
        MaterialDataBinding::StorageTexture(texture, view) => Ok(
            match view {
                Some(v) => *v,
                None => texture.view,
            },
        ),
        _ => Err(MaterialError::BindingMismatch { material: String::from_str(material_name) }),
    }
}

/// The entries of the bind group of a material: the supplied bindings are
/// walked in step with the bindings that the shader declares, and each
/// fills the slots of its declared binding.
pub fn bind_group_entries(
    material_name: &str,
    shader: &Shader,
    data_bindings: Vec<MaterialDataBinding>,
    resources: &LoadedResources,
) -> (result: Result<Vec<BindGroupEntry>, MaterialError>)
    requires
        resources.wf(),
        shader.wf(),
    ensures
        match material_entries(
            shader.shader_bindings@,
            binding_views(data_bindings@),
            resources.textures.keys(),
            resources.textures.values(),
        ) {
            Ok(entries) => result matches Ok(built) && built@ == entries,
            Err(failure) => result matches Err(error) && error.reports(material_name@, failure),
        },
{
    let n = shader.shader_bindings.len();
    if data_bindings.len() != n {
        return Err(MaterialError::BindingMismatch { material: String::from_str(material_name) });
    }
    let ghost keys = resources.textures.keys();
    let ghost textures = resources.textures.values();
    let ghost views = binding_views(data_bindings@);
    let mut binding_index: u32 = 0;
    let mut entries: Vec<BindGroupEntry> = Vec::new();
    let mut index: usize = 0;
    while index < n
        invariant
            resources.wf(),
            keys == resources.textures.keys(),
            textures == resources.textures.values(),
            n == shader.shader_bindings@.len(),
            n == data_bindings@.len(),
            views == binding_views(data_bindings@),
            index <= n,
            slot_count(shader.shader_bindings@, n as int) <= u32::MAX,
            binding_index == slot_count(shader.shader_bindings@, index as int),
            filled_upto(shader.shader_bindings@, views, keys, textures, index as int) == Ok::<
                Seq<BindGroupEntry>,
                BindingFailure,
            >(entries@),
        ensures
            index == n,
            filled_upto(shader.shader_bindings@, views, keys, textures, n as int) == Ok::<
                Seq<BindGroupEntry>,
                BindingFailure,
            >(entries@),
        decreases n - index,
    {
        proof {
            lemma_slot_count_monotonic(shader.shader_bindings@, index + 1, n as int);
        }
        let ghost before = entries@;
        let binding = binding_index;
        match &shader.shader_bindings[index] {
            ShaderBinding::Buffer(_) => {
                binding_index += 1;
                let buffer_binding = match &data_bindings[index] {
                    MaterialDataBinding::Buffer(buffer) => *buffer,
                    _ => {
                        proof {
                            lemma_failure_persists(
                                shader.shader_bindings@,
                                views,
                                keys,
                                textures,
                                index + 1,
                                n as int,
                            );
                        }
                        return Err(MaterialError::BindingMismatch { material: String::from_str(material_name) });
                    },
                };
                entries.push(BindGroupEntry { binding, resource: BindingResource::Buffer(buffer_binding) });
            },
            ShaderBinding::Texture(_) => {
                binding_index += 2;
                let (sampler, texture_view) = match resolve_texture(material_name, &data_bindings[index], resources) {
                    Ok(pair) => pair,
                    Err(error) => {
                        proof {
                            lemma_failure_persists(
                                shader.shader_bindings@,
                                views,
                                keys,
                                textures,
                                index + 1,
                                n as int,
                            );
                        }
                        return Err(error);
                    },
                };
                entries.push(BindGroupEntry { binding, resource: BindingResource::TextureView(texture_view) });
                entries.push(BindGroupEntry { binding: binding + 1, resource: BindingResource::Sampler(sampler) });
            },
            ShaderBinding::StorageTexture(_, _) => {
                binding_index += 1;
                let texture_view = match resolve_storage_view(material_name, &data_bindings[index]) {
                    Ok(view) => view,
                    Err(error) => {
                        proof {
                            lemma_failure_persists(
                                shader.shader_bindings@,
                                views,
                                keys,
                                textures,
                                index + 1,
                                n as int,
                            );
                        }
                        return Err(error);
                    },
                };
                entries.push(BindGroupEntry { binding, resource: BindingResource::TextureView(texture_view) });
            },
        }
        index += 1;
        assert(entries@ =~= before + filled(
            shader.shader_bindings@[index - 1],
            views[index - 1],
            binding,
            keys,
            textures,
        )->Ok_0);
    }
    Ok(entries)
}

} // verus!
