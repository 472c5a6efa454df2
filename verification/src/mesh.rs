//! Meshes: the vertex and index buffers of one drawable piece of geometry,
//! and the names of the texture maps it asks for.
//!
//! Vertices reach the engine as 32-bit words, eleven for each vertex: the
//! position, the texture coordinate, the normal and the tangent, every
//! number in single precision.

use crate::gpu::{
    BufferUsages, Device, DeviceCall, DeviceCallView, VertexAttribute, VertexBufferLayout, VertexBufferLayoutView,
    VertexFormat, VertexStepMode, ONE_SINGLE,
};
use vstd::prelude::*;
use vstd::slice::slice_to_vec;
use vstd::string::StringExecFns;

verus! {

/// The 32-bit pattern of minus one in single precision.
pub const MINUS_ONE_SINGLE: u32 = 0xBF80_0000;

/// The 32-bit pattern of one half in single precision.
pub const HALF_SINGLE: u32 = 0x3F00_0000;

/// A mesh on the device.
#[derive(Debug)]
pub struct Mesh {
    pub name: String,
    pub vertex_buffer: usize,
    pub index_buffer: usize,
    pub index_count: u32,
    pub map_albedo: Option<String>,
    pub map_arm: Option<String>,
    pub map_normal: Option<String>,
}

/// The texture maps that the material of a mesh names in its source file.
/// An empty name stands for no map.
#[derive(Clone, Debug, PartialEq, Eq)]
pub struct MeshMaterial {
    pub diffuse_texture: String,
    pub shininess_texture: String,
    pub normal_texture: String,
}

/// One mesh of a model file, decoded: its vertices as words, its triangle
/// indices, and its material if it has one.
#[derive(Clone, Debug, PartialEq, Eq)]
pub struct MeshSource {
    pub name: String,
    pub vertices: Vec<u32>,
    pub indices: Vec<u32>,
    pub material: Option<MeshMaterial>,
}

/// The name of a texture map, if the source names one: an empty name is none.
pub open spec fn map_name(name: Seq<char>) -> Option<Seq<char>> {
    if name.len() == 0 {
        None
    } else {
        Some(name)
    }
}

/// Whether `map` holds the map that `source` names for a mesh with this material.
pub open spec fn map_is(map: Option<String>, material: Option<Seq<char>>) -> bool {
    match material {
        Some(name) => match map_name(name) {
            Some(present) => map matches Some(held) && held@ == present,
            None => map is None,
        },
        None => map is None,
    }
}

/// How a buffer of vertices may be used.
pub open spec fn vertex_usage() -> BufferUsages {
    BufferUsages { copy_src: false, copy_dst: false, index: false, vertex: true, uniform: false, storage: false }
}

/// How a buffer of indices may be used.
pub open spec fn index_usage() -> BufferUsages {
    BufferUsages { copy_src: false, copy_dst: false, index: true, vertex: false, uniform: false, storage: false }
}

/// The corners of the full-screen quad, as words: at (-1, -1), (-1, 1),
/// (1, -1) and (1, 1), each at depth one half, with all else zero.
pub open spec fn blit_quad_vertices() -> Seq<u32> {
    seq![
        MINUS_ONE_SINGLE, MINUS_ONE_SINGLE, HALF_SINGLE, 0, 0, 0, 0, 0, 0, 0, 0,
        MINUS_ONE_SINGLE, ONE_SINGLE, HALF_SINGLE, 0, 0, 0, 0, 0, 0, 0, 0,
        ONE_SINGLE, MINUS_ONE_SINGLE, HALF_SINGLE, 0, 0, 0, 0, 0, 0, 0, 0,
        ONE_SINGLE, ONE_SINGLE, HALF_SINGLE, 0, 0, 0, 0, 0, 0, 0, 0,
    ]
}

/// The two triangles of the full-screen quad.
pub open spec fn blit_quad_indices() -> Seq<u32> {
    seq![2u32, 1u32, 0u32, 3u32, 1u32, 2u32]
}

/// The two calls that put a mesh on the device: its vertex buffer, then its index buffer.
pub open spec fn mesh_calls(vertices: Seq<u32>, indices: Seq<u32>) -> Seq<DeviceCallView> {
    seq![
        DeviceCallView::CreateBufferInit { usage: vertex_usage(), contents: vertices },
        DeviceCallView::CreateBufferInit { usage: index_usage(), contents: indices },
    ]
}

/// `name` as a map name: `None` if it is empty.
fn present(name: &String) -> (map: Option<String>)
    ensures
        map_is(map, Some(name@)),
{
    if name.as_str().unicode_len() == 0 {
        None
    } else {
        Some(name.clone())
    }
}

impl Mesh {
    /// Puts one decoded mesh on the device. The maps that its material names
    /// are kept, except empty names; a mesh without material has no maps.
    /// The number of indices is kept in 32 bits.
    pub fn load(device: &mut Device, source: &MeshSource) -> (mesh: Mesh)
        ensures
            mesh.name@ == source.name@,
            mesh.vertex_buffer == old(device)@.len(),
            mesh.index_buffer == old(device)@.len() + 1,
            mesh.index_count == source.indices@.len() as u32,
            map_is(
                mesh.map_albedo,
                match source.material {
                    Some(m) => Some(m.diffuse_texture@),
                    None => None,
                },
            ),
            map_is(
                mesh.map_arm,
                match source.material {
                    Some(m) => Some(m.shininess_texture@),
                    None => None,
                },
            ),
            map_is(
                mesh.map_normal,
                match source.material {
                    Some(m) => Some(m.normal_texture@),
                    None => None,
                },
            ),
            final(device)@ == old(device)@ + mesh_calls(source.vertices@, source.indices@),
    {
        let vertex_buffer = device.record(
            DeviceCall::CreateBufferInit {
                usage: BufferUsages { vertex: true, ..BufferUsages::none() },
                contents: source.vertices.clone(),
            },
        );
        let index_buffer = device.record(
            DeviceCall::CreateBufferInit {
                usage: BufferUsages { index: true, ..BufferUsages::none() },
                contents: source.indices.clone(),
            },
        );
        assert(device@ =~= old(device)@ + mesh_calls(source.vertices@, source.indices@));
        let (map_albedo, map_arm, map_normal) = match &source.material {
            Some(material) => (
                present(&material.diffuse_texture),
                present(&material.shininess_texture),
                present(&material.normal_texture),
            ),
            None => (None, None, None),
        };
        Mesh {
            name: source.name.clone(),
            vertex_buffer,
            index_buffer,
            index_count: #[verifier::truncate] (source.indices.len() as u32),
            map_albedo,
            map_arm,
            map_normal,
        }
    }

    /// The quad that covers the whole viewport: four vertices and two
    /// triangles, called "Blit Quad", without maps.
    pub fn new_blit_quad(device: &mut Device) -> (mesh: Mesh)
        ensures
            mesh.name@ == "Blit Quad"@,
            mesh.vertex_buffer == old(device)@.len(),
            mesh.index_buffer == old(device)@.len() + 1,
            mesh.index_count == 6,
            mesh.map_albedo is None,
            mesh.map_arm is None,
            mesh.map_normal is None,
            final(device)@ == old(device)@ + mesh_calls(blit_quad_vertices(), blit_quad_indices()),
    {
        let corners: [(u32, u32); 4] = [
            (MINUS_ONE_SINGLE, MINUS_ONE_SINGLE),
            (MINUS_ONE_SINGLE, ONE_SINGLE),
            (ONE_SINGLE, MINUS_ONE_SINGLE),
            (ONE_SINGLE, ONE_SINGLE),
        ];
        let mut vertices: Vec<u32> = Vec::new();
        let mut corner: usize = 0;
        while corner < 4
            invariant
                corner <= 4,
                corners@ == seq![
                    (MINUS_ONE_SINGLE, MINUS_ONE_SINGLE),
                    (MINUS_ONE_SINGLE, ONE_SINGLE),
                    (ONE_SINGLE, MINUS_ONE_SINGLE),
                    (ONE_SINGLE, ONE_SINGLE),
                ],
                vertices@ == blit_quad_vertices().subrange(0, 11 * corner),
            decreases 4 - corner,
        {
            let position: [u32; 11] = [corners[corner].0, corners[corner].1, HALF_SINGLE, 0, 0, 0, 0, 0, 0, 0, 0];
            let mut vertex = slice_to_vec(position.as_slice());
            vertices.append(&mut vertex);
            corner += 1;
            assert(vertices@ =~= blit_quad_vertices().subrange(0, 11 * corner));
        }
        assert(vertices@ =~= blit_quad_vertices());
        let mut indices: Vec<u32> = Vec::new();
        indices.push(2);
        indices.push(1);
        indices.push(0);
        indices.push(3);
        indices.push(1);
        indices.push(2);
        assert(indices@ =~= blit_quad_indices());
        let vertex_buffer = device.record(
            DeviceCall::CreateBufferInit { usage: BufferUsages { vertex: true, ..BufferUsages::none() }, contents: vertices },
        );
        let index_buffer = device.record(
            DeviceCall::CreateBufferInit { usage: BufferUsages { index: true, ..BufferUsages::none() }, contents: indices },
        );
        assert(device@ =~= old(device)@ + mesh_calls(blit_quad_vertices(), blit_quad_indices()));
        Mesh {
            name: String::from_str("Blit Quad"),
            vertex_buffer,
            index_buffer,
            index_count: 6,
            map_albedo: None,
            map_arm: None,
            map_normal: None,
        }
    }
}

/// A kind of vertex, which knows how the pipeline reads its buffer.
pub trait Vertex {
    /// The layout of a vertex buffer of such vertices.
    fn layout() -> VertexBufferLayout;
}

/// The vertex of a model: position, texture coordinate, normal and tangent.
#[derive(Clone, Copy, Debug)]
pub struct ModelVertex {
    pub position: [u32; 3],
    pub uv: [u32; 2],
    pub normal: [u32; 3],
    pub tangent: [u32; 3],
}

impl ModelVertex {
    /// The layout of a vertex buffer of model vertices.
    pub open spec fn spec_layout() -> VertexBufferLayoutView {
        VertexBufferLayoutView {
            array_stride: 44,
            step_mode: VertexStepMode::Vertex,
            attributes: seq![
                VertexAttribute { offset: 0, shader_location: 0, format: VertexFormat::Float32x3 },
                VertexAttribute { offset: 12, shader_location: 1, format: VertexFormat::Float32x2 },
                VertexAttribute { offset: 20, shader_location: 2, format: VertexFormat::Float32x3 },
                VertexAttribute { offset: 32, shader_location: 3, format: VertexFormat::Float32x3 },
            ],
        }
    }
}

impl Vertex for ModelVertex {
    /// Eleven numbers of four bytes for each vertex, read at shader
    /// locations 0 to 3.
    fn layout() -> (layout: VertexBufferLayout)
        ensures
            layout@ == ModelVertex::spec_layout(),
    {
        let mut attributes = Vec::new();
        attributes.push(VertexAttribute { offset: 0, shader_location: 0, format: VertexFormat::Float32x3 });
        attributes.push(VertexAttribute { offset: 12, shader_location: 1, format: VertexFormat::Float32x2 });
        attributes.push(VertexAttribute { offset: 20, shader_location: 2, format: VertexFormat::Float32x3 });
        attributes.push(VertexAttribute { offset: 32, shader_location: 3, format: VertexFormat::Float32x3 });
        let layout = VertexBufferLayout { array_stride: 44, step_mode: VertexStepMode::Vertex, attributes };
        assert(layout@.attributes =~= ModelVertex::spec_layout().attributes);
        layout
    }
}

} // verus!
