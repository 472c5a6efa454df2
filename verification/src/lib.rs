//! The core of a small deferred renderer with voxel lighting and ambient
//! occlusion: resource tables with stable handles, shaders and the bind
//! group layouts that follow from their bindings, materials, frame
//! textures, the scene graph, and the plan of every frame.
//!
//! The engine never touches a graphics device. What it wants created it
//! records, call by call, in a [`gpu::Device`]; the position of a call in
//! the record is the handle of what the call creates. Every frame it plans
//! as a list of [`engine::FrameCommand`]s, and what a frame's update
//! changes on the device it hands over as [`gpu::FrameWrite`]s, so that the
//! record grows only when something new is made. A host application
//! replays the record against a real device, does the writes and runs the
//! commands; it also does what takes a file system, a window, a clock, a
//! decoder of image files, or arithmetic on rounding numbers, which the
//! engine only stores as bit patterns.

pub mod camera;
pub mod component;
pub mod context;
pub mod debug_buffer;
pub mod engine;
pub mod entity;
pub mod frame_texture;
pub mod gpu;
pub mod instance;
pub mod light;
pub mod load;
pub mod material;
pub mod mesh;
pub mod model;
pub mod pass;
pub mod resource_table;
pub mod scene;
pub mod shader;
pub mod text;
pub mod texture;
pub mod transform;
pub mod voxel_texture;
