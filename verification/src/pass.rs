//! The passes of a frame. Their order in the list is the order in which the
//! device runs them; a pass that reads what another writes stands after it.

use vstd::prelude::*;

verus! {

/// A colour, each channel as the 64-bit pattern of a double-precision number.
#[derive(Clone, Copy, Debug, PartialEq, Eq, Structural)]
pub struct Color {
    pub r: u64,
    pub g: u64,
    pub b: u64,
    pub a: u64,
}

/// What a render pass draws into: the surface, whose view is acquired anew
/// for every frame, or a texture view by its handle.
#[derive(Clone, Copy, Debug, PartialEq, Eq, Structural)]
pub enum Attachment {
    Surface,
    View(usize),
}

/// A pass that rasterizes. Without a blit material it draws the scene; with
/// one it draws a single quad over the whole viewport with that material.
#[derive(Debug, PartialEq, Eq)]
pub struct RenderPass {
    pub label: String,
    pub depth_attachment: Option<usize>,
    pub color_attachment_types: Vec<Attachment>,
    pub blit_material: Option<String>,
    pub clear_color: Color,
}

/// A pass that runs a compute shader over a grid of work groups.
#[derive(Debug, PartialEq, Eq)]
pub struct ComputePass {
    pub label: String,
    pub material: String,
    pub work_groups_size: (u32, u32, u32),
}

/// One pass of a frame.
#[derive(Debug, PartialEq, Eq)]
pub enum Pass {
    RenderPass(RenderPass),
    ComputePass(ComputePass),
}

/// The mathematical content of a [`Pass`].
pub enum PassView {
    RenderPass {
        label: Seq<char>,
        depth_attachment: Option<usize>,
        color_attachment_types: Seq<Attachment>,
        blit_material: Option<Seq<char>>,
        clear_color: Color,
    },
    ComputePass { label: Seq<char>, material: Seq<char>, work_groups_size: (u32, u32, u32) },
}

impl View for Pass {
    type V = PassView;

    open spec fn view(&self) -> PassView {
        match self {
            Pass::RenderPass(pass) => PassView::RenderPass {
                label: pass.label@,
                depth_attachment: pass.depth_attachment,
                color_attachment_types: pass.color_attachment_types@,
                blit_material: match pass.blit_material {
                    Some(name) => Some(name@),
                    None => None,
                },
                clear_color: pass.clear_color,
            },
            Pass::ComputePass(pass) => PassView::ComputePass {
                label: pass.label@,
                material: pass.material@,
                work_groups_size: pass.work_groups_size,
            },
        }
    }
}

/// The content of each pass of a list, in order.
pub open spec fn pass_views(passes: Seq<Pass>) -> Seq<PassView> {
    Seq::new(passes.len(), |i: int| passes[i]@)
}

} // verus!
