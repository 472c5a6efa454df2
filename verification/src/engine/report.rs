//! What is wrong with a frame's plan, in words: a fault is reported with
//! the names of the pass, the material, the entity and the mesh that it
//! concerns.

use crate::component::Component;
use crate::engine::{Engine, RenderError, RenderFault};
use crate::entity::walk;
use crate::pass::{Pass, PassView, pass_views};
use vstd::prelude::*;
use vstd::string::StringExecFns;

verus! {

/// What a fault is, with the name of what is missing where the fault
/// itself decides it.
pub open spec fn fault_text(fault: RenderFault) -> Seq<char> {
    match fault {
        RenderFault::MissingVoxelTarget => "the texture 'VOXEL_CALCULATION_FRAGMENTS_RENDER_RESOLUTION' is not loaded"@,
        RenderFault::MissingBlitQuad => "the mesh 'QUAD' of 'BLIT' is not loaded"@,
        RenderFault::UnknownMaterial => "the material is not loaded"@,
        RenderFault::UnknownShader => "the shader of the material is not loaded"@,
        RenderFault::InvalidScenePass => "the pass draws the scene and is none of the scene passes"@,
        RenderFault::MeshNotLoaded => "the mesh of the model is not resolved"@,
        RenderFault::MaterialNotLoaded => "the material of the model is not resolved"@,
        RenderFault::NoInstanceBuffer => "the model has no instance buffer"@,
        RenderFault::NoActiveCamera => "the active camera is not in the scene"@,
    }
}

/// Whether a fault is one of a model of the scene.
pub open spec fn is_model_fault(fault: RenderFault) -> bool {
    fault == RenderFault::MeshNotLoaded || fault == RenderFault::MaterialNotLoaded || fault
        == RenderFault::NoInstanceBuffer
}

/// The part of a report that names the pass: its label, and the material
/// that it draws with where the pass itself names one.
pub open spec fn pass_text(pass: PassView) -> Seq<char> {
    match pass {
        PassView::RenderPass { label, blit_material, .. } => match blit_material {
            Some(material) => "; pass '"@ + label + "'; material '"@ + material + "'"@,
            None => "; pass '"@ + label + "'"@,
        },
        PassView::ComputePass { label, material, .. } => "; pass '"@ + label + "'; material '"@ + material + "'"@,
    }
}

/// The part of a report that names a component: the file and the name of
/// the mesh of a model, and nothing for any other component.
pub open spec fn component_text(component: Component) -> Seq<char> {
    match component {
        Component::Model(model) => "; mesh '"@ + model.mesh_name.1@ + "' of '"@ + model.mesh_name.0@ + "'"@,
        _ => Seq::empty(),
    }
}

fn fault_words(fault: RenderFault) -> (text: &'static str)
    ensures
        text@ == fault_text(fault),
{
    match fault {
        RenderFault::MissingVoxelTarget => "the texture 'VOXEL_CALCULATION_FRAGMENTS_RENDER_RESOLUTION' is not loaded",
        RenderFault::MissingBlitQuad => "the mesh 'QUAD' of 'BLIT' is not loaded",
        RenderFault::UnknownMaterial => "the material is not loaded",
        RenderFault::UnknownShader => "the shader of the material is not loaded",
        RenderFault::InvalidScenePass => "the pass draws the scene and is none of the scene passes",
        RenderFault::MeshNotLoaded => "the mesh of the model is not resolved",
        RenderFault::MaterialNotLoaded => "the material of the model is not resolved",
        RenderFault::NoInstanceBuffer => "the model has no instance buffer",
        RenderFault::NoActiveCamera => "the active camera is not in the scene",
    }
}

fn pass_words(pass: &Pass) -> (text: String)
    ensures
        text@ == pass_text(pass@),
{
    match pass {
        Pass::RenderPass(pass) => {
            let text = String::from_str("; pass '").concat(pass.label.as_str());
            match &pass.blit_material {
                Some(material) => text.concat("'; material '").concat(material.as_str()).concat("'"),
                None => text.concat("'"),
            }
        },
        Pass::ComputePass(pass) => String::from_str("; pass '").concat(pass.label.as_str()).concat(
            "'; material '",
        ).concat(pass.material.as_str()).concat("'"),
    }
}

fn component_words(component: &Component) -> (text: String)
    ensures
        text@ == component_text(*component),
{
    match component {
        Component::Model(model) => String::from_str("; mesh '").concat(model.mesh_name.1.as_str()).concat(
            "' of '",
        ).concat(model.mesh_name.0.as_str()).concat("'"),
        _ => {
            proof {
                reveal_strlit("");
            }
            String::from_str("")
        },
    }
}

impl Engine {
    /// The part of a report that names the pass in which a fault shows;
    /// empty where the engine has no pass at that place.
    pub open spec fn fault_pass_text(&self, error: RenderError) -> Seq<char> {
        match self.spec_passes() {
            Some(passes) => if error.pass < passes.len() {
                pass_text(passes[error.pass as int])
            } else {
                Seq::empty()
            },
            None => Seq::empty(),
        }
    }

    /// The part of a report that names the entity and the model of a fault
    /// of a model; empty for any other fault, and where the scene has no
    /// entity at that place.
    pub open spec fn fault_entity_text(&self, error: RenderError) -> Seq<char> {
        let entities = walk(self.scene.root);
        if is_model_fault(error.fault) && error.entity < entities.len() {
            let entity = entities[error.entity as int];
            "; entity '"@ + entity.name@ + "'"@ + (if error.component < entity.components@.len() {
                component_text(entity.components@[error.component as int])
            } else {
                Seq::empty()
            })
        } else {
            Seq::empty()
        }
    }

    /// The report of a fault: what is wrong, then the pass in which it
    /// shows with the material that the pass names, for a fault of a model
    /// the entity that carries the model and the mesh of the model, and
    /// for a missing camera the name of the active camera.
    pub open spec fn spec_fault_message(&self, error: RenderError) -> Seq<char> {
        fault_text(error.fault) + self.fault_pass_text(error) + self.fault_entity_text(error)
            + self.fault_camera_text(error)
    }

    /// The part of a report that names the active camera, for the fault
    /// that this camera is not in the scene; empty for any other fault.
    pub open spec fn fault_camera_text(&self, error: RenderError) -> Seq<char> {
        if error.fault == RenderFault::NoActiveCamera {
            "; camera '"@ + self.active_camera@ + "'"@
        } else {
            Seq::empty()
        }
    }

    /// The report of a fault in a frame's plan, for the host to show: the
    /// positions that the fault holds are looked up in the engine, and the
    /// report names what stands there.
    pub fn fault_message(&self, error: &RenderError) -> (message: String)
        requires
            self.wf(),
        ensures
            message@ == self.spec_fault_message(*error),
    {
        let mut message = String::from_str(fault_words(error.fault));
        if let Some(passes) = self.passes() {
            if error.pass < passes.len() {
                let words = pass_words(&passes[error.pass]);
                message = message.concat(words.as_str());
            }
        }
        assert(message@ =~= fault_text(error.fault) + self.fault_pass_text(*error));
        let model_fault = match error.fault {
            RenderFault::MeshNotLoaded => true,
            RenderFault::MaterialNotLoaded => true,
            RenderFault::NoInstanceBuffer => true,
            _ => false,
        };
        if model_fault {
            let entities = self.scene.root.descendants();
            if error.entity < entities.len() {
                let entity = entities[error.entity];
                message = message.concat("; entity '").concat(entity.name.as_str()).concat("'");
                if error.component < entity.components.len() {
                    let words = component_words(&entity.components[error.component]);
                    message = message.concat(words.as_str());
                }
            }
        }
        assert(message@ =~= fault_text(error.fault) + self.fault_pass_text(*error) + self.fault_entity_text(*error));
        if error.fault == RenderFault::NoActiveCamera {
            message = message.concat("; camera '").concat(self.active_camera.as_str()).concat("'");
        }
        assert(message@ =~= self.spec_fault_message(*error));
        message
    }
}

} // verus!
