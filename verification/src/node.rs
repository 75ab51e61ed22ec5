//! The render node of the effect: what it does for one view in one frame.

use vstd::prelude::*;
use crate::layout::{dynamic_slots, effect_layout, lemma_effect_layout_shape, BindingKind, LayoutEntry};

verus! {

/// One of the two color textures that the post-processing steps of a view
/// hand on to each other.
#[derive(Clone, Copy, Debug, PartialEq, Eq, Structural)]
pub enum ViewTexture {
    /// Holds the image as the steps before have left it.
    Source,
    /// Receives the image of this step, for the next step to read.
    Destination,
}

/// A resource that the node places in the effect's bind group.
#[derive(Clone, Copy, Debug, PartialEq, Eq, Structural)]
pub enum BoundResource {
    /// A color texture of the view.
    Texture(ViewTexture),
    /// The sampler created with the pipeline.
    Sampler,
    /// The buffer that holds the settings of all views.
    Settings,
}

/// One entry of a bind group: the resource bound at a binding index.
#[derive(Clone, Copy, Debug, PartialEq, Eq, Structural)]
pub struct Binding {
    pub binding: u32,
    pub resource: BoundResource,
}

/// One full-screen pass: the bind group to create, the offsets to bind it
/// with, the texture to write, and the draw to issue.
#[derive(Debug)]
pub struct PassPlan {
    pub bindings: Vec<Binding>,
    pub bind_group_index: u32,
    pub dynamic_offsets: Vec<u32>,
    pub color_target: ViewTexture,
    pub first_vertex: u32,
    pub end_vertex: u32,
    pub first_instance: u32,
    pub end_instance: u32,
}

/// Whether `resource` may fill a slot of the given kind.
pub open spec fn resource_fits(resource: BoundResource, kind: BindingKind) -> bool {
    match resource {
        BoundResource::Texture(_) => kind is Texture2d,
        BoundResource::Sampler => kind is Sampler,
        BoundResource::Settings => kind is UniformBuffer,
    }
}

/// Whether `bindings` fill the slots of `layout` one for one: as many
/// entries as slots, each at its slot's binding index and of its slot's kind.
pub open spec fn group_fits(bindings: Seq<Binding>, layout: Seq<LayoutEntry>) -> bool {
    &&& bindings.len() == layout.len()
    &&& forall|i: int|
        0 <= i < layout.len() ==> {
            &&& (#[trigger] bindings[i]).binding == layout[i].binding
            &&& resource_fits(bindings[i].resource, layout[i].kind)
        }
}

/// Whether one of `bindings` holds `texture`.
pub open spec fn reads(bindings: Seq<Binding>, texture: ViewTexture) -> bool {
    exists|i: int|
        0 <= i < bindings.len() && (#[trigger] bindings[i]).resource == BoundResource::Texture(
            texture,
        )
}

/// The bind group of the effect: the image so far, the sampler that reads
/// it, and the settings.
pub open spec fn effect_bindings() -> Seq<Binding> {
    seq![
        Binding { binding: 0, resource: BoundResource::Texture(ViewTexture::Source) },
        Binding { binding: 1, resource: BoundResource::Sampler },
        Binding { binding: 2, resource: BoundResource::Settings },
    ]
}

impl PassPlan {
    /// The pass of the effect for a view whose settings lie at
    /// `settings_offset` in the settings buffer: the effect's bind group
    /// bound as group 0 at that offset, and one triangle of three vertices
    /// drawn once into the destination texture.
    pub open spec fn is_effect_pass(&self, settings_offset: u32) -> bool {
        &&& self.bindings@ == effect_bindings()
        &&& self.bind_group_index == 0
        &&& self.dynamic_offsets@ == seq![settings_offset]
        &&& self.color_target == ViewTexture::Destination
        &&& self.first_vertex == 0
        &&& self.end_vertex == 3
        &&& self.first_instance == 0
        &&& self.end_instance == 1
    }

    /// Whether the plan binds what `layout` declares: a fitting resource in
    /// every slot, and one offset for every slot with a dynamic offset.
    pub open spec fn fits_layout(&self, layout: Seq<LayoutEntry>) -> bool {
        &&& group_fits(self.bindings@, layout)
        &&& self.dynamic_offsets@.len() == dynamic_slots(layout)
    }
}

/// The render node of the effect.
#[derive(Clone, Copy, Debug, Default)]
pub struct FilmGrainNode;

impl FilmGrainNode {
    /// Decides what the node does for one view.
    ///
    /// The node draws only when the pipeline has been compiled and the
    /// settings have reached their buffer; until then it leaves the view
    /// untouched. `settings_offset` is where this view's settings lie in
    /// the buffer. The pass that it plans reads the image so far and
    /// writes the other texture of the view.
    pub fn run(&self, pipeline_ready: bool, settings_uploaded: bool, settings_offset: u32) -> (plan:
        Option<PassPlan>)
        ensures
            plan is Some <==> pipeline_ready && settings_uploaded,
            plan matches Some(pass) ==> pass.is_effect_pass(settings_offset),
            plan matches Some(pass) ==> pass.fits_layout(effect_layout()),
            plan matches Some(pass) ==> reads(pass.bindings@, ViewTexture::Source) && !reads(
                pass.bindings@,
                pass.color_target,
            ),
    {
        if !pipeline_ready {
            return None;
        }
        if !settings_uploaded {
            return None;
        }
        let mut bindings: Vec<Binding> = Vec::new();
        bindings.push(Binding { binding: 0, resource: BoundResource::Texture(ViewTexture::Source) });
        bindings.push(Binding { binding: 1, resource: BoundResource::Sampler });
        bindings.push(Binding { binding: 2, resource: BoundResource::Settings });
        let mut dynamic_offsets: Vec<u32> = Vec::new();
        dynamic_offsets.push(settings_offset);
        let pass = PassPlan {
            bindings,
            bind_group_index: 0,
            dynamic_offsets,
            color_target: ViewTexture::Destination,
            first_vertex: 0,
            end_vertex: 3,
            first_instance: 0,
            end_instance: 1,
        };
        proof {
            assert(pass.bindings@ =~= effect_bindings());
            assert(pass.dynamic_offsets@ =~= seq![settings_offset]);
            lemma_effect_pass_fits(pass, settings_offset);
        }
        Some(pass)
    }
}

/// The pass of the effect binds what the effect's layout declares, whatever
/// the view's offset, and reads the one texture of the view while it writes
/// the other.
pub proof fn lemma_effect_pass_fits(pass: PassPlan, settings_offset: u32)
    requires
        pass.is_effect_pass(settings_offset),
    ensures
        pass.fits_layout(effect_layout()),
        reads(pass.bindings@, ViewTexture::Source),
        !reads(pass.bindings@, pass.color_target),
{
    lemma_effect_layout_shape();
    assert(effect_bindings()[0].resource == BoundResource::Texture(ViewTexture::Source));
}

} // verus!
