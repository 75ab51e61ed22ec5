//! The binding layout of the effect's pipeline: which resources the fragment
//! shader reads, and in which slots.

use vstd::prelude::*;

verus! {

/// What a binding slot holds.
#[derive(Clone, Copy, Debug, PartialEq, Eq, Structural)]
pub enum BindingKind {
    /// A two-dimensional texture of floating-point samples.
    Texture2d { filterable: bool },
    /// A texture sampler.
    Sampler { filtering: bool },
    /// A uniform buffer; with a dynamic offset, the offset into the buffer
    /// is supplied each time the group is bound.
    UniformBuffer { has_dynamic_offset: bool },
}

/// The shader stages that can see a binding slot.
#[derive(Clone, Copy, Debug, PartialEq, Eq, Structural)]
pub struct StageSet {
    pub vertex: bool,
    pub fragment: bool,
    pub compute: bool,
}

/// One slot of a bind group layout.
#[derive(Clone, Copy, Debug, PartialEq, Eq, Structural)]
pub struct LayoutEntry {
    pub binding: u32,
    pub visibility: StageSet,
    pub kind: BindingKind,
}

/// Visibility of every slot of the effect: the fragment stage alone.
pub open spec fn fragment_only() -> StageSet {
    StageSet { vertex: false, fragment: true, compute: false }
}

/// The layout of the effect's only bind group: the screen texture, the
/// sampler that reads it, and the settings uniform.
pub open spec fn effect_layout() -> Seq<LayoutEntry> {
    seq![
        LayoutEntry {
            binding: 0,
            visibility: fragment_only(),
            kind: BindingKind::Texture2d { filterable: true },
        },
        LayoutEntry {
            binding: 1,
            visibility: fragment_only(),
            kind: BindingKind::Sampler { filtering: true },
        },
        LayoutEntry {
            binding: 2,
            visibility: fragment_only(),
            kind: BindingKind::UniformBuffer { has_dynamic_offset: true },
        },
    ]
}

/// A layout is sequential when slot `i` carries binding index `i`.
pub open spec fn is_sequential(layout: Seq<LayoutEntry>) -> bool {
    forall|i: int| 0 <= i < layout.len() ==> (#[trigger] layout[i]).binding == i
}

/// Number of slots of `layout` that take a dynamic offset.
pub open spec fn dynamic_slots(layout: Seq<LayoutEntry>) -> nat
    decreases layout.len(),
{
    if layout.len() == 0 {
        0
    } else {
        let rest = dynamic_slots(layout.drop_last());
        match layout.last().kind {
            BindingKind::UniformBuffer { has_dynamic_offset: true } => rest + 1,
            _ => rest,
        }
    }
}

/// Builds the bind group layout of the effect.
pub fn bind_group_layout() -> (layout: Vec<LayoutEntry>)
    ensures
        layout@ == effect_layout(),
        is_sequential(layout@),
        dynamic_slots(layout@) == 1,
{
    let visibility = StageSet { vertex: false, fragment: true, compute: false };
    let mut layout: Vec<LayoutEntry> = Vec::new();
    layout.push(
        LayoutEntry { binding: 0, visibility, kind: BindingKind::Texture2d { filterable: true } },
    );
    layout.push(
        LayoutEntry { binding: 1, visibility, kind: BindingKind::Sampler { filtering: true } },
    );
    layout.push(
        LayoutEntry {
            binding: 2,
            visibility,
            kind: BindingKind::UniformBuffer { has_dynamic_offset: true },
        },
    );
    proof {
        lemma_effect_layout_shape();
    }
    layout
}

/// The effect's layout is sequential and has exactly one slot with a
/// dynamic offset, the settings uniform.
pub proof fn lemma_effect_layout_shape()
    ensures
        effect_layout().len() == 3,
        is_sequential(effect_layout()),
        dynamic_slots(effect_layout()) == 1,
{
    let l3 = effect_layout();
    let l2 = l3.drop_last();
    let l1 = l2.drop_last();
    let l0 = l1.drop_last();
    assert(l0.len() == 0);
    assert(dynamic_slots(l0) == 0);
    assert(dynamic_slots(l1) == 0);
    assert(dynamic_slots(l2) == 0);
    assert(dynamic_slots(l3) == 1);
}

} // verus!
