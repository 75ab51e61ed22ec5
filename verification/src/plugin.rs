//! The plugin: where the effect's node stands in the 3D render graph.

use vstd::prelude::*;

verus! {

/// A stage of the 3D render graph that the effect's node is ordered against.
#[derive(Clone, Copy, Debug, PartialEq, Eq, Structural)]
pub enum GraphStage {
    /// Maps the scene's colors from high dynamic range to display range.
    Tonemapping,
    /// Marks the end of post-processing.
    EndMainPassPostProcessing,
}

/// The two stages between which a node runs.
#[derive(Clone, Copy, Debug, PartialEq, Eq, Structural)]
pub struct GraphPlacement {
    /// The node runs after this stage.
    pub after: GraphStage,
    /// The node runs before this stage.
    pub before: GraphStage,
}

/// Adds the film grain effect to every camera that carries its settings.
#[derive(Clone, Copy, Debug, Default)]
pub struct FilmGrainPlugin;

impl FilmGrainPlugin {
    /// Where the effect's node is inserted: grain is laid over the tonemapped
    /// image, and before post-processing ends.
    pub fn placement(&self) -> (placement: GraphPlacement)
        ensures
            placement.after == GraphStage::Tonemapping,
            placement.before == GraphStage::EndMainPassPostProcessing,
    {
        GraphPlacement {
            after: GraphStage::Tonemapping,
            before: GraphStage::EndMainPassPostProcessing,
        }
    }
}

} // verus!
