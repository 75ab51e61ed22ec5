//! Film grain post-processing: the per-camera settings, the fixed binding
//! layout of the effect's pipeline, where the effect stands in the render
//! graph, and the decision its render node takes for each view.

pub mod layout;
pub mod node;
pub mod plugin;
pub mod settings;

pub use crate::plugin::FilmGrainPlugin;
pub use crate::settings::FilmGrainSettings;
