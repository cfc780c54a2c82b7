//! Chart drawings: the tool catalogue, the per-kind style knobs and the
//! manager of committed drawings.

pub mod handles;
pub mod kind_style;
pub mod kinds;
pub mod manager;
pub mod point;
pub mod registry;
pub mod style;
pub mod toolbar;
pub mod tools;
