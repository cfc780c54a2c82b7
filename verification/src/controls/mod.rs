//! Chart controls: the indicator modal and bar, the chart toolbar and the
//! drawing settings dialog.

pub mod drawing_settings;
pub mod indicators;
pub mod toolbar;
