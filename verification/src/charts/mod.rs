//! Chart data: bar dates, live ticks and the chart widget's bookkeeping.

pub mod dates;
pub mod input;
pub mod labels;
pub mod ticks;
pub mod widget;
