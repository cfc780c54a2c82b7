//! One module per drawing tool.

pub mod extended;
pub mod fib_retracement;
pub mod horizontal_line;
pub mod horizontal_ray;
pub mod pitchfork;
pub mod polyline;
pub mod range_measure;
pub mod ray;
pub mod rectangle;
pub mod short_position;
pub mod trend_channel;
pub mod trend_line;
pub mod vertical_line;
