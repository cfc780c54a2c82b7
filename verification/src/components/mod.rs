//! Window chrome around the chart: header, sidebars and the widget tabs.

pub mod mini_sidebar;
pub mod top_header;
pub mod widgets_control;
