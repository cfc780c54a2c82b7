//! Verified core of the Zaned desktop charting client.

pub mod clock;
pub mod text;
pub mod auth;
pub mod drawings;
pub mod charts;
pub mod api;
pub mod controls;
pub mod components;
pub mod shell;
