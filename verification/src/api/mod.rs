//! What the desktop app asks of the gateway and of the logo CDN.

pub mod candle_loader;
pub mod logo;
pub mod symbol_search;
