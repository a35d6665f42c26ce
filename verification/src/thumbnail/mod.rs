//! Thumbnails: their sizes, where they are kept, how they are rendered,
//! served and cleaned up.

pub mod generation;
pub mod hooks;
pub mod render;
pub mod service;
pub mod size;
pub mod store;
