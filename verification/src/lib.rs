//! The decisions behind the services of a cloud storage server: subject
//! groups, thumbnails, audio metadata, magic links, document editing and
//! favorites.

pub mod audio;
pub mod clock;
pub mod email;
pub mod errors;
pub mod favorites;
pub mod groups;
pub mod identifier;
pub mod laws;
pub mod lifecycle;
pub mod magic_link;
pub mod numbers;
pub mod text;
pub mod thumbnail;
pub mod wopi;
