//! What holds of the functions of this library, said of their results alone.
//!
//! Each of these theorems speaks of calls: whatever a function returns for
//! these arguments, this holds of it.

pub mod audio;
pub mod favorites;
pub mod groups;
pub mod lifecycle;
pub mod magic_link;
pub mod nesting;
pub mod shared;
pub mod thumbnail;
pub mod wopi;
