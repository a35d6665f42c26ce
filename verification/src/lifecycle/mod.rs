//! Events in the life of files and of the contents that they share, and the
//! handlers that answer them.

pub mod blob;
pub mod fanout;
pub mod file;
