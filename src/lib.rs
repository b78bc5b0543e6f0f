//! A loadable plugin core that clones a remote repository into a local
//! directory, with process-wide error and credential slots and a
//! self-description document for the host.

pub mod text;
pub mod slots;
pub mod resolve;
mod engine;
pub mod clone;
pub mod describe;
pub mod laws;
