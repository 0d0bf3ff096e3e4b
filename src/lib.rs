//! A small container runner and container-image registry client.
//!
//! The execution side plans a disposable root directory, decides the
//! steps of an isolated launch, and maps the child's status to an exit
//! code. The registry side builds the requests of the pull handshake and
//! interprets what the registry answers.
mod error;
pub mod launch;
pub mod registry;
pub mod rootfs;

pub use error::ContainerError;
