use vstd::prelude::*;

verus! {

/// The failures of the registry client.
#[derive(Debug, PartialEq, Eq, Clone)]
pub enum ContainerError {
    /// A transport-level failure, with the transport's message.
    Http(String),
    /// A response whose status code the client does not handle.
    UnhandledStatusCode(u16),
    /// The token exchange answered without the expected credential.
    Auth(&'static str),
    /// A manifest that no supported schema describes.
    Manifest(&'static str),
}

} // verus!
