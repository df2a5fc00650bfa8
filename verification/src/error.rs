use vstd::prelude::*;

verus! {

/// The ways in which an operation on the tray can fail.
#[derive(Clone, Copy, Debug, PartialEq, Eq, Structural)]
pub enum Error {
    /// The operating system could not take the bytes that were handed to it.
    IO,
    /// The bytes are not an image that the operating system can decode.
    Codec,
    /// A file carries no metadata block.
    NoMetaData,
    /// An earlier holder of a handle's lock ended abnormally while holding it.
    PoisonError,
    /// The consumer of the event channel has terminated.
    ChannelClosed,
}

} // verus!
