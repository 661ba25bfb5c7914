//! The failures that the machine reports to its host.
use vstd::prelude::*;

verus! {

/// A failure reported to the host, which decides whether to halt the machine
/// or to go on with the next step.
#[derive(Debug, Clone, Copy, PartialEq, Eq, Structural)]
pub enum Chip8Error {
    /// An image does not fit in memory at the address it was to be loaded at.
    ImageTooLarge,
    /// A return was executed with an empty call stack.
    StackUnderflow,
    /// The fetched word encodes no supported instruction; it is carried for
    /// diagnostics.
    UnsupportedOpcode(u16),
}

} // verus!
