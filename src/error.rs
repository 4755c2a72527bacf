use vstd::prelude::*;

verus! {

/// Fatal conditions reported by the virtual machine.
#[derive(Debug, Clone, Copy, PartialEq, Eq, Structural)]
pub enum Chip8Error {
    /// The fetched instruction word matches no decoding rule.
    UnknownInstruction(u16),
    /// A call was made with all sixteen stack slots in use.
    StackOverflow,
    /// A return was made with an empty stack.
    StackUnderflow,
    /// A fetch or an indirect access reached beyond the 4096-byte memory.
    MemoryOutOfBounds,
    /// A program image does not fit in the memory above the reserved area.
    ProgramTooLarge,
}

} // verus!
