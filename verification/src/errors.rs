use vstd::prelude::*;

verus! {

/// The fatal conditions an execution step can surface. Decoding never fails;
/// only memory and call-stack accesses can, and any such failure aborts the
/// step without partial application of the remaining operation.
#[derive(Clone, Copy, PartialEq, Eq, Structural, Debug)]
pub enum Fault {
    /// An address escaped the memory window.
    OutOfBounds,
    /// A call was made with the call stack already full.
    StackOverflow,
    /// A return was made with the call stack empty.
    StackUnderflow,
}

} // verus!
