//! The failures that the core reports to its caller.

use vstd::prelude::*;

verus! {

/// Why an operation of the core was refused.
#[derive(Clone, Copy, Debug, PartialEq, Eq, Structural)]
pub enum Error {
    /// A color text does not belong to the color grammar.
    InvalidColorSpec,
    /// A slot fill names a slot that the component kind does not declare;
    /// `position` is the index of the first such fill.
    UnknownSlot { position: usize },
    /// The body of the effect with this index failed.
    EffectExecution { effect: usize },
}

} // verus!
