//! The reactive core of a declarative UI kit: signals and the effects that
//! follow them, slot-based composition of component nodes, and the resolution
//! of style intent against a theme.

pub mod color;
pub mod compose;
pub mod context;
pub mod error;
pub mod laws;
pub mod runtime;
pub mod style;
pub mod value;
