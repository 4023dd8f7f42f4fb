//! Design-by-contract checks: preconditions, postconditions and object
//! invariants, together with the text that reports a violated one.
//!
//! A check never aborts by itself. It returns the diagnostic of the
//! violation, or nothing, and leaves printing and aborting to its caller.

pub mod check;
pub mod decimal;
pub mod kind;
pub mod rectangle;
pub mod render;
pub mod report;
pub mod vars;

pub use check::{check, check_invariant, check_lazy, ensure, require, Invariant};
pub use kind::{BuildMode, ContractKind};
pub use rectangle::Rectangle;
pub use render::DebugText;
pub use report::diagnostic;
pub use vars::{formatvar, NamedValue};
