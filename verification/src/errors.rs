//! The error surface: every failure an operation can report.

use vstd::prelude::*;
use crate::states::PadMode;

verus! {

/// Why a property or URI operation failed.
#[derive(Clone, Copy, PartialEq, Eq, Structural, Debug)]
pub enum SourceError {
    /// The operation ran before construction completed successfully.
    Precondition,
    /// Construction could not run (it runs exactly once per element).
    Construction,
    /// The URI could not be read as a file-scheme URL naming a native path.
    BadUri,
}

/// Why pad activation failed.
#[derive(Clone, Copy, PartialEq, Eq, Structural, Debug)]
pub enum ActivateError {
    /// A pull-incompatible mode was requested; carries the refused mode.
    UnsupportedMode(PadMode),
    /// The port has no target endpoint to delegate to.
    NotLinked,
    /// The child reader refused to activate: no media is available.
    Refused,
}

/// A flow failure from a range read, propagated unchanged from the child.
#[derive(Clone, Copy, PartialEq, Eq, Structural, Debug)]
pub enum FlowError {
    /// The reader is not activated (or the element is not built).
    Flushing,
    /// The port has no target endpoint to delegate to.
    NotLinked,
    /// The requested offset lies at or past the end of the stream.
    Eos,
}

/// A state transition the element could not make.
#[derive(Clone, Copy, PartialEq, Eq, Structural, Debug)]
pub struct StateChangeError;

} // verus!
