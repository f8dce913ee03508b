//! Errors of GUI operations.
use vstd::prelude::*;

verus! {

/// Errors of GUI operations.
#[derive(Debug, Clone, PartialEq, Eq)]
pub enum GuiError {
    /// Bounds with a zero width or height: x, y, width, height.
    InvalidBounds(i32, i32, u32, u32),
    /// No component with that name.
    ComponentNotFound(String),
    /// An invalid parent-child relationship.
    InvalidRelationship(String),
    /// The component already has a parent.
    AlreadyHasParent,
    /// A component cannot be its own child.
    SelfReference,
    /// An invalid layout configuration.
    InvalidLayout(String),
}

/// Result of GUI operations.
pub type Result<T> = std::result::Result<T, GuiError>;

} // verus!
