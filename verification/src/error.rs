//! Error taxonomy of the engine.

use vstd::prelude::*;

verus! {

/// A failure that is raised while the pipeline is being put together, before
/// any frame executes.
#[derive(Clone, Copy, Debug, PartialEq, Eq, Structural)]
pub enum ConstructionError {
    /// A resolution with a zero dimension.
    InvalidResolution,
    /// A model-to-world transform without an inverse.
    SingularTransform,
    /// A buffer whose usage names neither uniform nor storage intent was
    /// asked for a binding description.
    UnsupportedBindingUsage,
}

impl ConstructionError {
    /// The text shown for the error.
    pub fn message(&self) -> (text: &'static str)
        ensures
            text@ == match *self {
                ConstructionError::InvalidResolution =>
                    "resolution must be positive in both dimensions"@,
                ConstructionError::SingularTransform => "transform is not invertible"@,
                ConstructionError::UnsupportedBindingUsage =>
                    "Trying to make a Bind Group Entry with an unsupported buffer type"@,
            },
    {
        match self {
            ConstructionError::InvalidResolution => {
                "resolution must be positive in both dimensions"
            },
            ConstructionError::SingularTransform => "transform is not invertible",
            ConstructionError::UnsupportedBindingUsage => {
                "Trying to make a Bind Group Entry with an unsupported buffer type"
            },
        }
    }
}

/// A failure of a built engine.
#[derive(Clone, Copy, Debug, PartialEq, Eq, Structural)]
pub enum EngineError {
    /// The operation is declared and not supported.
    NotImplemented,
}

} // verus!
