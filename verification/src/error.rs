//! The failures a run can end with.

use vstd::prelude::*;

verus! {

/// Why a run was abandoned. Every failure is final: nothing is retried and no
/// partial document is produced.
#[derive(Clone, Debug, PartialEq, Eq)]
pub enum MenuError {
    /// An input collection was missing or malformed.
    LoadError { detail: String },
    /// An operation for team events was applied to a league event.
    InvalidVariant,
    /// A tip's name leaves no macro identifier once its whitespace is removed.
    InvalidTipName { name: String },
    /// The named template could not be rendered with the bindings it was given.
    TemplateRenderError { template: String, detail: String },
    /// The finished document could not be stored.
    WriteError { detail: String },
}

/// The stage of a run at which a failure is detected.
#[derive(Clone, Copy, Debug, PartialEq, Eq, Structural)]
pub enum Stage {
    Load,
    Partition,
    TipMacros,
    Render,
    Write,
}

impl MenuError {
    /// The stage that a failure belongs to.
    pub open spec fn spec_stage(&self) -> Stage {
        match *self {
            MenuError::LoadError { .. } => Stage::Load,
            MenuError::InvalidVariant => Stage::Partition,
            MenuError::InvalidTipName { .. } => Stage::TipMacros,
            MenuError::TemplateRenderError { .. } => Stage::Render,
            MenuError::WriteError { .. } => Stage::Write,
        }
    }

    /// The stage that a failure belongs to.
    #[verifier::when_used_as_spec(spec_stage)]
    pub fn stage(&self) -> (stage: Stage)
        ensures
            stage == self.spec_stage(),
    {
        match self {
            MenuError::LoadError { .. } => Stage::Load,
            MenuError::InvalidVariant => Stage::Partition,
            MenuError::InvalidTipName { .. } => Stage::TipMacros,
            MenuError::TemplateRenderError { .. } => Stage::Render,
            MenuError::WriteError { .. } => Stage::Write,
        }
    }
}

} // verus!
