//! The three kinds of contract and the build mode that switches checking on.

use vstd::prelude::*;

verus! {

/// Which part of a contract a check guards. The kind only selects the tag
/// that classifies a violation in the printed diagnostic.
#[derive(Clone, Copy, Debug, PartialEq, Eq, Structural)]
pub enum ContractKind {
    /// A condition that must hold before an operation runs.
    Precondition,
    /// A condition that must hold after an operation has completed.
    Postcondition,
    /// A condition that an object satisfies whenever it can be observed.
    Invariant,
}

impl ContractKind {
    /// The tag that stands for this kind in a diagnostic.
    pub open spec fn tag_text(self) -> Seq<char> {
        match self {
            ContractKind::Precondition => "REQUIRE"@,
            ContractKind::Postcondition => "ENSURE"@,
            ContractKind::Invariant => "INVARIANT"@,
        }
    }

    /// Returns the tag that stands for this kind in a diagnostic.
    pub fn tag(self) -> (t: &'static str)
        ensures
            t@ == self.tag_text(),
    {
        match self {
            ContractKind::Precondition => "REQUIRE",
            ContractKind::Postcondition => "ENSURE",
            ContractKind::Invariant => "INVARIANT",
        }
    }
}

/// The build configuration a check runs under. Checks are carried out in
/// debug builds and are skipped altogether in optimized builds.
#[derive(Clone, Copy, Debug, PartialEq, Eq, Structural)]
pub enum BuildMode {
    /// Debug assertions are enabled: every check is carried out.
    Debug,
    /// Debug assertions are disabled: every check is a no-op.
    Optimized,
}

impl BuildMode {
    /// Whether checks are carried out in this mode.
    pub open spec fn active(self) -> bool {
        self == BuildMode::Debug
    }

    /// The mode that corresponds to the state of the debug-assertions switch.
    pub fn from_debug_assertions(enabled: bool) -> (mode: BuildMode)
        ensures
            mode.active() == enabled,
    {
        if enabled {
            BuildMode::Debug
        } else {
            BuildMode::Optimized
        }
    }

    /// Returns whether checks are carried out in this mode.
    pub fn checks_active(self) -> (on: bool)
        ensures
            on == self.active(),
    {
        match self {
            BuildMode::Debug => true,
            BuildMode::Optimized => false,
        }
    }
}

} // verus!
