//! Why a derivation fails, and where in the declaration the failure is
//! reported.

use vstd::prelude::*;

verus! {

/// The reason for which no `Default` impl can be derived.
#[derive(Clone, Copy, Debug, PartialEq, Eq, Structural)]
pub enum DeriveError {
    /// The declaration is a union.
    UnsupportedShape,
    /// The enum has no variants.
    EmptyEnum,
    /// No variant of the enum carries the default marker.
    MissingDefaultMarker,
    /// More than one variant carries the default marker. `first` and
    /// `second` are the positions of the first two that do.
    DuplicateDefaultMarker { first: usize, second: usize },
}

/// The part of the declaration that a diagnostic is attached to.
#[derive(Clone, Copy, Debug, PartialEq, Eq, Structural)]
pub enum ErrorSite {
    /// The identifier of the declaration.
    Declaration,
    /// The variant at this position.
    Variant(usize),
}

impl DeriveError {
    /// Where the error is reported: a duplicate marker at the second
    /// variant that carries one, everything else at the declaration's
    /// identifier.
    pub open spec fn spec_site(self) -> ErrorSite {
        match self {
            DeriveError::DuplicateDefaultMarker { first, second } => ErrorSite::Variant(second),
            _ => ErrorSite::Declaration,
        }
    }

    /// The text of the diagnostic.
    pub open spec fn spec_message(self) -> Seq<char> {
        match self {
            DeriveError::UnsupportedShape => "#[derive(Default)] is not supported for unions"@,
            DeriveError::EmptyEnum => "#[derive(Default)] is not supported for empty enums"@,
            DeriveError::MissingDefaultMarker => "expected one variant with #[default]"@,
            DeriveError::DuplicateDefaultMarker { .. } => "#[default] is defined more than once"@,
        }
    }

    /// Where the error is reported.
    pub fn site(&self) -> (r: ErrorSite)
        ensures
            r == self.spec_site(),
    {
        match self {
            DeriveError::DuplicateDefaultMarker { first: _, second } => ErrorSite::Variant(*second),
            _ => ErrorSite::Declaration,
        }
    }

    /// The text of the diagnostic.
    pub fn message(&self) -> (r: &'static str)
        ensures
            r@ == self.spec_message(),
    {
        match self {
            DeriveError::UnsupportedShape => "#[derive(Default)] is not supported for unions",
            DeriveError::EmptyEnum => "#[derive(Default)] is not supported for empty enums",
            DeriveError::MissingDefaultMarker => "expected one variant with #[default]",
            DeriveError::DuplicateDefaultMarker { .. } => "#[default] is defined more than once",
        }
    }
}

} // verus!
