//! Error kinds shared by every operation of the library.
//!
//! All operations return a typed success-or-failure result; the kinds below
//! classify every failure the core can report.

use vstd::prelude::*;

verus! {

/// Failure kinds of the structural-editing core.
#[derive(Clone, Copy, Debug, PartialEq, Eq, Structural)]
pub enum LibError {
    /// An expected structural element is missing, e.g. no (or more than one)
    /// top-level type declaration.
    AnchorNotFound,
    /// The input bytes do not parse as a syntactically recognizable Java unit.
    ParseFailure,
    /// An illegal combination of configuration values was requested.
    InvalidConfiguration,
    /// A field or import with the same identity already exists.
    DuplicateMember,
    /// Repository generation was requested but no identifier field exists.
    MissingIdentifier,
    /// An edit set violates the non-overlap invariant.
    EditOverlap,
}

impl LibError {
    /// A stable, descriptive message for this error kind.
    pub fn message(&self) -> (r: &'static str)
        ensures
            r@ == self.spec_message(),
    {
        match self {
            LibError::AnchorNotFound => "structural anchor not found",
            LibError::ParseFailure => "source does not parse as a Java unit",
            LibError::InvalidConfiguration => "illegal configuration combination",
            LibError::DuplicateMember => "member already exists",
            LibError::MissingIdentifier => "no identifier field found",
            LibError::EditOverlap => "edit ranges overlap",
        }
    }

    pub open spec fn spec_message(&self) -> Seq<char> {
        match self {
            LibError::AnchorNotFound => "structural anchor not found"@,
            LibError::ParseFailure => "source does not parse as a Java unit"@,
            LibError::InvalidConfiguration => "illegal configuration combination"@,
            LibError::DuplicateMember => "member already exists"@,
            LibError::MissingIdentifier => "no identifier field found"@,
            LibError::EditOverlap => "edit ranges overlap"@,
        }
    }
}

} // verus!
