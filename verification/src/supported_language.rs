//! The languages this library can structurally edit.

use vstd::prelude::*;

verus! {

/// A language with a grammar the library can parse and query.
#[derive(Clone, Copy, Debug, PartialEq, Eq, Structural)]
pub enum SupportedLanguage {
    Java,
}

impl SupportedLanguage {
    /// The primary file extension of the language, without the dot.
    pub fn file_extension(&self) -> (r: &'static str)
        ensures
            r@ == "java"@,
    {
        match self {
            SupportedLanguage::Java => "java",
        }
    }

    /// The human-readable name of the language.
    pub fn name(&self) -> (r: &'static str)
        ensures
            r@ == "Java"@,
    {
        match self {
            SupportedLanguage::Java => "Java",
        }
    }
}

} // verus!
