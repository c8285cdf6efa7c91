//! The failures that building a descriptor can end in.

use vstd::prelude::*;

verus! {

/// Why a descriptor could not be built. Each failure carries the text that
/// the editor shows to the user.
#[derive(Debug, Clone, PartialEq, Eq)]
pub enum ExtensionError {
    /// The settings cannot be used: the token is missing or blank, or the
    /// settings could not be read.
    Validation(String),
    /// The server package or the runtime could not be looked up or installed.
    Install(String),
    /// The working directory could not be resolved.
    Io(String),
    /// The settings schema could not be written out.
    Schema(String),
}

/// An [`ExtensionError`] with its text as a sequence of characters.
pub enum Failure {
    Validation(Seq<char>),
    Install(Seq<char>),
    Io(Seq<char>),
    Schema(Seq<char>),
}

impl Failure {
    /// The text that the failure carries, whatever its kind.
    pub open spec fn text(self) -> Seq<char> {
        match self {
            Failure::Validation(text) => text,
            Failure::Install(text) => text,
            Failure::Io(text) => text,
            Failure::Schema(text) => text,
        }
    }
}

impl View for ExtensionError {
    type V = Failure;

    open spec fn view(&self) -> Failure {
        match *self {
            ExtensionError::Validation(text) => Failure::Validation(text@),
            ExtensionError::Install(text) => Failure::Install(text@),
            ExtensionError::Io(text) => Failure::Io(text@),
            ExtensionError::Schema(text) => Failure::Schema(text@),
        }
    }
}

impl ExtensionError {
    /// The text to show: the editor takes every failure as one string, so
    /// the kind is not part of it.
    pub fn message(&self) -> (r: String)
        ensures
            r@ == self@.text(),
    {
        match self {
            ExtensionError::Validation(text) => text.clone(),
            ExtensionError::Install(text) => text.clone(),
            ExtensionError::Io(text) => text.clone(),
            ExtensionError::Schema(text) => text.clone(),
        }
    }
}

} // verus!
