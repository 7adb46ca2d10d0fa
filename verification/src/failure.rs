//! What can go wrong, and the words that report it.

use vstd::prelude::*;

verus! {

/// The classes of failure.
#[derive(Clone, Copy, Debug, PartialEq, Eq, Structural)]
pub enum FailureKind {
    /// The settings handed over at startup cannot be used.
    Config,
    /// The zone or the record that was asked for does not exist.
    NotFound,
    /// The record API answered, and reported a failure.
    Remote,
    /// No usable answer of the record API arrived.
    Transport,
    /// The store of published values could not be reached.
    Unavailable,
}

/// A failure: its class and the diagnostic to print.
#[derive(Debug, PartialEq, Eq)]
pub struct Failure {
    pub kind: FailureKind,
    pub message: String,
}

/// A `Failure` as a mathematical value.
pub struct FailureView {
    pub kind: FailureKind,
    pub message: Seq<char>,
}

impl View for Failure {
    type V = FailureView;

    open spec fn view(&self) -> FailureView {
        FailureView { kind: self.kind, message: self.message@ }
    }
}

impl Clone for Failure {
    fn clone(&self) -> (copy: Self)
        ensures
            copy@ == self@,
    {
        Failure { kind: self.kind, message: self.message.clone() }
    }
}

impl Failure {
    /// A failure of class `kind` that reports `message`.
    pub fn new(kind: FailureKind, message: String) -> (failure: Failure)
        ensures
            failure@ == (FailureView { kind, message: message@ }),
    {
        Failure { kind, message }
    }

    /// The diagnostic, as an owned string.
    pub fn to_string(&self) -> (message: String)
        ensures
            message@ == self@.message,
    {
        self.message.clone()
    }
}

} // verus!
