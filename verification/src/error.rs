//! What can go wrong, and what the operator does next.

use vstd::prelude::*;

verus! {

/// All errors possible to occur during reconciliation
#[derive(Debug, PartialEq)]
pub struct Error(pub String);

impl View for Error {
    type V = Seq<char>;

    open spec fn view(&self) -> Seq<char> {
        self.0@
    }
}

impl DeepView for Error {
    type V = Seq<char>;

    open spec fn deep_view(&self) -> Seq<char> {
        self.view()
    }
}

/// When a resource is to be reconciled again.
#[derive(Debug, Clone, Copy, PartialEq, Eq, Structural)]
pub enum Requeue {
    /// When something changes.
    AwaitChange,
    /// When something changes, or after this many seconds.
    After(u64),
}

/// When a resource is to be reconciled again after an error.
pub fn error_policy(error: &Error) -> (requeue: Requeue)
    ensures
        requeue == Requeue::After(15),
{
    Requeue::After(15)
}

} // verus!
