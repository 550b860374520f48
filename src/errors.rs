//! Failures that the bridge reports to the evaluator as values.

use vstd::prelude::*;

verus! {

/// The ways in which a call into the bridge can fail.
#[derive(Clone, Debug, PartialEq, Eq)]
pub enum OsoError {
    /// A capability (such as equality) was used on a type that never configured it.
    UnsupportedOperation { operation: String, class_name: String },
    /// A type-erased value was not of the native type a check expected.
    /// This is always a usage error of the embedding application.
    DowncastFailed { class_name: String },
    /// `init` was called on a descriptor without a constructor.
    MissingConstructor { class_name: String },
    /// A constructor was called with the wrong number of arguments.
    WrongArity { class_name: String, expected: usize, found: usize },
    /// An error raised by a native method or constructor, as its message.
    Custom { message: String },
}

} // verus!
