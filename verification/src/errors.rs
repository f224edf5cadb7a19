//! Why a query could not be answered.

use crate::resource::Resource;
use vstd::prelude::*;

verus! {

/// The ways in which a query can fail.
#[derive(Debug, PartialEq, Eq)]
pub enum ErrorKind {
    /// An accounting file could not be opened, read or understood. Holds
    /// the path of the file.
    File(String),
    /// The allocator did not answer a question about its counters.
    AllocatorQueryFailed,
    /// The requested value has no meaning for the resource. Holds the name
    /// of the operation and the resource that it was asked of.
    NotApplicable(&'static str, Resource),
}

/// What an [`ErrorKind`] says, with its text as a sequence of characters.
pub enum ErrorView {
    /// The path of the accounting file that could not be read.
    File(Seq<char>),
    /// The allocator did not answer.
    AllocatorQueryFailed,
    /// The name of the operation, and the resource that it has no meaning
    /// for.
    NotApplicable(Seq<char>, Resource),
}

impl View for ErrorKind {
    type V = ErrorView;

    open spec fn view(&self) -> ErrorView {
        match *self {
            ErrorKind::File(path) => ErrorView::File(path@),
            ErrorKind::AllocatorQueryFailed => ErrorView::AllocatorQueryFailed,
            ErrorKind::NotApplicable(wanted, resource) => ErrorView::NotApplicable(
                wanted@,
                resource,
            ),
        }
    }
}

impl ErrorView {
    /// The sentence that tells a reader what went wrong.
    pub open spec fn text(self) -> Seq<char> {
        match self {
            ErrorView::File(path) => "could not access "@ + path,
            ErrorView::AllocatorQueryFailed => "could not access jemalloc internal data"@,
            ErrorView::NotApplicable(wanted, resource) => resource.label() + "."@ + wanted
                + " is not applicable"@,
        }
    }
}

impl ErrorKind {
    /// The sentence that tells a reader what went wrong.
    pub fn message(&self) -> (message: String)
        ensures
            message@ == self@.text(),
    {
        match self {
            ErrorKind::File(path) => {
                let mut message = "could not access ".to_owned();
                message.append(path.as_str());
                message
            },
            ErrorKind::AllocatorQueryFailed => "could not access jemalloc internal data".to_owned(),
            ErrorKind::NotApplicable(wanted, resource) => {
                let mut message = resource.name().to_owned();
                message.append(".");
                message.append(wanted);
                message.append(" is not applicable");
                message
            },
        }
    }
}

impl Clone for ErrorKind {
    fn clone(&self) -> (copy: Self)
        ensures
            copy@ == self@,
    {
        match self {
            ErrorKind::File(path) => ErrorKind::File(path.clone()),
            ErrorKind::AllocatorQueryFailed => ErrorKind::AllocatorQueryFailed,
            ErrorKind::NotApplicable(wanted, resource) => ErrorKind::NotApplicable(
                *wanted,
                *resource,
            ),
        }
    }
}

/// A count of bytes, or why it could not be had.
pub type Reading = Result<usize, ErrorKind>;

/// A [`Reading`] with the text of its error as characters.
pub type Outcome = Result<usize, ErrorView>;

/// The outcome that a reading stands for.
pub open spec fn outcome(reading: Reading) -> Outcome {
    match reading {
        Ok(bytes) => Ok(bytes),
        Err(error) => Err(error@),
    }
}

} // verus!
