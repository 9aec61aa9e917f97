//! The errors the runtime reports.

use vstd::prelude::*;

verus! {

/// What went wrong.
#[derive(Debug, PartialEq, Eq)]
pub enum Error {
    /// The guest binary is not one the loader can map.
    BadBinary(String),
    /// The guest asked for something the runtime does not model.
    Unsupported(String),
    /// A host call failed with the operating system's error `code`.
    Io { context: String, code: i32 },
}

/// An [`Error`] with its text as a sequence of characters.
pub enum ErrorView {
    BadBinary(Seq<char>),
    Unsupported(Seq<char>),
    Io { context: Seq<char>, code: i32 },
}

impl View for Error {
    type V = ErrorView;

    open spec fn view(&self) -> ErrorView {
        match *self {
            Error::BadBinary(msg) => ErrorView::BadBinary(msg@),
            Error::Unsupported(msg) => ErrorView::Unsupported(msg@),
            Error::Io { context, code } => ErrorView::Io { context: context@, code },
        }
    }
}

impl Error {
    /// A host call described by `context` failed with error `code`.
    pub fn io(context: &str, code: i32) -> (e: Error)
        ensures
            e@ == (ErrorView::Io { context: context@, code }),
    {
        Error::Io { context: context.to_owned(), code }
    }
}

/// Whether `result` reports exactly `defect` as a [`Error::BadBinary`], and
/// success when there is none.
pub open spec fn reports<T>(result: Result<T, Error>, defect: Option<Seq<char>>) -> bool {
    match result {
        Ok(_) => defect is None,
        Err(e) => defect is Some && e@ == ErrorView::BadBinary(defect->0),
    }
}

} // verus!
