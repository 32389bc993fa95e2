//! What a failed operation is reported as.

use vstd::prelude::*;

verus! {

/// A failure below a stream, in the two shapes in which this layer meets one.
#[derive(Debug, PartialEq, Eq)]
pub enum IoError {
    /// The operating system's error of this number.
    Os(i32),
    /// An error of no particular kind that carries a protocol error's message.
    Other(String),
}

/// The mathematical value of an [`IoError`].
pub enum IoErrorView {
    Os(i32),
    Other(Seq<char>),
}

impl View for IoError {
    type V = IoErrorView;

    open spec fn view(&self) -> IoErrorView {
        match self {
            IoError::Os(code) => IoErrorView::Os(*code),
            IoError::Other(message) => IoErrorView::Other(message@),
        }
    }
}

/// Why an operation failed.
#[derive(Debug, PartialEq, Eq)]
pub enum Error {
    /// The engine refused; the text is what its last-error slot held when it did.
    Ssh(String),
    /// A stream below the session failed.
    IO(IoError),
}

/// The mathematical value of an [`Error`].
pub enum ErrorView {
    Ssh(Seq<char>),
    IO(IoErrorView),
}

impl View for Error {
    type V = ErrorView;

    open spec fn view(&self) -> ErrorView {
        match self {
            Error::Ssh(message) => ErrorView::Ssh(message@),
            Error::IO(e) => ErrorView::IO(e@),
        }
    }
}

/// A result with its error, if any, replaced by the error's value.
pub open spec fn outcome<T>(r: Result<T, Error>) -> Result<T, ErrorView> {
    match r {
        Ok(v) => Ok(v),
        Err(e) => Err(e@),
    }
}

/// A stream result with its error, if any, replaced by the error's value.
pub open spec fn io_outcome<T>(r: Result<T, IoError>) -> Result<T, IoErrorView> {
    match r {
        Ok(v) => Ok(v),
        Err(e) => Err(e@),
    }
}

/// The words that open the text of a protocol error.
pub open spec fn prefix() -> Seq<char> {
    "SSH error: "@
}

/// The protocol error for a failed call, from the text read out of the
/// session's last-error slot right after it.
pub fn err(message: &str) -> (e: Error)
    ensures
        e@ == ErrorView::Ssh(message@),
{
    Error::Ssh(message.to_owned())
}

impl IoError {
    /// The stream error that wraps the protocol error `err(message)`.
    pub fn other(message: &str) -> (e: IoError)
        ensures
            e@ == IoErrorView::Other(message@),
    {
        IoError::Other(message.to_owned())
    }

    /// The engine's message that the error carries; an operating system's
    /// error carries none.
    pub open spec fn text(self) -> Option<Seq<char>> {
        match self {
            IoError::Os(_) => None,
            IoError::Other(message) => Some(message@),
        }
    }
}

impl Error {
    /// The engine's message that the error carries; an operating system's
    /// error carries none.
    pub open spec fn text(self) -> Option<Seq<char>> {
        match self {
            Error::Ssh(message) => Some(message@),
            Error::IO(e) => e.text(),
        }
    }

    /// The engine's message, bare. `None` for an operating system's error,
    /// which the platform describes.
    pub fn description(&self) -> (d: Option<&str>)
        ensures
            (match d {
                Some(s) => self.text() == Some(s@),
                None => self.text() is None,
            }),
    {
        match self {
            Error::Ssh(message) => Some(message.as_str()),
            Error::IO(IoError::Other(message)) => Some(message.as_str()),
            Error::IO(IoError::Os(_)) => None,
        }
    }

    /// The stream error underneath, where there is one.
    pub fn cause(&self) -> (c: Option<&IoError>)
        ensures
            (match *self {
                Error::Ssh(_) => c is None,
                Error::IO(e) => c == Some(&e),
            }),
    {
        match self {
            Error::Ssh(_) => None,
            Error::IO(e) => Some(e),
        }
    }

    /// The error as a line of text: the engine's message after the words
    /// `SSH error: `. `None` for an operating system's error, which the
    /// platform puts into words.
    pub fn message(&self) -> (m: Option<String>)
        ensures
            (match m {
                Some(s) => self.text() is Some && s@ == prefix() + self.text()->0,
                None => self.text() is None,
            }),
    {
        match self.description() {
            Some(d) => {
                let mut s = String::from_str("SSH error: ");
                s.append(d);
                Some(s)
            },
            None => None,
        }
    }
}

impl From<IoError> for Error {
    fn from(e: IoError) -> (r: Error) {
        Error::IO(e)
    }
}

impl vstd::std_specs::convert::FromSpecImpl<IoError> for Error {
    open spec fn obeys_from_spec() -> bool {
        true
    }

    open spec fn from_spec(e: IoError) -> Error {
        Error::IO(e)
    }
}

} // verus!
