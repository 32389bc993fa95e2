//! What the remote side asks for while files are pulled.

use vstd::prelude::*;

verus! {

/// One request of the remote side during a pull.
#[allow(non_camel_case_types)]
#[derive(Debug, Clone, Copy, PartialEq, Eq, Structural)]
pub enum Request {
    /// A new directory is going to be pulled.
    NEWDIR,
    /// A new file is going to be pulled.
    NEWFILE,
    /// End of requests.
    EOF,
    /// End of directory.
    ENDDIR,
    /// Warning received.
    WARNING,
}

impl Request {
    /// The request that the engine means by `code`, if it means one.
    pub open spec fn of_code(code: i32) -> Option<Request> {
        if code == 1 {
            Some(Request::NEWDIR)
        } else if code == 2 {
            Some(Request::NEWFILE)
        } else if code == 3 {
            Some(Request::EOF)
        } else if code == 4 {
            Some(Request::ENDDIR)
        } else if code == 5 {
            Some(Request::WARNING)
        } else {
            None
        }
    }

    /// The request for one of the engine's numbers, 1 to 5; `None` for every
    /// other number.
    pub fn from_code(code: i32) -> (q: Option<Request>)
        ensures
            q == Self::of_code(code),
    {
        match code {
            1 => Some(Request::NEWDIR),
            2 => Some(Request::NEWFILE),
            3 => Some(Request::EOF),
            4 => Some(Request::ENDDIR),
            5 => Some(Request::WARNING),
            _ => None,
        }
    }
}

} // verus!
