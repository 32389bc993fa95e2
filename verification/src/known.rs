//! What the engine knows of the server's host key.

use vstd::prelude::*;

verus! {

/// The state of the server's key with respect to the known-hosts file.
///
/// `Changed` and `FoundOther` may mean that someone sits in the middle. They
/// are handed to the caller as they are: nothing in this layer turns either
/// into `Known`.
#[derive(Debug, Clone, Copy, PartialEq, Eq, Structural)]
pub enum ServerKnown {
    /// The key is unknown.
    NotKnown,
    /// The key is known.
    Known,
    /// The key has changed since the last connection. The user has to be
    /// warned of a possible attack.
    Changed,
    /// The type of the key has changed. Possible attack.
    FoundOther,
    /// The known-hosts file does not exist; writing the key will create it.
    FileNotFound,
}

impl ServerKnown {
    /// The state that the engine means by `code`, if it means one.
    pub open spec fn of_code(code: i32) -> Option<ServerKnown> {
        if code == 0 {
            Some(ServerKnown::NotKnown)
        } else if code == 1 {
            Some(ServerKnown::Known)
        } else if code == 2 {
            Some(ServerKnown::Changed)
        } else if code == 3 {
            Some(ServerKnown::FoundOther)
        } else if code == 4 {
            Some(ServerKnown::FileNotFound)
        } else {
            None
        }
    }

    /// The state for one of the engine's numbers, 0 to 4; `None` for every
    /// other number.
    pub fn from_code(code: i32) -> (k: Option<ServerKnown>)
        ensures
            k == Self::of_code(code),
    {
        match code {
            0 => Some(ServerKnown::NotKnown),
            1 => Some(ServerKnown::Known),
            2 => Some(ServerKnown::Changed),
            3 => Some(ServerKnown::FoundOther),
            4 => Some(ServerKnown::FileNotFound),
            _ => None,
        }
    }

    /// Whether the key is the one on record.
    pub fn is_known(&self) -> (b: bool)
        ensures
            b == (*self == ServerKnown::Known),
    {
        match *self {
            ServerKnown::Known => true,
            _ => false,
        }
    }
}

} // verus!
