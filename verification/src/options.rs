//! The options of a session, as the engine numbers them.

use vstd::prelude::*;

verus! {

/// An option of a session. The engine knows each by its place in this list,
/// counted from 0.
#[derive(Debug, Clone, Copy, PartialEq, Eq, Structural)]
pub enum SshOptions {
    Host,
    Port,
    PortStr,
    Fd,
    User,
    SshDir,
    Identity,
    AddIdentity,
    Knownhosts,
    Timeout,
    TimeoutUsec,
    Ssh1,
    Ssh2,
    LogVerbosity,
    LogVerbosityStr,
    CiphersCS,
    CiphersSC,
    CompressionCS,
    CompressionSC,
    Proxycommand,
    Bindaddr,
    Stricthostkeycheck,
    Compression,
    CompressionLevel,
    KeyExchange,
    Hostkeys,
    GssapiServerIdentity,
    GssapiClientIdentity,
    GssapiDelegateCredentials,
}

impl SshOptions {
    /// The engine's number for the option.
    pub open spec fn code_spec(self) -> i32 {
        match self {
            SshOptions::Host => 0,
            SshOptions::Port => 1,
            SshOptions::PortStr => 2,
            SshOptions::Fd => 3,
            SshOptions::User => 4,
            SshOptions::SshDir => 5,
            SshOptions::Identity => 6,
            SshOptions::AddIdentity => 7,
            SshOptions::Knownhosts => 8,
            SshOptions::Timeout => 9,
            SshOptions::TimeoutUsec => 10,
            SshOptions::Ssh1 => 11,
            SshOptions::Ssh2 => 12,
            SshOptions::LogVerbosity => 13,
            SshOptions::LogVerbosityStr => 14,
            SshOptions::CiphersCS => 15,
            SshOptions::CiphersSC => 16,
            SshOptions::CompressionCS => 17,
            SshOptions::CompressionSC => 18,
            SshOptions::Proxycommand => 19,
            SshOptions::Bindaddr => 20,
            SshOptions::Stricthostkeycheck => 21,
            SshOptions::Compression => 22,
            SshOptions::CompressionLevel => 23,
            SshOptions::KeyExchange => 24,
            SshOptions::Hostkeys => 25,
            SshOptions::GssapiServerIdentity => 26,
            SshOptions::GssapiClientIdentity => 27,
            SshOptions::GssapiDelegateCredentials => 28,
        }
    }

    /// The engine's number for the option.
    #[verifier::when_used_as_spec(code_spec)]
    pub fn code(self) -> (c: i32)
        ensures
            c == self.code_spec(),
            0 <= c <= 28,
    {
        match self {
            SshOptions::Host => 0,
            SshOptions::Port => 1,
            SshOptions::PortStr => 2,
            SshOptions::Fd => 3,
            SshOptions::User => 4,
            SshOptions::SshDir => 5,
            SshOptions::Identity => 6,
            SshOptions::AddIdentity => 7,
            SshOptions::Knownhosts => 8,
            SshOptions::Timeout => 9,
            SshOptions::TimeoutUsec => 10,
            SshOptions::Ssh1 => 11,
            SshOptions::Ssh2 => 12,
            SshOptions::LogVerbosity => 13,
            SshOptions::LogVerbosityStr => 14,
            SshOptions::CiphersCS => 15,
            SshOptions::CiphersSC => 16,
            SshOptions::CompressionCS => 17,
            SshOptions::CompressionSC => 18,
            SshOptions::Proxycommand => 19,
            SshOptions::Bindaddr => 20,
            SshOptions::Stricthostkeycheck => 21,
            SshOptions::Compression => 22,
            SshOptions::CompressionLevel => 23,
            SshOptions::KeyExchange => 24,
            SshOptions::Hostkeys => 25,
            SshOptions::GssapiServerIdentity => 26,
            SshOptions::GssapiClientIdentity => 27,
            SshOptions::GssapiDelegateCredentials => 28,
        }
    }
}

} // verus!
