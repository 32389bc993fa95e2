//! One connection to a server, and who the client is to it.

use crate::call::{c_text, call_view, for_text, Call, CallView, OptionValue, OptionValueView};
use crate::channel::Channel;
use crate::error::{err, outcome, Error, ErrorView};
use crate::known::ServerKnown;
use crate::mode::Mode;
use crate::options::SshOptions;
use crate::scp::Scp;
use crate::status::{status, status_model};
use vstd::prelude::*;
use vstd::slice::slice_to_vec;
use vstd::string::StringSliceAdditionalSpecFns;

verus! {

/// One connection to a server.
///
/// The value stands for the engine's session of the same handle, which is
/// never null. It is configured, then connected; it can be disconnected and
/// connected again, and keeps its handle through all of it.
#[derive(Debug)]
pub struct Session {
    session: usize,
}

/// What `is_server_known` returns for the engine's answer.
pub open spec fn server_known_model(code: i32, error: Seq<char>) -> Result<
    ServerKnown,
    ErrorView,
> {
    match ServerKnown::of_code(code) {
        Some(known) => Ok(known),
        None => Err(ErrorView::Ssh(error)),
    }
}

/// A key is reported as known for the engine's number 1 and for no other.
/// The numbers of a changed key and of a key of another type come back as
/// what they are, for the caller to decide on: nothing turns them into
/// `Known`.
pub proof fn lemma_known_only_for_one(code: i32, error: Seq<char>)
    ensures
        server_known_model(code, error) == Ok::<ServerKnown, ErrorView>(ServerKnown::Known)
            <==> code == 1,
        server_known_model(code, error) == Ok::<ServerKnown, ErrorView>(ServerKnown::Changed)
            <==> code == 2,
        server_known_model(code, error) == Ok::<ServerKnown, ErrorView>(ServerKnown::FoundOther)
            <==> code == 3,
{
}

/// The port as the engine takes it: the low 32 bits.
pub open spec fn port_value(port: usize) -> u32 {
    port as u32
}

/// A flag as the engine takes it: 1 for set, 0 for not.
pub open spec fn flag_value(flag: bool) -> i32 {
    if flag {
        1
    } else {
        0
    }
}

/// The call that sets a session's option to a text.
pub open spec fn sets_text(session: usize, option: SshOptions, text: Seq<u8>) -> CallView {
    CallView::OptionsSet { session, option, value: OptionValueView::Text(text) }
}

impl Session {
    #[verifier::type_invariant]
    spec fn non_null(&self) -> bool {
        self.session != 0
    }

    /// The engine's handle of the session.
    pub closed spec fn handle_spec(&self) -> usize {
        self.session
    }

    /// The engine's handle of the session. It is not null.
    #[verifier::when_used_as_spec(handle_spec)]
    pub fn handle(&self) -> (h: usize)
        ensures
            h == self.handle_spec(),
            h != 0,
    {
        proof {
            use_type_invariant(self);
        }
        self.session
    }

    /// The call that allocates a session.
    pub fn new_call() -> (c: Call<'static>)
        ensures
            c@ == CallView::New,
    {
        Call::New
    }

    /// The session for the handle that the allocation returned. A null handle
    /// is a failed allocation: there is no session yet whose error could be
    /// read, so the error is empty.
    pub fn new(handle: usize) -> (r: Result<Session, ()>)
        ensures
            (match r {
                Ok(s) => handle != 0 && s.handle() == handle,
                Err(_) => handle == 0,
            }),
    {
        if handle == 0 {
            Err(())
        } else {
            Ok(Session { session: handle })
        }
    }

    /// The call that releases the session. It takes the value with it: a
    /// session is released once, and nothing is called on it afterwards.
    pub fn free(self) -> (c: Call<'static>)
        ensures
            c@ == (CallView::Free { session: self.handle() }),
    {
        Call::Free { session: self.session }
    }

    /// The call that reads the session's last-error slot. The slot holds the
    /// reason of the last failure until the next call overwrites it, so it
    /// is read right after the call whose answer is to be explained.
    pub fn error_call(&self) -> (c: Call<'static>)
        ensures
            c@ == (CallView::GetError { session: self.handle() }),
    {
        Call::GetError { session: self.session }
    }

    /// The call that sets `option` to the text `v`; none where `v` holds a
    /// zero byte.
    fn set_text_call<'a>(&self, option: SshOptions, v: &'a str) -> (c: Option<Call<'a>>)
        ensures
            call_view(c) == for_text(v.spec_bytes(), sets_text(self.handle(), option, v.spec_bytes())),
    {
        match c_text(v) {
            Some(bytes) => Some(
                Call::OptionsSet { session: self.session, option, value: OptionValue::Text(bytes) },
            ),
            None => None,
        }
    }

    /// The call that sets the host to connect to; none where `v` holds a
    /// zero byte.
    pub fn set_host_call<'a>(&self, v: &'a str) -> (c: Option<Call<'a>>)
        ensures
            call_view(c) == for_text(
                v.spec_bytes(),
                sets_text(self.handle(), SshOptions::Host, v.spec_bytes()),
            ),
    {
        self.set_text_call(SshOptions::Host, v)
    }

    /// Whether the host was set.
    pub fn set_host(&mut self, code: i32, error: &str) -> (r: Result<(), Error>)
        ensures
            *final(self) == *old(self),
            outcome(r) == status_model(code, error@),
    {
        status(code, error)
    }

    /// The call that sets the port to connect to. The engine takes an
    /// unsigned integer of 32 bits: the low 32 bits of `v`.
    pub fn set_port_call(&self, v: usize) -> (c: Call<'static>)
        ensures
            c@ == (CallView::OptionsSet {
                session: self.handle(),
                option: SshOptions::Port,
                value: OptionValueView::Uint(port_value(v)),
            }),
    {
        Call::OptionsSet {
            session: self.session,
            option: SshOptions::Port,
            value: OptionValue::Uint(#[verifier::truncate] (v as u32)),
        }
    }

    /// Whether the port was set.
    pub fn set_port(&mut self, code: i32, error: &str) -> (r: Result<(), Error>)
        ensures
            *final(self) == *old(self),
            outcome(r) == status_model(code, error@),
    {
        status(code, error)
    }

    /// The call that sets the name of the user to log in as; none where `v`
    /// holds a zero byte.
    pub fn set_username_call<'a>(&self, v: &'a str) -> (c: Option<Call<'a>>)
        ensures
            call_view(c) == for_text(
                v.spec_bytes(),
                sets_text(self.handle(), SshOptions::User, v.spec_bytes()),
            ),
    {
        self.set_text_call(SshOptions::User, v)
    }

    /// Whether the user name was set.
    pub fn set_username(&mut self, code: i32, error: &str) -> (r: Result<(), Error>)
        ensures
            *final(self) == *old(self),
            outcome(r) == status_model(code, error@),
    {
        status(code, error)
    }

    /// The call that sets the location of the `.ssh` directory, where the
    /// configuration file and the keys are found; none where `v` holds a zero
    /// byte. The path may hold `%s`, which the engine replaces by the user's
    /// home directory.
    ///
    /// The directory has an option of its own, and that is the one set: the
    /// user name is left alone.
    pub fn set_ssh_dir_call<'a>(&self, v: &'a str) -> (c: Option<Call<'a>>)
        ensures
            call_view(c) == for_text(
                v.spec_bytes(),
                sets_text(self.handle(), SshOptions::SshDir, v.spec_bytes()),
            ),
    {
        self.set_text_call(SshOptions::SshDir, v)
    }

    /// Whether the directory was set.
    pub fn set_ssh_dir(&mut self, code: i32, error: &str) -> (r: Result<(), Error>)
        ensures
            *final(self) == *old(self),
            outcome(r) == status_model(code, error@),
    {
        status(code, error)
    }

    /// The call that sets the location of the known-hosts file; none where
    /// `v` holds a zero byte. The path may hold `%s`, which the engine
    /// replaces by the user's home directory.
    pub fn set_knownhosts_call<'a>(&self, v: &'a str) -> (c: Option<Call<'a>>)
        ensures
            call_view(c) == for_text(
                v.spec_bytes(),
                sets_text(self.handle(), SshOptions::Knownhosts, v.spec_bytes()),
            ),
    {
        self.set_text_call(SshOptions::Knownhosts, v)
    }

    /// Whether the location of the known-hosts file was set.
    pub fn set_knownhosts(&mut self, code: i32, error: &str) -> (r: Result<(), Error>)
        ensures
            *final(self) == *old(self),
            outcome(r) == status_model(code, error@),
    {
        status(code, error)
    }

    /// The call that sets the location of the key to authenticate with; none
    /// where `v` holds a zero byte. The path may hold `%s`, which the engine
    /// replaces by the user's home directory.
    pub fn set_identity_call<'a>(&self, v: &'a str) -> (c: Option<Call<'a>>)
        ensures
            call_view(c) == for_text(
                v.spec_bytes(),
                sets_text(self.handle(), SshOptions::Identity, v.spec_bytes()),
            ),
    {
        self.set_text_call(SshOptions::Identity, v)
    }

    /// Whether the location of the key was set.
    pub fn set_identity(&mut self, code: i32, error: &str) -> (r: Result<(), Error>)
        ensures
            *final(self) == *old(self),
            outcome(r) == status_model(code, error@),
    {
        status(code, error)
    }

    /// The call that allows or forbids version 1 of the protocol.
    pub fn set_ssh1_call(&self, v: bool) -> (c: Call<'static>)
        ensures
            c@ == (CallView::OptionsSet {
                session: self.handle(),
                option: SshOptions::Ssh1,
                value: OptionValueView::Int(flag_value(v)),
            }),
    {
        Call::OptionsSet {
            session: self.session,
            option: SshOptions::Ssh1,
            value: OptionValue::Int(if v { 1 } else { 0 }),
        }
    }

    /// Whether the flag for version 1 was set.
    pub fn set_ssh1(&mut self, code: i32, error: &str) -> (r: Result<(), Error>)
        ensures
            *final(self) == *old(self),
            outcome(r) == status_model(code, error@),
    {
        status(code, error)
    }

    /// The call that allows or forbids version 2 of the protocol.
    pub fn set_ssh2_call(&self, v: bool) -> (c: Call<'static>)
        ensures
            c@ == (CallView::OptionsSet {
                session: self.handle(),
                option: SshOptions::Ssh2,
                value: OptionValueView::Int(flag_value(v)),
            }),
    {
        Call::OptionsSet {
            session: self.session,
            option: SshOptions::Ssh2,
            value: OptionValue::Int(if v { 1 } else { 0 }),
        }
    }

    /// Whether the flag for version 2 was set.
    pub fn set_ssh2(&mut self, code: i32, error: &str) -> (r: Result<(), Error>)
        ensures
            *final(self) == *old(self),
            outcome(r) == status_model(code, error@),
    {
        status(code, error)
    }

    /// The call that has the engine read a configuration file; none where
    /// the path holds a zero byte. Without a path the engine reads the user's
    /// own, `~/.ssh/config`.
    pub fn parse_config_call<'a>(&self, path: Option<&'a str>) -> (c: Option<Call<'a>>)
        ensures
            call_view(c) == (match path {
                Some(p) => for_text(
                    p.spec_bytes(),
                    CallView::OptionsParseConfig {
                        session: self.handle(),
                        path: Some(p.spec_bytes()),
                    },
                ),
                None => Some(CallView::OptionsParseConfig { session: self.handle(), path: None }),
            }),
    {
        match path {
            Some(p) => match c_text(p) {
                Some(bytes) => Some(
                    Call::OptionsParseConfig { session: self.session, path: Some(bytes) },
                ),
                None => None,
            },
            None => Some(Call::OptionsParseConfig { session: self.session, path: None }),
        }
    }

    /// Whether the configuration file was read.
    pub fn parse_config(&mut self, code: i32, error: &str) -> (r: Result<(), Error>)
        ensures
            *final(self) == *old(self),
            outcome(r) == status_model(code, error@),
    {
        status(code, error)
    }

    /// The call that connects. It may be made on a session that was never
    /// configured: what comes of it is for the engine to say.
    pub fn connect_call(&self) -> (c: Call<'static>)
        ensures
            c@ == (CallView::Connect { session: self.handle() }),
    {
        Call::Connect { session: self.session }
    }

    /// Whether the session is connected now.
    pub fn connect(&mut self, code: i32, error: &str) -> (r: Result<(), Error>)
        ensures
            *final(self) == *old(self),
            outcome(r) == status_model(code, error@),
    {
        status(code, error)
    }

    /// The call that disconnects. The session keeps its handle and can be
    /// connected again.
    pub fn disconnect_call(&self) -> (c: Call<'static>)
        ensures
            c@ == (CallView::Disconnect { session: self.handle() }),
    {
        Call::Disconnect { session: self.session }
    }

    /// Whether the session was disconnected.
    pub fn disconnect(&mut self, code: i32, error: &str) -> (r: Result<(), Error>)
        ensures
            *final(self) == *old(self),
            outcome(r) == status_model(code, error@),
    {
        status(code, error)
    }

    /// The call that asks whether the server's key is known.
    pub fn is_server_known_call(&self) -> (c: Call<'static>)
        ensures
            c@ == (CallView::IsServerKnown { session: self.handle() }),
    {
        Call::IsServerKnown { session: self.session }
    }

    /// What is known of the server's key: the state that the engine's
    /// number names. A number that names none, negative or too large, is a
    /// protocol error.
    pub fn is_server_known(&mut self, code: i32, error: &str) -> (r: Result<ServerKnown, Error>)
        ensures
            *final(self) == *old(self),
            outcome(r) == server_known_model(code, error@),
    {
        match ServerKnown::from_code(code) {
            Some(known) => Ok(known),
            None => Err(err(error)),
        }
    }

    /// The call that records the server's key as trusted. It is for the
    /// caller to have decided so.
    pub fn write_knownhost_call(&self) -> (c: Call<'static>)
        ensures
            c@ == (CallView::WriteKnownhost { session: self.handle() }),
    {
        Call::WriteKnownhost { session: self.session }
    }

    /// Whether the key was recorded.
    pub fn write_knownhost(&mut self, code: i32, error: &str) -> (r: Result<(), Error>)
        ensures
            *final(self) == *old(self),
            outcome(r) == status_model(code, error@),
    {
        status(code, error)
    }

    /// The call that fetches the hash of the server's public key.
    pub fn get_pubkey_hash_call(&self) -> (c: Call<'static>)
        ensures
            c@ == (CallView::GetPubkeyHash { session: self.handle() }),
    {
        Call::GetPubkeyHash { session: self.session }
    }

    /// The hash of the server's public key.
    ///
    /// `len` is what the engine returned: the length of the hash, or a
    /// negative code. `hash` is the engine's buffer, of that length where it
    /// is not negative. The result is a copy, so the buffer can be released
    /// as soon as this returns, whatever it returns.
    pub fn get_pubkey_hash(&mut self, len: i32, hash: &[u8], error: &str) -> (r: Result<
        Vec<u8>,
        Error,
    >)
        ensures
            *final(self) == *old(self),
            (match r {
                Ok(v) => len >= 0 && v@ == hash@,
                Err(e) => len < 0 && e@ == ErrorView::Ssh(error@),
            }),
    {
        if len >= 0 {
            Ok(slice_to_vec(hash))
        } else {
            Err(err(error))
        }
    }

    /// The call that authenticates with a password, as the user the session
    /// was configured with; none where the password holds a zero byte.
    pub fn userauth_password_call<'a>(&self, p: &'a str) -> (c: Option<Call<'a>>)
        ensures
            call_view(c) == for_text(
                p.spec_bytes(),
                CallView::UserauthPassword {
                    session: self.handle(),
                    user: None,
                    password: Some(p.spec_bytes()),
                },
            ),
    {
        match c_text(p) {
            Some(bytes) => Some(
                Call::UserauthPassword { session: self.session, user: None, password: Some(bytes) },
            ),
            None => None,
        }
    }

    /// Whether the server took the password.
    pub fn userauth_password(&mut self, code: i32, error: &str) -> (r: Result<(), Error>)
        ensures
            *final(self) == *old(self),
            outcome(r) == status_model(code, error@),
    {
        status(code, error)
    }

    /// The call that authenticates by keyboard: the engine prompts on the
    /// standard output and reads the answer, unechoed, from the standard
    /// input. Without a user it is the one the session was configured with.
    /// There is no call where the user's name holds a zero byte.
    pub fn userauth_kbdint_call<'a>(&self, user: Option<&'a str>) -> (c: Option<Call<'a>>)
        ensures
            call_view(c) == (match user {
                Some(u) => for_text(
                    u.spec_bytes(),
                    CallView::UserauthKbdint {
                        session: self.handle(),
                        user: Some(u.spec_bytes()),
                        submethods: None,
                    },
                ),
                None => Some(
                    CallView::UserauthKbdint {
                        session: self.handle(),
                        user: None,
                        submethods: None,
                    },
                ),
            }),
    {
        match user {
            None => Some(
                Call::UserauthKbdint { session: self.session, user: None, submethods: None },
            ),
            Some(u) => match c_text(u) {
                Some(bytes) => Some(
                    Call::UserauthKbdint {
                        session: self.session,
                        user: Some(bytes),
                        submethods: None,
                    },
                ),
                None => None,
            },
        }
    }

    /// Whether the server took the answers.
    pub fn userauth_kbdint(&mut self, code: i32, error: &str) -> (r: Result<(), Error>)
        ensures
            *final(self) == *old(self),
            outcome(r) == status_model(code, error@),
    {
        status(code, error)
    }

    /// The call that tries the keys of the user's agent and identity files,
    /// unlocking them with the passphrase where one is given. The user is
    /// the one the session was configured with. There is no call where the
    /// passphrase holds a zero byte.
    pub fn userauth_publickey_auto_call<'a>(&self, p: Option<&'a str>) -> (c: Option<Call<'a>>)
        ensures
            call_view(c) == (match p {
                Some(phrase) => for_text(
                    phrase.spec_bytes(),
                    CallView::UserauthPublickeyAuto {
                        session: self.handle(),
                        user: None,
                        passphrase: Some(phrase.spec_bytes()),
                    },
                ),
                None => Some(
                    CallView::UserauthPublickeyAuto {
                        session: self.handle(),
                        user: None,
                        passphrase: None,
                    },
                ),
            }),
    {
        match p {
            None => Some(
                Call::UserauthPublickeyAuto {
                    session: self.session,
                    user: None,
                    passphrase: None,
                },
            ),
            Some(phrase) => match c_text(phrase) {
                Some(bytes) => Some(
                    Call::UserauthPublickeyAuto {
                        session: self.session,
                        user: None,
                        passphrase: Some(bytes),
                    },
                ),
                None => None,
            },
        }
    }

    /// Whether the server took one of the keys.
    pub fn userauth_publickey_auto(&mut self, code: i32, error: &str) -> (r: Result<(), Error>)
        ensures
            *final(self) == *old(self),
            outcome(r) == status_model(code, error@),
    {
        status(code, error)
    }

    /// The call that allocates a file transfer on the session, in the given
    /// mode and for the given remote location; none where the location holds
    /// a zero byte.
    pub fn scp_new_call<'a>(&self, mode: Mode, v: &'a str) -> (c: Option<Call<'a>>)
        ensures
            call_view(c) == for_text(
                v.spec_bytes(),
                CallView::ScpNew {
                    session: self.handle(),
                    mode: mode.bits(),
                    location: v.spec_bytes(),
                },
            ),
    {
        match c_text(v) {
            Some(bytes) => Some(
                Call::ScpNew { session: self.session, mode: mode.bits(), location: bytes },
            ),
            None => None,
        }
    }

    /// The transfer for the handle that the allocation returned, with no
    /// file being read. It borrows the session for as long as it lives. A
    /// null handle is a failed allocation, and a protocol error.
    pub fn scp_new<'b>(&'b mut self, handle: usize, error: &str) -> (r: Result<Scp<'b>, Error>)
        ensures
            *final(self) == *old(self),
            (match r {
                Ok(scp) => handle != 0 && scp.handle() == handle && scp.session() == *old(self)
                    && scp.remaining() == 0,
                Err(e) => handle == 0 && e@ == ErrorView::Ssh(error@),
            }),
    {
        if handle == 0 {
            Err(err(error))
        } else {
            Ok(Scp::attach(self, handle))
        }
    }

    /// The call that allocates a channel on the session.
    pub fn channel_new_call(&self) -> (c: Call<'static>)
        ensures
            c@ == (CallView::ChannelNew { session: self.handle() }),
    {
        Call::ChannelNew { session: self.session }
    }

    /// The channel for the handle that the allocation returned. It borrows
    /// the session for as long as it lives. A null handle is a failed
    /// allocation, and a protocol error.
    pub fn channel_new<'b>(&'b mut self, handle: usize, error: &str) -> (r: Result<
        Channel<'b>,
        Error,
    >)
        ensures
            *final(self) == *old(self),
            (match r {
                Ok(channel) => handle != 0 && channel.handle() == handle && channel.session()
                    == *old(self),
                Err(e) => handle == 0 && e@ == ErrorView::Ssh(error@),
            }),
    {
        if handle == 0 {
            Err(err(error))
        } else {
            Ok(Channel::attach(self, handle))
        }
    }
}

} // verus!
