//! The calls into the engine, as values.

use crate::options::SshOptions;
use vstd::prelude::*;
use vstd::string::StringSliceAdditionalSpecFns;

verus! {

/// Whether `bytes` can travel as a C string: no byte of it is the terminator.
pub open spec fn c_string(bytes: Seq<u8>) -> bool {
    forall|i: int| 0 <= i < bytes.len() ==> bytes[i] != 0u8
}

/// Whether `bytes` can travel as a C string: no byte of it is the terminator.
pub fn is_c_string(bytes: &[u8]) -> (b: bool)
    ensures
        b == c_string(bytes@),
{
    let mut i: usize = 0;
    while i < bytes.len()
        invariant
            i <= bytes.len(),
            forall|j: int| 0 <= j < i ==> bytes@[j] != 0u8,
        decreases bytes.len() - i,
    {
        if bytes[i] == 0 {
            return false;
        }
        i += 1;
    }
    true
}

/// The bytes of `text` as they travel in a C string; `None` where one of
/// them is the terminator, so that the engine would see the text cut short.
pub fn c_text<'a>(text: &'a str) -> (r: Option<&'a [u8]>)
    ensures
        (match r {
            Some(bytes) => bytes@ == text.spec_bytes() && c_string(bytes@),
            None => !c_string(text.spec_bytes()),
        }),
{
    let bytes = text.as_bytes();
    if is_c_string(bytes) {
        Some(bytes)
    } else {
        None
    }
}

/// The value that an option is set to. The engine reads it through a
/// pointer, and the option decides what it expects behind that pointer.
#[derive(Debug, Clone, Copy)]
pub enum OptionValue<'a> {
    /// The content of a C string.
    Text(&'a [u8]),
    /// One unsigned integer.
    Uint(u32),
    /// One integer.
    Int(i32),
}

/// The mathematical value of an [`OptionValue`].
pub enum OptionValueView {
    Text(Seq<u8>),
    Uint(u32),
    Int(i32),
}

impl<'a> View for OptionValue<'a> {
    type V = OptionValueView;

    open spec fn view(&self) -> OptionValueView {
        match self {
            OptionValue::Text(b) => OptionValueView::Text(b@),
            OptionValue::Uint(v) => OptionValueView::Uint(*v),
            OptionValue::Int(v) => OptionValueView::Int(*v),
        }
    }
}

/// The value of a text that may be absent.
pub open spec fn text_view(text: Option<&[u8]>) -> Option<Seq<u8>> {
    match text {
        Some(b) => Some(b@),
        None => None,
    }
}

/// One call into the engine: the function, the handle it is called on, and
/// its other arguments.
///
/// A handle is the address that the engine gave out, as a number. Text is
/// the content of a C string, without its terminator; where the engine takes
/// a null pointer in place of a string, the text is `None`.
#[derive(Debug, Clone, Copy)]
pub enum Call<'a> {
    /// `ssh_new`
    New,
    /// `ssh_free`
    Free { session: usize },
    /// `ssh_connect`
    Connect { session: usize },
    /// `ssh_disconnect`
    Disconnect { session: usize },
    /// `ssh_options_set`
    OptionsSet { session: usize, option: SshOptions, value: OptionValue<'a> },
    /// `ssh_options_parse_config`
    OptionsParseConfig { session: usize, path: Option<&'a [u8]> },
    /// `ssh_get_error`
    GetError { session: usize },
    /// `ssh_userauth_password`
    UserauthPassword { session: usize, user: Option<&'a [u8]>, password: Option<&'a [u8]> },
    /// `ssh_userauth_kbdint`
    UserauthKbdint { session: usize, user: Option<&'a [u8]>, submethods: Option<&'a [u8]> },
    /// `ssh_userauth_publickey_auto`
    UserauthPublickeyAuto {
        session: usize,
        user: Option<&'a [u8]>,
        passphrase: Option<&'a [u8]>,
    },
    /// `ssh_is_server_known`
    IsServerKnown { session: usize },
    /// `ssh_write_knownhost`
    WriteKnownhost { session: usize },
    /// `ssh_get_pubkey_hash`, and `ssh_clean_pubkey_hash` once the hash is
    /// copied
    GetPubkeyHash { session: usize },
    /// `ssh_channel_new`
    ChannelNew { session: usize },
    /// `ssh_channel_close`
    ChannelClose { channel: usize },
    /// `ssh_channel_free`
    ChannelFree { channel: usize },
    /// `ssh_channel_open_session`
    ChannelOpenSession { channel: usize },
    /// `ssh_channel_request_exec`
    ChannelRequestExec { channel: usize, command: &'a [u8] },
    /// `ssh_channel_read`, into a buffer of at least `len` bytes
    ChannelRead { channel: usize, len: usize, is_stderr: i32 },
    /// `ssh_channel_send_eof`
    ChannelSendEof { channel: usize },
    /// `ssh_channel_get_exit_status`
    ChannelGetExitStatus { channel: usize },
    /// `ssh_scp_new`
    ScpNew { session: usize, mode: i32, location: &'a [u8] },
    /// `ssh_scp_init`
    ScpInit { scp: usize },
    /// `ssh_scp_free`
    ScpFree { scp: usize },
    /// `ssh_scp_close`
    ScpClose { scp: usize },
    /// `ssh_scp_pull_request`
    ScpPullRequest { scp: usize },
    /// `ssh_scp_accept_request`
    ScpAcceptRequest { scp: usize },
    /// `ssh_scp_deny_request`
    ScpDenyRequest { scp: usize },
    /// `ssh_scp_read`, into a buffer of at least `len` bytes
    ScpRead { scp: usize, len: usize },
    /// `ssh_scp_push_file64`
    ScpPushFile64 { scp: usize, name: &'a [u8], size: u64, mode: i32 },
    /// `ssh_scp_push_directory`
    ScpPushDirectory { scp: usize, name: &'a [u8], mode: i32 },
    /// `ssh_scp_write`
    ScpWrite { scp: usize, bytes: &'a [u8] },
    /// `ssh_scp_request_get_size64`
    ScpRequestGetSize64 { scp: usize },
    /// `ssh_scp_request_get_permissions`
    ScpRequestGetPermissions { scp: usize },
    /// `ssh_scp_request_get_filename`
    ScpRequestGetFilename { scp: usize },
    /// `ssh_scp_request_get_warning`
    ScpRequestGetWarning { scp: usize },
    /// `ssh_scp_leave_directory`
    ScpLeaveDirectory { scp: usize },
}

/// The mathematical value of a [`Call`]: the same call, with each text as
/// the sequence of its bytes.
pub enum CallView {
    New,
    Free { session: usize },
    Connect { session: usize },
    Disconnect { session: usize },
    OptionsSet { session: usize, option: SshOptions, value: OptionValueView },
    OptionsParseConfig { session: usize, path: Option<Seq<u8>> },
    GetError { session: usize },
    UserauthPassword { session: usize, user: Option<Seq<u8>>, password: Option<Seq<u8>> },
    UserauthKbdint { session: usize, user: Option<Seq<u8>>, submethods: Option<Seq<u8>> },
    UserauthPublickeyAuto { session: usize, user: Option<Seq<u8>>, passphrase: Option<Seq<u8>> },
    IsServerKnown { session: usize },
    WriteKnownhost { session: usize },
    GetPubkeyHash { session: usize },
    ChannelNew { session: usize },
    ChannelClose { channel: usize },
    ChannelFree { channel: usize },
    ChannelOpenSession { channel: usize },
    ChannelRequestExec { channel: usize, command: Seq<u8> },
    ChannelRead { channel: usize, len: usize, is_stderr: i32 },
    ChannelSendEof { channel: usize },
    ChannelGetExitStatus { channel: usize },
    ScpNew { session: usize, mode: i32, location: Seq<u8> },
    ScpInit { scp: usize },
    ScpFree { scp: usize },
    ScpClose { scp: usize },
    ScpPullRequest { scp: usize },
    ScpAcceptRequest { scp: usize },
    ScpDenyRequest { scp: usize },
    ScpRead { scp: usize, len: usize },
    ScpPushFile64 { scp: usize, name: Seq<u8>, size: u64, mode: i32 },
    ScpPushDirectory { scp: usize, name: Seq<u8>, mode: i32 },
    ScpWrite { scp: usize, bytes: Seq<u8> },
    ScpRequestGetSize64 { scp: usize },
    ScpRequestGetPermissions { scp: usize },
    ScpRequestGetFilename { scp: usize },
    ScpRequestGetWarning { scp: usize },
    ScpLeaveDirectory { scp: usize },
}

impl<'a> View for Call<'a> {
    type V = CallView;

    open spec fn view(&self) -> CallView {
        match *self {
            Call::New => CallView::New,
            Call::Free { session } => CallView::Free { session },
            Call::Connect { session } => CallView::Connect { session },
            Call::Disconnect { session } => CallView::Disconnect { session },
            Call::OptionsSet { session, option, value } => CallView::OptionsSet {
                session,
                option,
                value: value@,
            },
            Call::OptionsParseConfig { session, path } => CallView::OptionsParseConfig {
                session,
                path: text_view(path),
            },
            Call::GetError { session } => CallView::GetError { session },
            Call::UserauthPassword { session, user, password } => CallView::UserauthPassword {
                session,
                user: text_view(user),
                password: text_view(password),
            },
            Call::UserauthKbdint { session, user, submethods } => CallView::UserauthKbdint {
                session,
                user: text_view(user),
                submethods: text_view(submethods),
            },
            Call::UserauthPublickeyAuto {
                session,
                user,
                passphrase,
            } => CallView::UserauthPublickeyAuto {
                session,
                user: text_view(user),
                passphrase: text_view(passphrase),
            },
            Call::IsServerKnown { session } => CallView::IsServerKnown { session },
            Call::WriteKnownhost { session } => CallView::WriteKnownhost { session },
            Call::GetPubkeyHash { session } => CallView::GetPubkeyHash { session },
            Call::ChannelNew { session } => CallView::ChannelNew { session },
            Call::ChannelClose { channel } => CallView::ChannelClose { channel },
            Call::ChannelFree { channel } => CallView::ChannelFree { channel },
            Call::ChannelOpenSession { channel } => CallView::ChannelOpenSession { channel },
            Call::ChannelRequestExec { channel, command } => CallView::ChannelRequestExec {
                channel,
                command: command@,
            },
            Call::ChannelRead { channel, len, is_stderr } => CallView::ChannelRead {
                channel,
                len,
                is_stderr,
            },
            Call::ChannelSendEof { channel } => CallView::ChannelSendEof { channel },
            Call::ChannelGetExitStatus { channel } => CallView::ChannelGetExitStatus { channel },
            Call::ScpNew { session, mode, location } => CallView::ScpNew {
                session,
                mode,
                location: location@,
            },
            Call::ScpInit { scp } => CallView::ScpInit { scp },
            Call::ScpFree { scp } => CallView::ScpFree { scp },
            Call::ScpClose { scp } => CallView::ScpClose { scp },
            Call::ScpPullRequest { scp } => CallView::ScpPullRequest { scp },
            Call::ScpAcceptRequest { scp } => CallView::ScpAcceptRequest { scp },
            Call::ScpDenyRequest { scp } => CallView::ScpDenyRequest { scp },
            Call::ScpRead { scp, len } => CallView::ScpRead { scp, len },
            Call::ScpPushFile64 { scp, name, size, mode } => CallView::ScpPushFile64 {
                scp,
                name: name@,
                size,
                mode,
            },
            Call::ScpPushDirectory { scp, name, mode } => CallView::ScpPushDirectory {
                scp,
                name: name@,
                mode,
            },
            Call::ScpWrite { scp, bytes } => CallView::ScpWrite { scp, bytes: bytes@ },
            Call::ScpRequestGetSize64 { scp } => CallView::ScpRequestGetSize64 { scp },
            Call::ScpRequestGetPermissions { scp } => CallView::ScpRequestGetPermissions { scp },
            Call::ScpRequestGetFilename { scp } => CallView::ScpRequestGetFilename { scp },
            Call::ScpRequestGetWarning { scp } => CallView::ScpRequestGetWarning { scp },
            Call::ScpLeaveDirectory { scp } => CallView::ScpLeaveDirectory { scp },
        }
    }
}

/// The value of a call that may be none.
pub open spec fn call_view(call: Option<Call>) -> Option<CallView> {
    match call {
        Some(c) => Some(c@),
        None => None,
    }
}

/// The call `call`, which sends `text` as a C string: none where the text
/// cannot travel as one.
pub open spec fn for_text(text: Seq<u8>, call: CallView) -> Option<CallView> {
    if c_string(text) {
        Some(call)
    } else {
        None
    }
}

/// What comes next in an operation that may do without the engine: the call
/// to make, or the result that stands already.
#[derive(Debug)]
pub enum Step<'a, T> {
    /// Make this call and hand its answer to the operation.
    Call(Call<'a>),
    /// The operation is over with this value, and the engine is not asked.
    Done(T),
}

} // verus!
