//! One stream of commands and data within a connected session.

use crate::call::{call_view, for_text, is_c_string, Call, CallView};
use crate::error::{io_outcome, outcome, Error, IoError, IoErrorView};
use crate::session::Session;
use crate::status::{status, status_model};
use vstd::prelude::*;

verus! {

/// The stream selector of a channel's standard output.
pub const STDOUT: i32 = 0;

/// The stream selector of a channel's standard error.
pub const STDERR: i32 = 1;

/// One stream within a session.
///
/// The value stands for the engine's channel of the same handle, which is
/// never null, and borrows the session that the channel was made on: the
/// session outlives it and stays untouched while it lives. A channel is made
/// empty, then opened, then asked to run a command; after that its output
/// can be read.
///
/// A channel that would outlive its session does not compile:
///
/// ```compile_fail
/// let channel;
/// {
///     let mut session = ssh::Session::new(1).unwrap();
///     channel = session.channel_new(2, "").unwrap();
/// }
/// channel.handle();
/// ```
#[derive(Debug)]
pub struct Channel<'b> {
    session: &'b Session,
    channel: usize,
}

/// One of the two output streams of a channel, for the time of some reads.
#[derive(Debug)]
pub struct ChannelReader<'d, 'c: 'd> {
    channel: &'d Channel<'c>,
    is_stderr: i32,
}

/// What `get_exit_status` returns for the engine's answer: a negative answer
/// means that the remote side has not reported a status yet.
pub open spec fn exit_status_model(code: i32) -> Option<i32> {
    if code < 0 {
        None
    } else {
        Some(code)
    }
}

/// What a read from a channel returns: the number of bytes that arrived, 0
/// at the end of the stream; for a negative answer the operating system's
/// error that was current when the engine returned.
pub open spec fn channel_read_model(count: i32, os_error: i32) -> Result<usize, IoErrorView> {
    if count >= 0 {
        Ok(count as usize)
    } else {
        Err(IoErrorView::Os(os_error))
    }
}

impl<'b> Channel<'b> {
    #[verifier::type_invariant]
    spec fn non_null(&self) -> bool {
        self.channel != 0
    }

    /// The engine's handle of the channel.
    pub closed spec fn handle_spec(&self) -> usize {
        self.channel
    }

    /// The session that the channel was made on.
    pub closed spec fn session_spec(&self) -> &'b Session {
        self.session
    }

    /// The channel of this handle on this session.
    pub(crate) fn attach(session: &'b Session, handle: usize) -> (c: Channel<'b>)
        requires
            handle != 0,
        ensures
            c.handle() == handle,
            c.session() == session,
    {
        Channel { session, channel: handle }
    }

    /// The engine's handle of the channel. It is not null.
    #[verifier::when_used_as_spec(handle_spec)]
    pub fn handle(&self) -> (h: usize)
        ensures
            h == self.handle_spec(),
            h != 0,
    {
        proof {
            use_type_invariant(self);
        }
        self.channel
    }

    /// The session that the channel was made on.
    #[verifier::when_used_as_spec(session_spec)]
    pub fn session(&self) -> (s: &'b Session)
        ensures
            s == self.session_spec(),
    {
        self.session
    }

    /// The call that opens the channel for a command. It comes before
    /// `request_exec`.
    pub fn open_session_call(&self) -> (c: Call<'static>)
        ensures
            c@ == (CallView::ChannelOpenSession { channel: self.handle() }),
    {
        Call::ChannelOpenSession { channel: self.channel }
    }

    /// Whether the channel is open now.
    pub fn open_session(&mut self, code: i32, error: &str) -> (r: Result<(), Error>)
        ensures
            *final(self) == *old(self),
            outcome(r) == status_model(code, error@),
    {
        status(code, error)
    }

    /// The call that asks the remote side to run `cmd`. The command travels
    /// as a C string: there is no call where it holds a zero byte.
    pub fn request_exec_call<'a>(&self, cmd: &'a [u8]) -> (c: Option<Call<'a>>)
        ensures
            call_view(c) == for_text(
                cmd@,
                CallView::ChannelRequestExec { channel: self.handle(), command: cmd@ },
            ),
    {
        if is_c_string(cmd) {
            Some(Call::ChannelRequestExec { channel: self.channel, command: cmd })
        } else {
            None
        }
    }

    /// Whether the remote side took the command. It refuses one on a channel
    /// that is not open.
    pub fn request_exec(&mut self, code: i32, error: &str) -> (r: Result<(), Error>)
        ensures
            *final(self) == *old(self),
            outcome(r) == status_model(code, error@),
    {
        status(code, error)
    }

    /// The call that tells the remote side that no more input will come.
    pub fn send_eof_call(&self) -> (c: Call<'static>)
        ensures
            c@ == (CallView::ChannelSendEof { channel: self.handle() }),
    {
        Call::ChannelSendEof { channel: self.channel }
    }

    /// Whether the end of input was sent. Where it does not apply the engine
    /// says so, and that is reported like any other failure.
    pub fn send_eof(&mut self, code: i32, error: &str) -> (r: Result<(), Error>)
        ensures
            *final(self) == *old(self),
            outcome(r) == status_model(code, error@),
    {
        status(code, error)
    }

    /// The call that asks for the exit status of the remote command.
    pub fn get_exit_status_call(&self) -> (c: Call<'static>)
        ensures
            c@ == (CallView::ChannelGetExitStatus { channel: self.handle() }),
    {
        Call::ChannelGetExitStatus { channel: self.channel }
    }

    /// The exit status of the remote command, or `None` while the remote
    /// side has not reported one. That is an answer, not a failure.
    pub fn get_exit_status(&self, code: i32) -> (status: Option<i32>)
        ensures
            status == exit_status_model(code),
    {
        if code < 0 {
            None
        } else {
            Some(code)
        }
    }

    /// The channel's standard output, to read from.
    pub fn stdout<'d>(&'d mut self) -> (r: ChannelReader<'d, 'b>)
        ensures
            *final(self) == *old(self),
            r.channel() == *old(self),
            r.is_stderr() == STDOUT,
    {
        ChannelReader { channel: self, is_stderr: STDOUT }
    }

    /// The channel's standard error, to read from.
    pub fn stderr<'d>(&'d mut self) -> (r: ChannelReader<'d, 'b>)
        ensures
            *final(self) == *old(self),
            r.channel() == *old(self),
            r.is_stderr() == STDERR,
    {
        ChannelReader { channel: self, is_stderr: STDERR }
    }

    /// The call that closes the channel. Closing is tidying up: what the
    /// engine answers is dropped, and nothing is reported.
    pub fn close(&mut self) -> (c: Call<'static>)
        ensures
            *final(self) == *old(self),
            c@ == (CallView::ChannelClose { channel: old(self).handle() }),
    {
        Call::ChannelClose { channel: self.channel }
    }

    /// The call that releases the channel, whether or not it was closed
    /// before. It takes the value with it: a channel is released once, and
    /// nothing is called on it afterwards.
    pub fn free(self) -> (c: Call<'static>)
        ensures
            c@ == (CallView::ChannelFree { channel: self.handle() }),
    {
        Call::ChannelFree { channel: self.channel }
    }
}

impl<'d, 'c: 'd> ChannelReader<'d, 'c> {
    /// The channel that is read from.
    pub closed spec fn channel_spec(&self) -> &'d Channel<'c> {
        self.channel
    }

    /// The stream selector: 0 for the standard output, 1 for the standard
    /// error.
    pub closed spec fn is_stderr_spec(&self) -> i32 {
        self.is_stderr
    }

    /// The channel that is read from.
    #[verifier::when_used_as_spec(channel_spec)]
    pub fn channel(&self) -> (c: &'d Channel<'c>)
        ensures
            c == self.channel_spec(),
    {
        self.channel
    }

    /// The stream selector: 0 for the standard output, 1 for the standard
    /// error.
    #[verifier::when_used_as_spec(is_stderr_spec)]
    pub fn is_stderr(&self) -> (s: i32)
        ensures
            s == self.is_stderr_spec(),
    {
        self.is_stderr
    }

    /// The call that reads up to `len` bytes of the stream into a buffer of
    /// that length.
    pub fn read_call(&self, len: usize) -> (c: Call<'static>)
        ensures
            c@ == (CallView::ChannelRead {
                channel: self.channel().handle(),
                len,
                is_stderr: self.is_stderr(),
            }),
    {
        Call::ChannelRead { channel: self.channel.handle(), len, is_stderr: self.is_stderr }
    }

    /// How many bytes the read brought: none at the end of the stream. A
    /// negative answer is a failure of the stream, reported as the operating
    /// system's error `os_error`, the one current when the engine returned.
    pub fn read(&mut self, count: i32, os_error: i32) -> (r: Result<usize, IoError>)
        ensures
            *final(self) == *old(self),
            io_outcome(r) == channel_read_model(count, os_error),
    {
        if count >= 0 {
            Ok(count as usize)
        } else {
            Err(IoError::Os(os_error))
        }
    }
}

} // verus!
