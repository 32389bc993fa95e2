//! File transfer over a connected session, in either direction.
//!
//! A push announces each file with its size and permissions and then
//! delivers exactly that many bytes; a directory is entered and, later,
//! left again. A pull is a dialogue: a request is pulled, then accepted or
//! denied, and an accepted file is read to its announced end. What is in
//! turn at each point is for the engine to know: it refuses what is not, and
//! every refusal comes back as the error of the operation that met it. What
//! this layer adds on the reading side is the count of the bytes that are
//! still to come, so that no read goes past the end of a file into what
//! follows it.

use crate::call::{c_text, call_view, for_text, Call, CallView, Step};
use crate::error::{err, io_outcome, outcome, Error, ErrorView, IoError};
use crate::request::Request;
use crate::session::Session;
use crate::status::{count, count_model, moved, moved_model, status, status_model};
use vstd::prelude::*;
use vstd::string::StringSliceAdditionalSpecFns;

verus! {

/// A file transfer over a session.
///
/// The value stands for the engine's transfer of the same handle, which is
/// never null, and borrows the session that the transfer was made on: the
/// session outlives it and stays untouched while it lives.
///
/// A session that is touched while a transfer on it is in use does not
/// compile:
///
/// ```compile_fail
/// let mut session = ssh::Session::new(1).unwrap();
/// let scp = session.scp_new(2, "").unwrap();
/// session.disconnect(0, "");
/// scp.handle();
/// ```
#[derive(Debug)]
pub struct Scp<'b> {
    session: &'b Session,
    scp: usize,
    size: usize,
}

/// What `pull_request` returns for the engine's answer.
pub open spec fn pull_request_model(code: i32, error: Seq<char>) -> Result<Request, ErrorView> {
    match Request::of_code(code) {
        Some(request) => Ok(request),
        None => Err(ErrorView::Ssh(error)),
    }
}

/// The size of a file as it is announced to the engine.
pub open spec fn announced_size(size: usize) -> u64 {
    size as u64
}

/// Permission bits as they are announced to the engine: the low 32 bits,
/// read as a signed integer.
pub open spec fn announced_mode(mode: usize) -> i32 {
    mode as i32
}

/// The size of a requested file as the caller gets it: the low bits of what
/// the engine holds, as many as the machine's sizes have.
pub open spec fn requested_size(size: u64) -> usize {
    size as usize
}

/// How many bytes a read asks for: what the buffer takes, but never more
/// than is left of the file.
pub open spec fn read_len(len: usize, remaining: usize) -> usize {
    if len <= remaining {
        len
    } else {
        remaining
    }
}

/// What is left of the file after a read that the engine answered with
/// `count`. A failed read takes nothing. Should the engine hand out more than
/// was left, nothing is left.
pub open spec fn remaining_after(remaining: usize, count: i32) -> usize {
    if count <= 0 {
        remaining
    } else if count >= remaining {
        0
    } else {
        (remaining - count) as usize
    }
}

/// What is left of the file after reads that the engine answered with
/// `counts`, in this order.
pub open spec fn remaining_after_all(remaining: usize, counts: Seq<i32>) -> usize
    decreases counts.len(),
{
    if counts.len() == 0 {
        remaining
    } else {
        remaining_after_all(remaining_after(remaining, counts[0]), counts.drop_first())
    }
}

/// The number of bytes that reads brought which the engine answered with
/// `counts`.
pub open spec fn bytes_read(counts: Seq<i32>) -> int
    decreases counts.len(),
{
    if counts.len() == 0 {
        0
    } else {
        (if counts[0] > 0 {
            counts[0] as int
        } else {
            0
        }) + bytes_read(counts.drop_first())
    }
}

impl<'b> Scp<'b> {
    #[verifier::type_invariant]
    spec fn non_null(&self) -> bool {
        self.scp != 0
    }

    /// The engine's handle of the transfer.
    pub closed spec fn handle_spec(&self) -> usize {
        self.scp
    }

    /// The session that the transfer was made on.
    pub closed spec fn session_spec(&self) -> &'b Session {
        self.session
    }

    /// How many bytes of the file that is being read are still to come.
    pub closed spec fn remaining_spec(&self) -> usize {
        self.size
    }

    /// Whether this is the transfer `before` with `remaining` bytes to come:
    /// the same handle on the same session.
    pub open spec fn is_with_remaining(&self, before: &Scp<'b>, remaining: usize) -> bool {
        &&& self.handle() == before.handle()
        &&& self.session() == before.session()
        &&& self.remaining() == remaining
    }

    /// The transfer of this handle on this session, with no file being read.
    pub(crate) fn attach(session: &'b Session, handle: usize) -> (s: Scp<'b>)
        requires
            handle != 0,
        ensures
            s.handle() == handle,
            s.session() == session,
            s.remaining() == 0,
    {
        Scp { session, scp: handle, size: 0 }
    }

    /// The engine's handle of the transfer. It is not null.
    #[verifier::when_used_as_spec(handle_spec)]
    pub fn handle(&self) -> (h: usize)
        ensures
            h == self.handle_spec(),
            h != 0,
    {
        proof {
            use_type_invariant(self);
        }
        self.scp
    }

    /// The session that the transfer was made on.
    #[verifier::when_used_as_spec(session_spec)]
    pub fn session(&self) -> (s: &'b Session)
        ensures
            s == self.session_spec(),
    {
        self.session
    }

    /// How many bytes of the file that is being read are still to come.
    #[verifier::when_used_as_spec(remaining_spec)]
    pub fn remaining(&self) -> (n: usize)
        ensures
            n == self.remaining_spec(),
    {
        self.size
    }

    /// The next step of a read of the file that was just accepted, into a
    /// buffer of `len` bytes. While something is left of the file it is the
    /// call that reads: up to `len` bytes, and never more than are left. Once
    /// nothing is left the read is over at once, with no bytes and no error,
    /// and the engine is not asked, so that what follows the file on the wire
    /// stays where it is.
    pub fn read_call(&self, len: usize) -> (s: Step<'static, Result<usize, IoError>>)
        ensures
            (match s {
                Step::Done(r) => self.remaining() == 0 && r == Ok::<usize, IoError>(0),
                Step::Call(c) => self.remaining() > 0 && c@ == (CallView::ScpRead {
                    scp: self.handle(),
                    len: read_len(len, self.remaining()),
                }),
            }),
    {
        if self.size == 0 {
            Step::Done(Ok(0))
        } else {
            let len: usize = if len <= self.size {
                len
            } else {
                self.size
            };
            Step::Call(Call::ScpRead { scp: self.scp, len })
        }
    }

    /// How many bytes the read brought. They are taken off what is left of
    /// the file. A negative answer is a failure of the stream, which wraps
    /// the engine's text, and takes nothing off.
    pub fn read(&mut self, count: i32, error: &str) -> (r: Result<usize, IoError>)
        ensures
            final(self).is_with_remaining(old(self), remaining_after(old(self).remaining(), count)),
            io_outcome(r) == moved_model(count, error@),
    {
        proof {
            use_type_invariant(&*self);
        }
        if count > 0 {
            let taken: usize = count as usize;
            if taken >= self.size {
                self.size = 0;
            } else {
                self.size = self.size - taken;
            }
        }
        moved(count, error)
    }

    /// The call that writes `buf`, as it is, into the file that was
    /// announced.
    pub fn write_call<'a>(&self, buf: &'a [u8]) -> (c: Call<'a>)
        ensures
            c@ == (CallView::ScpWrite { scp: self.handle(), bytes: buf@ }),
    {
        Call::ScpWrite { scp: self.scp, bytes: buf }
    }

    /// How many bytes the engine took. A negative answer is a failure of the
    /// stream, which wraps the engine's text.
    pub fn write(&mut self, count: i32, error: &str) -> (r: Result<usize, IoError>)
        ensures
            *final(self) == *old(self),
            io_outcome(r) == moved_model(count, error@),
    {
        moved(count, error)
    }

    /// Nothing to do, and no call: the engine keeps no bytes back.
    pub fn flush(&mut self) -> (r: Result<(), IoError>)
        ensures
            *final(self) == *old(self),
            r is Ok,
    {
        Ok(())
    }

    /// The call that announces a file of `size` bytes with permission bits
    /// `mode`; none where the name holds a zero byte. Exactly `size` bytes
    /// are to be written after it.
    pub fn push_file_call<'a>(&self, path: &'a str, size: usize, mode: usize) -> (c: Option<
        Call<'a>,
    >)
        ensures
            call_view(c) == for_text(
                path.spec_bytes(),
                CallView::ScpPushFile64 {
                    scp: self.handle(),
                    name: path.spec_bytes(),
                    size: announced_size(size),
                    mode: announced_mode(mode),
                },
            ),
    {
        match c_text(path) {
            Some(name) => Some(
                Call::ScpPushFile64 {
                    scp: self.scp,
                    name,
                    size: size as u64,
                    mode: #[verifier::truncate] (mode as i32),
                },
            ),
            None => None,
        }
    }

    /// Whether the remote side took the announcement.
    pub fn push_file(&mut self, code: i32, error: &str) -> (r: Result<(), Error>)
        ensures
            *final(self) == *old(self),
            outcome(r) == status_model(code, error@),
    {
        status(code, error)
    }

    /// The call that enters a new remote directory with permission bits
    /// `mode`; none where the name holds a zero byte. What is pushed next
    /// goes into the directory, until `leave_directory`.
    pub fn push_directory_call<'a>(&self, path: &'a str, mode: usize) -> (c: Option<Call<'a>>)
        ensures
            call_view(c) == for_text(
                path.spec_bytes(),
                CallView::ScpPushDirectory {
                    scp: self.handle(),
                    name: path.spec_bytes(),
                    mode: announced_mode(mode),
                },
            ),
    {
        match c_text(path) {
            Some(name) => Some(
                Call::ScpPushDirectory {
                    scp: self.scp,
                    name,
                    mode: #[verifier::truncate] (mode as i32),
                },
            ),
            None => None,
        }
    }

    /// Whether the remote side entered the directory.
    pub fn push_directory(&mut self, code: i32, error: &str) -> (r: Result<(), Error>)
        ensures
            *final(self) == *old(self),
            outcome(r) == status_model(code, error@),
    {
        status(code, error)
    }

    /// The call that waits for the next request of the remote side.
    pub fn pull_request_call(&self) -> (c: Call<'static>)
        ensures
            c@ == (CallView::ScpPullRequest { scp: self.handle() }),
    {
        Call::ScpPullRequest { scp: self.scp }
    }

    /// The request that came: the one that the engine's number names. A
    /// number that names none is a protocol error; the engine answers so,
    /// among others, when the request before is still unanswered.
    pub fn pull_request(&mut self, code: i32, error: &str) -> (r: Result<Request, Error>)
        ensures
            *final(self) == *old(self),
            outcome(r) == pull_request_model(code, error@),
    {
        match Request::from_code(code) {
            Some(request) => Ok(request),
            None => Err(err(error)),
        }
    }

    /// The call that starts the transfer. It is made once, before anything
    /// is pushed or pulled.
    pub fn init_call(&self) -> (c: Call<'static>)
        ensures
            c@ == (CallView::ScpInit { scp: self.handle() }),
    {
        Call::ScpInit { scp: self.scp }
    }

    /// Whether the transfer has started.
    pub fn init(&mut self, code: i32, error: &str) -> (r: Result<(), Error>)
        ensures
            *final(self) == *old(self),
            outcome(r) == status_model(code, error@),
    {
        status(code, error)
    }

    /// The call that ends the transfer. Closing is tidying up: what the
    /// engine answers is dropped, and nothing is reported.
    pub fn close(&mut self) -> (c: Call<'static>)
        ensures
            *final(self) == *old(self),
            c@ == (CallView::ScpClose { scp: old(self).handle() }),
    {
        Call::ScpClose { scp: self.scp }
    }

    /// The call that releases the transfer, whether or not it was closed
    /// before. It takes the value with it: a transfer is released once, and
    /// nothing is called on it afterwards.
    pub fn free(self) -> (c: Call<'static>)
        ensures
            c@ == (CallView::ScpFree { scp: self.handle() }),
    {
        Call::ScpFree { scp: self.scp }
    }

    /// The call that asks for the size of the file that is requested.
    pub fn request_get_size_call(&self) -> (c: Call<'static>)
        ensures
            c@ == (CallView::ScpRequestGetSize64 { scp: self.handle() }),
    {
        Call::ScpRequestGetSize64 { scp: self.scp }
    }

    /// The size of the file that is requested, in bytes.
    pub fn request_get_size(&mut self, size: u64) -> (n: usize)
        ensures
            *final(self) == *old(self),
            n == requested_size(size),
    {
        #[verifier::truncate]
        (size as usize)
    }

    /// The call that asks for the permission bits of what is requested.
    pub fn request_get_permissions_call(&self) -> (c: Call<'static>)
        ensures
            c@ == (CallView::ScpRequestGetPermissions { scp: self.handle() }),
    {
        Call::ScpRequestGetPermissions { scp: self.scp }
    }

    /// The permission bits of what is requested. A negative answer is a
    /// protocol error.
    pub fn request_get_permissions(&mut self, code: i32, error: &str) -> (r: Result<usize, Error>)
        ensures
            *final(self) == *old(self),
            outcome(r) == count_model(code, error@),
    {
        count(code, error)
    }

    /// The call that asks for the name of what is requested.
    pub fn request_get_filename_call(&self) -> (c: Call<'static>)
        ensures
            c@ == (CallView::ScpRequestGetFilename { scp: self.handle() }),
    {
        Call::ScpRequestGetFilename { scp: self.scp }
    }

    /// The name of what is requested, as the engine holds it. No name, a
    /// null pointer, is a protocol error.
    pub fn request_get_filename<'a>(&mut self, name: Option<&'a [u8]>, error: &str) -> (r: Result<
        &'a [u8],
        Error,
    >)
        ensures
            *final(self) == *old(self),
            (match r {
                Ok(bytes) => name == Some(bytes),
                Err(e) => name is None && e@ == ErrorView::Ssh(error@),
            }),
    {
        match name {
            Some(bytes) => Ok(bytes),
            None => Err(err(error)),
        }
    }

    /// The call that asks for the text of the warning. It has one only
    /// after a request that was a warning.
    pub fn request_get_warning_call(&self) -> (c: Call<'static>)
        ensures
            c@ == (CallView::ScpRequestGetWarning { scp: self.handle() }),
    {
        Call::ScpRequestGetWarning { scp: self.scp }
    }

    /// The text of the warning, as the engine holds it. No text, a null
    /// pointer, is a protocol error.
    pub fn request_get_warning<'a>(&mut self, warning: Option<&'a [u8]>, error: &str) -> (r:
        Result<&'a [u8], Error>)
        ensures
            *final(self) == *old(self),
            (match r {
                Ok(bytes) => warning == Some(bytes),
                Err(e) => warning is None && e@ == ErrorView::Ssh(error@),
            }),
    {
        match warning {
            Some(bytes) => Ok(bytes),
            None => Err(err(error)),
        }
    }

    /// The call that accepts the request that is pending.
    pub fn accept_request_call(&self) -> (c: Call<'static>)
        ensures
            c@ == (CallView::ScpAcceptRequest { scp: self.handle() }),
    {
        Call::ScpAcceptRequest { scp: self.scp }
    }

    /// Whether the request was accepted. The engine refuses where none is
    /// pending, or the pending one was answered already; its refusal is
    /// reported, never passed over.
    pub fn accept_request(&mut self, code: i32, error: &str) -> (r: Result<(), Error>)
        ensures
            *final(self) == *old(self),
            outcome(r) == status_model(code, error@),
    {
        status(code, error)
    }

    /// The call that denies the request that is pending.
    pub fn deny_request_call(&self) -> (c: Call<'static>)
        ensures
            c@ == (CallView::ScpDenyRequest { scp: self.handle() }),
    {
        Call::ScpDenyRequest { scp: self.scp }
    }

    /// Whether the request was denied. The engine refuses where none is
    /// pending, or the pending one was answered already; its refusal is
    /// reported, never passed over.
    pub fn deny_request(&mut self, code: i32, error: &str) -> (r: Result<(), Error>)
        ensures
            *final(self) == *old(self),
            outcome(r) == status_model(code, error@),
    {
        status(code, error)
    }

    /// The call that leaves the directory that the last open
    /// `push_directory` entered.
    pub fn leave_directory_call(&self) -> (c: Call<'static>)
        ensures
            c@ == (CallView::ScpLeaveDirectory { scp: self.handle() }),
    {
        Call::ScpLeaveDirectory { scp: self.scp }
    }

    /// Whether the directory was left.
    pub fn leave_directory(&mut self, code: i32, error: &str) -> (r: Result<(), Error>)
        ensures
            *final(self) == *old(self),
            outcome(r) == status_model(code, error@),
    {
        status(code, error)
    }

    /// The transfer as a reader of the file that was just accepted. `size`
    /// is what the engine gives as the size of the requested file, the
    /// answer to `request_get_size_call`: so many bytes are to come. Without
    /// this step every read is over at once, with no bytes.
    pub fn reader(&mut self, size: u64) -> (r: &mut Scp<'b>)
        ensures
            r.is_with_remaining(old(self), requested_size(size)),
            *final(self) == *final(r),
    {
        proof {
            use_type_invariant(&*self);
        }
        self.size = self.request_get_size(size);
        self
    }
}

/// Reads never bring a negative number of bytes.
pub proof fn lemma_bytes_read_not_negative(counts: Seq<i32>)
    ensures
        bytes_read(counts) >= 0,
    decreases counts.len(),
{
    if counts.len() > 0 {
        lemma_bytes_read_not_negative(counts.drop_first());
    }
}

/// After any reads, what is left of a file is its declared size less the
/// bytes that the reads brought, and nothing once they brought that many.
pub proof fn lemma_remaining_after_all(size: usize, counts: Seq<i32>)
    ensures
        remaining_after_all(size, counts) == (if bytes_read(counts) >= size {
            0
        } else {
            size - bytes_read(counts)
        }),
    decreases counts.len(),
{
    if counts.len() > 0 {
        lemma_bytes_read_not_negative(counts.drop_first());
        lemma_remaining_after_all(remaining_after(size, counts[0]), counts.drop_first());
    }
}

/// A file of any declared size, zero too, is at its end once the reads have
/// brought that many bytes: nothing is left, so the next read is over with
/// no bytes and no error, and no call is made for it.
pub proof fn lemma_read_to_the_end(size: usize, counts: Seq<i32>)
    requires
        bytes_read(counts) >= size,
    ensures
        remaining_after_all(size, counts) == 0,
{
    lemma_remaining_after_all(size, counts);
}

/// What a push announces, a pull gives back: where the remote side hands a
/// pulling engine the size and the permission bits that a push announced
/// for a file, `request_get_size` and `request_get_permissions` return the
/// size and the bits that were pushed. The bits have to fit a signed integer
/// of 32 bits: larger ones come back as a failure.
pub proof fn lemma_push_pull_round_trip(size: usize, mode: usize, error: Seq<char>)
    requires
        mode <= i32::MAX,
    ensures
        requested_size(announced_size(size)) == size,
        count_model(announced_mode(mode), error) == Ok::<usize, ErrorView>(mode),
{
}

} // verus!
