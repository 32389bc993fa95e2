use ssh::{Call, Error, IoError, Mode, Request, Scp, Session, Step};

type ReadStep = Step<'static, Result<usize, IoError>>;

fn session(handle: usize) -> Session {
    Session::new(handle).unwrap()
}

fn scp<'b>(session: &'b mut Session, handle: usize) -> Scp<'b> {
    session.scp_new(handle, "").unwrap()
}

fn read_len(step: ReadStep) -> usize {
    match step {
        Step::Call(Call::ScpRead { len, .. }) => len,
        other => panic!("not a read: {:?}", other),
    }
}

#[test]
fn init_close_and_free() {
    let mut s = session(1);
    let mut t = scp(&mut s, 5);
    assert!(matches!(t.init_call(), Call::ScpInit { scp: 5 }));
    assert_eq!(t.init(0, ""), Ok(()));
    assert_eq!(
        t.init(-1, "Can't init twice"),
        Err(Error::Ssh("Can't init twice".to_string()))
    );
    assert!(matches!(t.close(), Call::ScpClose { scp: 5 }));
    assert_eq!(t.handle(), 5);
    assert_eq!(t.session().handle(), 1);
    assert!(matches!(t.free(), Call::ScpFree { scp: 5 }));
    assert!(matches!(s.free(), Call::Free { session: 1 }));
}

#[test]
fn pull_request_kinds() {
    let mut s = session(1);
    let mut t = scp(&mut s, 5);
    assert!(matches!(t.pull_request_call(), Call::ScpPullRequest { scp: 5 }));
    assert_eq!(t.pull_request(1, ""), Ok(Request::NEWDIR));
    assert_eq!(t.pull_request(2, ""), Ok(Request::NEWFILE));
    assert_eq!(t.pull_request(3, ""), Ok(Request::EOF));
    assert_eq!(t.pull_request(4, ""), Ok(Request::ENDDIR));
    assert_eq!(t.pull_request(5, ""), Ok(Request::WARNING));
}

#[test]
fn pull_request_outside_one_to_five_is_an_error() {
    let mut s = session(1);
    let mut t = scp(&mut s, 5);
    for code in [0, -1, 6, 7, 255, i32::MIN, i32::MAX] {
        assert_eq!(
            t.pull_request(code, "Unhandled message"),
            Err(Error::Ssh("Unhandled message".to_string()))
        );
    }
}

#[test]
fn request_codes_in_order() {
    let all = [
        Request::NEWDIR,
        Request::NEWFILE,
        Request::EOF,
        Request::ENDDIR,
        Request::WARNING,
    ];
    for (i, request) in all.iter().enumerate() {
        assert_eq!(Request::from_code(i as i32 + 1), Some(*request));
    }
    assert_eq!(Request::from_code(0), None);
    assert_eq!(Request::from_code(6), None);
    assert_eq!(Request::from_code(-1), None);
}

#[test]
fn accept_and_deny_report_the_refusal_of_the_engine() {
    let mut s = session(1);
    let mut t = scp(&mut s, 5);
    assert!(matches!(t.accept_request_call(), Call::ScpAcceptRequest { scp: 5 }));
    assert!(matches!(t.deny_request_call(), Call::ScpDenyRequest { scp: 5 }));
    // a pending request, answered once
    assert_eq!(t.pull_request(2, ""), Ok(Request::NEWFILE));
    assert_eq!(t.accept_request(0, ""), Ok(()));
    // answered again: the engine says no, and so does the result
    let refused = Err(Error::Ssh("No request to answer".to_string()));
    assert_eq!(t.accept_request(-1, "No request to answer"), refused);
    assert_eq!(t.deny_request(-1, "No request to answer"), refused);
    assert_eq!(t.deny_request(0, ""), Ok(()));
}

#[test]
fn push_file_announces_size_and_permissions() {
    let mut s = session(1);
    let t = scp(&mut s, 5);
    match t.push_file_call("blublu", 14, 0o644).unwrap() {
        Call::ScpPushFile64 { scp: 5, name, size, mode } => {
            assert_eq!(name, b"blublu");
            assert_eq!(size, 14);
            assert_eq!(mode, 0o644);
        }
        other => panic!("{:?}", other),
    }
    match t.push_file_call("test file", 0, 0).unwrap() {
        Call::ScpPushFile64 { name, size: 0, mode: 0, .. } => assert_eq!(name, b"test file"),
        other => panic!("{:?}", other),
    }
    match t.push_file_call("big", usize::MAX, 0o7777).unwrap() {
        Call::ScpPushFile64 { size, mode, .. } => {
            assert_eq!(size, usize::MAX as u64);
            assert_eq!(mode, 0o7777);
        }
        other => panic!("{:?}", other),
    }
    assert!(t.push_file_call("blu\0blu", 14, 0o644).is_none());
}

#[test]
fn permission_bits_keep_their_low_32_bits() {
    let mut s = session(1);
    let t = scp(&mut s, 5);
    match t.push_file_call("f", 1, 0x7fff_ffff).unwrap() {
        Call::ScpPushFile64 { mode, .. } => assert_eq!(mode, i32::MAX),
        other => panic!("{:?}", other),
    }
    match t.push_file_call("f", 1, 0x8000_0000).unwrap() {
        Call::ScpPushFile64 { mode, .. } => assert_eq!(mode, i32::MIN),
        other => panic!("{:?}", other),
    }
    match t.push_directory_call("d", 0xffff_ffff).unwrap() {
        Call::ScpPushDirectory { mode, .. } => assert_eq!(mode, -1),
        other => panic!("{:?}", other),
    }
}

#[test]
fn push_and_leave_directory() {
    let mut s = session(1);
    let mut t = scp(&mut s, 5);
    match t.push_directory_call("testdir", 0o755).unwrap() {
        Call::ScpPushDirectory { scp: 5, name, mode } => {
            assert_eq!(name, b"testdir");
            assert_eq!(mode, 0o755);
        }
        other => panic!("{:?}", other),
    }
    assert!(t.push_directory_call("test\0dir", 0o755).is_none());
    assert_eq!(t.push_directory(0, ""), Ok(()));
    assert_eq!(t.push_file(0, ""), Ok(()));
    assert!(matches!(t.leave_directory_call(), Call::ScpLeaveDirectory { scp: 5 }));
    assert_eq!(t.leave_directory(0, ""), Ok(()));
    assert_eq!(
        t.leave_directory(-1, "Not in a directory"),
        Err(Error::Ssh("Not in a directory".to_string()))
    );
    assert_eq!(
        t.push_directory(1, "not recursive"),
        Err(Error::Ssh("not recursive".to_string()))
    );
    assert_eq!(
        t.push_file(1, "wrong state"),
        Err(Error::Ssh("wrong state".to_string()))
    );
}

#[test]
fn request_metadata() {
    let mut s = session(1);
    let mut t = scp(&mut s, 5);
    assert!(matches!(t.request_get_size_call(), Call::ScpRequestGetSize64 { scp: 5 }));
    assert!(matches!(
        t.request_get_permissions_call(),
        Call::ScpRequestGetPermissions { scp: 5 }
    ));
    assert!(matches!(t.request_get_filename_call(), Call::ScpRequestGetFilename { scp: 5 }));
    assert!(matches!(t.request_get_warning_call(), Call::ScpRequestGetWarning { scp: 5 }));
    assert_eq!(t.request_get_size(14), 14);
    assert_eq!(t.request_get_size(0), 0);
    assert_eq!(t.request_get_size(u64::MAX), u64::MAX as usize);
    assert_eq!(t.request_get_permissions(0o644, ""), Ok(0o644));
    assert_eq!(t.request_get_permissions(0, ""), Ok(0));
    assert_eq!(
        t.request_get_permissions(-1, "no request"),
        Err(Error::Ssh("no request".to_string()))
    );
    assert_eq!(t.request_get_filename(Some(&b"blublu"[..]), ""), Ok(&b"blublu"[..]));
    assert_eq!(
        t.request_get_filename(None, "no request"),
        Err(Error::Ssh("no request".to_string()))
    );
    assert_eq!(t.request_get_warning(Some(&b"careful"[..]), ""), Ok(&b"careful"[..]));
    assert_eq!(
        t.request_get_warning(None, "no warning"),
        Err(Error::Ssh("no warning".to_string()))
    );
}

#[test]
fn a_fresh_transfer_reads_nothing() {
    let mut s = session(1);
    let t = scp(&mut s, 5);
    assert_eq!(t.remaining(), 0);
    assert!(matches!(t.read_call(4096), Step::Done(Ok(0))));
    assert!(matches!(t.read_call(0), Step::Done(Ok(0))));
}

#[test]
fn a_file_of_no_bytes_is_over_at_once() {
    let mut s = session(1);
    let mut t = scp(&mut s, 5);
    let r = t.reader(0);
    assert_eq!(r.remaining(), 0);
    assert!(matches!(r.read_call(4096), Step::Done(Ok(0))));
    assert!(matches!(r.read_call(4096), Step::Done(Ok(0))));
}

#[test]
fn reads_stop_at_the_declared_size() {
    for size in [1usize, 2, 13, 14, 4096, 100_000] {
        for chunk in [1usize, 3, 14, 4096] {
            let mut s = session(1);
            let mut t = scp(&mut s, 5);
            let r = t.reader(size as u64);
            let mut read = 0;
            loop {
                match r.read_call(chunk) {
                    Step::Done(r) => {
                        assert_eq!(r, Ok(0));
                        break;
                    }
                    Step::Call(Call::ScpRead { scp: 5, len }) => {
                        assert_eq!(len, chunk.min(size - read));
                        assert_eq!(r.read(len as i32, ""), Ok(len));
                        read += len;
                    }
                    other => panic!("{:?}", other),
                }
            }
            assert_eq!(read, size);
            assert_eq!(r.remaining(), 0);
            assert!(matches!(r.read_call(chunk), Step::Done(Ok(0))));
        }
    }
}

#[test]
fn a_read_never_asks_for_more_than_is_left() {
    let mut s = session(1);
    let mut t = scp(&mut s, 5);
    let r = t.reader(14);
    assert_eq!(read_len(r.read_call(4096)), 14);
    assert_eq!(read_len(r.read_call(10)), 10);
    assert_eq!(read_len(r.read_call(14)), 14);
    assert_eq!(read_len(r.read_call(0)), 0);
    assert_eq!(r.read(10, ""), Ok(10));
    assert_eq!(r.remaining(), 4);
    assert_eq!(read_len(r.read_call(10)), 4);
    assert_eq!(read_len(r.read_call(3)), 3);
}

#[test]
fn short_and_empty_reads_take_what_they_bring() {
    let mut s = session(1);
    let mut t = scp(&mut s, 5);
    let r = t.reader(14);
    assert_eq!(r.read(0, ""), Ok(0));
    assert_eq!(r.remaining(), 14);
    assert_eq!(r.read(1, ""), Ok(1));
    assert_eq!(r.remaining(), 13);
    assert_eq!(r.read(13, ""), Ok(13));
    assert_eq!(r.remaining(), 0);
}

#[test]
fn a_failed_read_takes_nothing() {
    let mut s = session(1);
    let mut t = scp(&mut s, 5);
    let r = t.reader(14);
    assert_eq!(r.read(-1, "Connection lost"), Err(IoError::Other("Connection lost".to_string())));
    assert_eq!(r.remaining(), 14);
    assert_eq!(
        Error::from(r.read(-1, "Connection lost").unwrap_err()),
        Error::IO(IoError::Other("Connection lost".to_string()))
    );
}

#[test]
fn more_than_was_left_leaves_nothing() {
    let mut s = session(1);
    let mut t = scp(&mut s, 5);
    let r = t.reader(14);
    assert_eq!(r.read(20, ""), Ok(20));
    assert_eq!(r.remaining(), 0);
    assert!(matches!(r.read_call(8), Step::Done(Ok(0))));
}

#[test]
fn reader_starts_the_count_afresh() {
    let mut s = session(1);
    let mut t = scp(&mut s, 5);
    assert_eq!(t.reader(14).read(14, ""), Ok(14));
    assert_eq!(t.remaining(), 0);
    assert_eq!(t.reader(7).remaining(), 7);
    assert_eq!(t.handle(), 5);
    assert_eq!(t.session().handle(), 1);
}

#[test]
fn write_passes_the_bytes_on() {
    let mut s = session(1);
    let mut t = scp(&mut s, 5);
    let buf = b"blabla blibli\n".to_vec();
    match t.write_call(&buf) {
        Call::ScpWrite { scp: 5, bytes } => assert_eq!(bytes, &buf[..]),
        other => panic!("{:?}", other),
    }
    match t.write_call(b"a\0b") {
        Call::ScpWrite { bytes, .. } => assert_eq!(bytes, b"a\0b"),
        other => panic!("{:?}", other),
    }
    assert_eq!(t.write(14, ""), Ok(14));
    assert_eq!(t.write(0, ""), Ok(0));
    assert_eq!(
        t.write(-1, "Trying to write too much"),
        Err(IoError::Other("Trying to write too much".to_string()))
    );
    assert_eq!(t.flush(), Ok(()));
}

// A remote side that keeps one pushed file and serves it again.
struct Remote {
    name: Vec<u8>,
    size: u64,
    mode: i32,
    content: Vec<u8>,
}

fn push(remote: &mut Remote, name: &str, mode: usize, content: &[u8]) {
    let mut s = session(1);
    let mut t = s.scp_new(5, "").unwrap();
    assert_eq!(t.init(0, ""), Ok(()));
    match t.push_file_call(name, content.len(), mode).unwrap() {
        Call::ScpPushFile64 { name, size, mode, .. } => {
            remote.name = name.to_vec();
            remote.size = size;
            remote.mode = mode;
        }
        other => panic!("{:?}", other),
    }
    assert_eq!(t.push_file(0, ""), Ok(()));
    match t.write_call(content) {
        Call::ScpWrite { bytes, .. } => remote.content.extend_from_slice(bytes),
        other => panic!("{:?}", other),
    }
    assert_eq!(t.write(content.len() as i32, ""), Ok(content.len()));
}

fn pull(remote: &Remote, chunk: usize) -> (Vec<u8>, usize, usize, Vec<u8>) {
    let mut s = session(2);
    let mut t = s.scp_new(6, "").unwrap();
    assert_eq!(t.init(0, ""), Ok(()));
    assert_eq!(t.pull_request(2, ""), Ok(Request::NEWFILE));
    let size = t.request_get_size(remote.size);
    let permissions = t.request_get_permissions(remote.mode, "").unwrap();
    let name = t.request_get_filename(Some(&remote.name), "").unwrap().to_vec();
    assert_eq!(t.accept_request(0, ""), Ok(()));
    let reader = t.reader(remote.size);
    let mut content = Vec::new();
    loop {
        match reader.read_call(chunk) {
            Step::Done(r) => {
                assert_eq!(r, Ok(0));
                break;
            }
            Step::Call(Call::ScpRead { len, .. }) => {
                let at = content.len();
                let served = &remote.content[at..at + len];
                content.extend_from_slice(served);
                assert_eq!(reader.read(served.len() as i32, ""), Ok(served.len()));
            }
            other => panic!("{:?}", other),
        }
    }
    assert_eq!(t.pull_request(3, ""), Ok(Request::EOF));
    (name, size, permissions, content)
}

#[test]
fn blublu_comes_back_as_it_went() {
    let mut remote = Remote { name: Vec::new(), size: 0, mode: 0, content: Vec::new() };
    push(&mut remote, "blublu", 0o644, b"blabla blibli\n");
    let (name, size, permissions, content) = pull(&remote, 4096);
    assert_eq!(name, b"blublu");
    assert_eq!(size, 14);
    assert_eq!(permissions, 0o644);
    assert_eq!(content, b"blabla blibli\n");
}

#[test]
fn what_is_pushed_is_what_is_pulled() {
    let contents: [&[u8]; 4] = [b"", b"x", b"blabla\n", &[0u8, 255, 10, 13, 0, 7]];
    for content in contents {
        for mode in [0usize, 0o600, 0o644, 0o755, 0o7777] {
            for chunk in [1usize, 2, 5, 64] {
                let mut remote =
                    Remote { name: Vec::new(), size: 0, mode: 0, content: Vec::new() };
                push(&mut remote, "test file", mode, content);
                let (name, size, permissions, pulled) = pull(&remote, chunk);
                assert_eq!(name, b"test file");
                assert_eq!(size, content.len());
                assert_eq!(permissions, mode);
                assert_eq!(pulled, content);
            }
        }
    }
}

#[test]
fn transfer_modes() {
    let s = session(1);
    let write = s.scp_new_call(Mode::write(), "/tmp").unwrap();
    let read = s.scp_new_call(Mode::read(), "/tmp").unwrap();
    assert!(matches!(write, Call::ScpNew { mode: 0, .. }));
    assert!(matches!(read, Call::ScpNew { mode: 1, .. }));
}
