use ssh::{Call, Channel, Error, IoError, Session};

fn session(handle: usize) -> Session {
    Session::new(handle).unwrap()
}

fn channel<'b>(session: &'b mut Session, handle: usize) -> Channel<'b> {
    session.channel_new(handle, "").unwrap()
}

#[test]
fn a_command_from_open_to_free() {
    let mut s = session(1);
    let mut c = channel(&mut s, 2);
    assert!(matches!(c.open_session_call(), Call::ChannelOpenSession { channel: 2 }));
    assert_eq!(c.open_session(0, ""), Ok(()));
    match c.request_exec_call(b"ls -l").unwrap() {
        Call::ChannelRequestExec { channel: 2, command } => assert_eq!(command, b"ls -l"),
        other => panic!("{:?}", other),
    }
    assert_eq!(c.request_exec(0, ""), Ok(()));
    assert!(matches!(c.send_eof_call(), Call::ChannelSendEof { channel: 2 }));
    assert_eq!(c.send_eof(0, ""), Ok(()));
    assert!(matches!(c.get_exit_status_call(), Call::ChannelGetExitStatus { channel: 2 }));
    assert_eq!(c.get_exit_status(0), Some(0));
    assert!(matches!(c.close(), Call::ChannelClose { channel: 2 }));
    assert_eq!(c.handle(), 2);
    assert_eq!(c.session().handle(), 1);
    assert!(matches!(c.free(), Call::ChannelFree { channel: 2 }));
    assert!(matches!(s.free(), Call::Free { session: 1 }));
}

#[test]
fn a_command_with_a_zero_byte_makes_no_call() {
    let mut s = session(1);
    let c = channel(&mut s, 2);
    assert!(c.request_exec_call(b"ls\0-l").is_none());
    assert!(c.request_exec_call(b"\0").is_none());
    assert!(c.request_exec_call(b"").is_some());
}

#[test]
fn channel_failures_carry_the_engine_text() {
    let mut s = session(1);
    let mut c = channel(&mut s, 2);
    let refused = Err(Error::Ssh("Channel not open".to_string()));
    assert_eq!(c.open_session(-1, "Channel not open"), refused);
    assert_eq!(c.request_exec(-1, "Channel not open"), refused);
    assert_eq!(c.send_eof(-1, "Channel not open"), refused);
    assert_eq!(c.request_exec(1, "Channel not open"), refused);
}

#[test]
fn send_eof_twice_is_for_the_engine_to_refuse() {
    let mut s = session(1);
    let mut c = channel(&mut s, 2);
    assert_eq!(c.send_eof(0, ""), Ok(()));
    assert_eq!(
        c.send_eof(-1, "EOF already sent"),
        Err(Error::Ssh("EOF already sent".to_string()))
    );
}

#[test]
fn exit_status_may_not_be_there_yet() {
    let mut s = session(1);
    let c = channel(&mut s, 2);
    assert_eq!(c.get_exit_status(-1), None);
    assert_eq!(c.get_exit_status(i32::MIN), None);
    assert_eq!(c.get_exit_status(0), Some(0));
    assert_eq!(c.get_exit_status(1), Some(1));
    assert_eq!(c.get_exit_status(127), Some(127));
    assert_eq!(c.get_exit_status(i32::MAX), Some(i32::MAX));
}

#[test]
fn stdout_and_stderr_select_the_stream() {
    let mut s = session(1);
    let mut c = channel(&mut s, 2);
    {
        let out = c.stdout();
        assert_eq!(out.is_stderr(), 0);
        assert_eq!(out.channel().handle(), 2);
        assert!(matches!(
            out.read_call(4096),
            Call::ChannelRead { channel: 2, len: 4096, is_stderr: 0 }
        ));
    }
    {
        let err = c.stderr();
        assert_eq!(err.is_stderr(), 1);
        assert_eq!(err.channel().handle(), 2);
        assert!(matches!(
            err.read_call(16),
            Call::ChannelRead { channel: 2, len: 16, is_stderr: 1 }
        ));
        assert!(matches!(
            err.read_call(0),
            Call::ChannelRead { channel: 2, len: 0, is_stderr: 1 }
        ));
    }
    assert_eq!(c.handle(), 2);
}

#[test]
fn channel_reads_count_bytes() {
    let mut s = session(1);
    let mut c = channel(&mut s, 2);
    let mut out = c.stdout();
    assert_eq!(out.read(5, 0), Ok(5));
    assert_eq!(out.read(4096, 11), Ok(4096));
    assert_eq!(out.read(0, 0), Ok(0));
    assert_eq!(out.read(i32::MAX, 0), Ok(i32::MAX as usize));
}

#[test]
fn a_failed_channel_read_is_the_os_error() {
    let mut s = session(1);
    let mut c = channel(&mut s, 2);
    let mut out = c.stdout();
    assert_eq!(out.read(-1, 104), Err(IoError::Os(104)));
    assert_eq!(out.read(-2, 0), Err(IoError::Os(0)));
    assert_eq!(out.read(i32::MIN, 32), Err(IoError::Os(32)));
    assert_eq!(Error::from(out.read(-1, 104).unwrap_err()), Error::IO(IoError::Os(104)));
}

#[test]
fn the_session_is_free_again_after_the_channel() {
    let mut s = session(1);
    {
        let mut c = channel(&mut s, 2);
        assert_eq!(c.open_session(0, ""), Ok(()));
    }
    assert_eq!(s.disconnect(0, ""), Ok(()));
    let c = channel(&mut s, 3);
    assert_eq!(c.handle(), 3);
}
