use ssh::status::{count, moved, status};
use ssh::{Error, IoError, SSH_OK};

#[test]
fn zero_is_success() {
    assert_eq!(SSH_OK, 0);
    assert_eq!(status(SSH_OK, "stale text"), Ok(()));
}

#[test]
fn every_other_code_fails_with_the_text() {
    for code in [-1, -2, 1, 2, i32::MIN, i32::MAX] {
        assert_eq!(status(code, "why"), Err(Error::Ssh("why".to_string())));
    }
    assert_eq!(status(-1, ""), Err(Error::Ssh(String::new())));
}

#[test]
fn counts_are_not_negative() {
    assert_eq!(count(0, "x"), Ok(0));
    assert_eq!(count(0o644, "x"), Ok(420));
    assert_eq!(count(i32::MAX, "x"), Ok(2147483647));
    assert_eq!(count(-1, "x"), Err(Error::Ssh("x".to_string())));
    assert_eq!(count(i32::MIN, "x"), Err(Error::Ssh("x".to_string())));
}

#[test]
fn moved_bytes_or_a_stream_error() {
    assert_eq!(moved(0, "x"), Ok(0));
    assert_eq!(moved(14, "x"), Ok(14));
    assert_eq!(moved(i32::MAX, "x"), Ok(2147483647));
    assert_eq!(moved(-1, "x"), Err(IoError::Other("x".to_string())));
    assert_eq!(moved(i32::MIN, "x"), Err(IoError::Other("x".to_string())));
}
