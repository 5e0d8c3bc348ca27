#![allow(non_snake_case)]

use io_providers::utils::ReplayReader;
use io_providers::{ErrorKind, IoError};

#[test]
fn read__empty_input__returns_length_zero_read() {
    let mut buf: Vec<u8> = vec![0; 8];
    let mut replayer = ReplayReader::new(vec![]);

    let result = replayer.read(&mut buf);
    assert_eq!(0, result.unwrap());
}

#[test]
fn read__single_read__next_read_returns_length_zero() {
    let mut buf = vec![0; 8];
    let mut replayer = ReplayReader::new(vec![Ok(vec![])]);

    replayer.read(&mut buf).unwrap();
    let result = replayer.read(&mut buf);

    assert_eq!(0, result.unwrap());
}

#[test]
fn read__error_input__returns_error() {
    let mut buf: Vec<u8> = vec![0; 8];
    let kind = ErrorKind::Other;
    let mut replayer = ReplayReader::new(vec![Err(IoError::new(kind))]);

    let result = replayer.read(&mut buf);

    assert_eq!(kind, result.unwrap_err().kind());
}

#[test]
fn read__exact_length_read__success() {
    let mut buf = vec![0; 5];
    let input = vec![1, 2, 3, 4, 5];
    let mut replayer = ReplayReader::new(vec![Ok(input.clone())]);

    let result = replayer.read(&mut buf);

    assert_eq!(5, result.unwrap());
    assert_eq!(input, buf);
}

#[test]
fn read__shorter_read__success() {
    let mut buf = vec![0; 3];
    let input = vec![1, 2, 3, 4, 5];
    let mut replayer = ReplayReader::new(vec![Ok(input.clone())]);

    let result = replayer.read(&mut buf);

    assert_eq!(3, result.unwrap());
    assert_eq!(&input[0..3], &buf[..]);
}

#[test]
fn read__longer_read__success() {
    let mut buf = vec![0; 8];
    let input = vec![1, 2, 3, 4, 5];
    let mut replayer = ReplayReader::new(vec![Ok(input)]);

    let result = replayer.read(&mut buf);
    assert_eq!(5, result.unwrap());
    assert_eq!(vec![1, 2, 3, 4, 5, 0, 0, 0], buf);
}

#[test]
fn error_kind_is_preserved() {
    for kind in [ErrorKind::NotFound, ErrorKind::PermissionDenied, ErrorKind::Other] {
        assert_eq!(kind, IoError::new(kind).kind());
    }
}

#[test]
fn read__two_reads__success() {
    let mut buf = vec![0; 5];
    let input = vec![1, 2, 3, 4, 5];
    let kind = ErrorKind::Other;
    let mut replayer = ReplayReader::new(vec![Ok(input.clone()), Err(IoError::new(kind))]);

    let result1 = replayer.read(&mut buf);
    let result2 = replayer.read(&mut buf);

    assert_eq!(5, result1.unwrap());
    assert_eq!(input, buf);
    assert_eq!(kind, result2.unwrap_err().kind());
}
