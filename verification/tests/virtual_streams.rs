#![allow(non_snake_case)]

use std::io::Write;

use io_providers::stream::{ChunkPipe, Virtual};

#[test]
fn virtual_provider_chunk_pipe__no_writes__reads_successfully() {
    let mut buf: Vec<u8> = vec![0; 8];
    let mut pipe = ChunkPipe::new();
    pipe.write(&[]).unwrap();

    let result = pipe.read(&mut buf);
    assert_eq!(0, result.unwrap());
}

#[test]
fn virtual_provider_chunk_pipe__one_write__reads_successfully() {
    let data = vec![1, 2, 3];
    let mut buf1 = vec![0; 4];
    let mut buf2 = vec![0; 4];
    let mut pipe = ChunkPipe::new();

    pipe.write(&data[..]).unwrap();
    let result1 = pipe.read(&mut buf1).unwrap();
    let result2 = pipe.read(&mut buf2).unwrap();

    assert_eq!(data.len(), result1);
    assert_eq!(vec![1, 2, 3, 0], buf1);
    assert_eq!(0, result2);
}

#[test]
fn virtual_provider_chunk_pipe__two_writes__reads_successfully() {
    let data1 = vec![1, 2, 3];
    let data2 = vec![4, 5, 6, 7];
    let mut buf1 = vec![0; 4];
    let mut buf2 = vec![0; 3];
    let mut buf3 = vec![0; 3];
    let mut pipe = ChunkPipe::new();

    pipe.write(&data1[..]).unwrap();
    let result1 = pipe.read(&mut buf1).unwrap();
    pipe.write(&data2[..]).unwrap();
    let result2 = pipe.read(&mut buf2).unwrap();
    let result3 = pipe.read(&mut buf3).unwrap();

    assert_eq!(data1.len(), result1);
    assert_eq!(vec![1, 2, 3, 0], buf1);
    assert_eq!(buf2.len(), result2);
    assert_eq!(vec![4, 5, 6], buf2);
    assert_eq!(0, result3);
}

#[test]
fn virtual_provider_provider__empty_input__length_zero_read() {
    let mut provider = Virtual::new();
    let mut buf = vec![0; 4];

    let result = provider.input().read(&mut buf).unwrap();

    assert_eq!(0, result);
}

#[test]
fn virtual_provider_provider__write_and_read_input__success() {
    let mut provider = Virtual::new();
    let expected = "test";
    let mut buf = vec![0; 4];

    provider.write_input(expected.as_bytes());
    let mut actual: Vec<u8> = Vec::new();
    let mut result = 0;
    loop {
        let mut chunk = vec![0; 16];
        let n = provider.input().read(&mut chunk).unwrap();
        if n == 0 {
            break;
        }
        actual.extend_from_slice(&chunk[..n]);
        result += n;
    }

    assert_eq!(expected.len(), result);
    assert_eq!(expected, String::from_utf8(actual).unwrap());

    let result = provider.input().read(&mut buf).unwrap();
    assert_eq!(0, result);
}

#[test]
fn virtual_provider_provider__two_input_writes__two_reads() {
    let mut provider = Virtual::new();
    let (expected1, expected2) = (vec![1, 2, 3], vec![4, 5, 6]);
    let (mut actual1, mut actual2) = (vec![0; 3], vec![0; 3]);

    provider.write_input(&expected1[..]);
    provider.write_input(&expected2[..]);
    let result1 = provider.input().read(&mut actual1).unwrap();
    let result2 = provider.input().read(&mut actual2).unwrap();

    assert_eq!(expected1.len(), result1);
    assert_eq!(expected1, actual1);
    assert_eq!(expected2.len(), result2);
    assert_eq!(expected2, actual2);
}

#[test]
fn virtual_provider_provider__write_read_output__success() {
    let mut provider = Virtual::new();

    let result1 = provider.output().write(&[1, 2]).unwrap();
    let result2 = provider.output().write(&[3, 4]).unwrap();
    let actual = provider.read_output();

    assert_eq!(2, result1);
    assert_eq!(2, result2);
    assert_eq!(&[1, 2, 3, 4], actual);
}

#[test]
fn virtual_provider_provider__write_read_error__success() {
    let mut provider = Virtual::new();

    let result1 = provider.error().write(&[1, 2]).unwrap();
    let result2 = provider.error().write(&[3, 4]).unwrap();
    let actual = provider.read_error();

    assert_eq!(2, result1);
    assert_eq!(2, result2);
    assert_eq!(&[1, 2, 3, 4], actual);
}
