#![allow(non_snake_case)]

use io_providers::filesystem::{FileType, OpenMode};
use io_providers::OpenOptions;

#[test]
fn open_mode_read_maps_to_plain_read() {
    let o = OpenMode::Read.to_open_options();
    assert!(o.is_read());
    assert!(!o.is_write());
    assert!(!o.is_append());
    assert!(!o.is_truncate());
    assert!(!o.is_create());
    assert!(!o.is_create_new());
}

#[test]
fn open_mode_write_truncates_and_creates() {
    let o = OpenMode::Write.to_open_options();
    assert!(!o.is_read());
    assert!(o.is_write());
    assert!(!o.is_append());
    assert!(o.is_truncate());
    assert!(o.is_create());
    assert!(!o.is_create_new());
}

#[test]
fn open_mode_append_appends_and_creates() {
    let o = OpenMode::Append.to_open_options();
    assert!(!o.is_read());
    assert!(o.is_write());
    assert!(o.is_append());
    assert!(!o.is_truncate());
    assert!(o.is_create());
    assert!(!o.is_create_new());
}

#[test]
fn open_mode_read_write_creates_without_truncating() {
    let o = OpenMode::ReadWrite.to_open_options();
    assert!(o.is_read());
    assert!(o.is_write());
    assert!(!o.is_append());
    assert!(!o.is_truncate());
    assert!(o.is_create());
    assert!(!o.is_create_new());
}

#[test]
fn open_options_start_blank_and_chain() {
    let mut o = OpenOptions::new();
    assert!(!o.is_read() && !o.is_write() && !o.is_append());
    assert!(!o.is_truncate() && !o.is_create() && !o.is_create_new());

    o.read(true).write(true).create_new(true);
    assert!(o.is_read());
    assert!(o.is_write());
    assert!(o.is_create_new());
    assert!(!o.is_append() && !o.is_truncate() && !o.is_create());
}

#[test]
fn file_type_reports_its_flags() {
    let dir = FileType::new(true, false, false);
    assert!(dir.is_dir() && !dir.is_file() && !dir.is_symlink());

    let link = FileType::new(false, false, true);
    assert!(!link.is_dir() && !link.is_file() && link.is_symlink());
}
