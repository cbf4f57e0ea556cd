use std::io::Read;

use ipkbuilder::append_file;
use ipkbuilder::archive::{compress, encode_archive, Archive, ArchiveEntry};
use ipkbuilder::error::{BuildError, EncodeFault, ErrorKind};
use ipkbuilder::header_from_buf;

fn unpack(bytes: &[u8]) -> Vec<u8> {
    let mut decoder = flate2::read::GzDecoder::new(bytes);
    let mut plain = Vec::new();
    decoder.read_to_end(&mut plain).unwrap();
    plain
}

fn members(tar_bytes: &[u8]) -> Vec<(String, u32, u64, Vec<u8>)> {
    let mut archive = tar::Archive::new(tar_bytes);
    let mut found = Vec::new();
    for entry in archive.entries().unwrap() {
        let mut entry = entry.unwrap();
        let name = entry.path().unwrap().to_str().unwrap().to_owned();
        let mode = entry.header().mode().unwrap();
        let size = entry.header().size().unwrap();
        assert_eq!(entry.header().uid().unwrap(), 0);
        assert_eq!(entry.header().gid().unwrap(), 0);
        let mut data = Vec::new();
        entry.read_to_end(&mut data).unwrap();
        found.push((name, mode, size, data));
    }
    found
}

fn entry(name: &str, mode: u32, data: &[u8]) -> ArchiveEntry {
    let mut header = header_from_buf(data);
    header.set_mode(mode);
    header.set_cksum();
    ArchiveEntry { name: name.to_owned(), header, data: data.to_vec() }
}

#[test]
fn empty_archive_is_the_end_marker() {
    let bytes = Archive::new().into_inner();
    assert_eq!(bytes, vec![0u8; 1024]);
}

#[test]
fn appended_member_can_be_read_back() {
    let mut archive = Archive::new();
    let header = header_from_buf(b"hello");
    archive.append_data(&header, "greeting", b"hello").unwrap();
    let bytes = archive.into_inner();
    assert_eq!(bytes.len(), 512 + 512 + 1024);
    assert_eq!(&bytes[bytes.len() - 1024..], &[0u8; 1024][..]);
    let found = members(&bytes);
    assert_eq!(found, vec![("greeting".to_owned(), 0o644, 5, b"hello".to_vec())]);
}

#[test]
fn members_keep_their_order() {
    let mut archive = Archive::new();
    archive.append_data(&header_from_buf(b"1"), "one", b"1").unwrap();
    archive.append_data(&header_from_buf(b"22"), "two", b"22").unwrap();
    archive.append_data(&header_from_buf(b""), "none", b"").unwrap();
    let found = members(&archive.into_inner());
    let names: Vec<&str> = found.iter().map(|m| m.0.as_str()).collect();
    assert_eq!(names, vec!["one", "two", "none"]);
    assert_eq!(found[1].3, b"22".to_vec());
    assert_eq!(found[2].2, 0);
}

#[test]
fn name_with_a_space_is_taken() {
    let mut archive = Archive::new();
    archive.append_data(&header_from_buf(b"x"), "a b", b"x").unwrap();
    let found = members(&archive.into_inner());
    assert_eq!(found, vec![("a b".to_owned(), 0o644, 1, b"x".to_vec())]);
}

#[test]
fn names_with_unusual_characters_are_taken() {
    for name in ["caf\u{e9}.txt", "two words/and more", "x@y+z=(1)", "tab\there", "#!$%&'*"] {
        let mut archive = Archive::new();
        archive.append_data(&header_from_buf(b"data"), name, b"data").unwrap();
        let found = members(&archive.into_inner());
        assert_eq!(found.len(), 1);
        assert_eq!(found[0].3, b"data".to_vec());
    }
}

#[test]
fn name_of_a_hundred_bytes_is_taken() {
    let name = "n".repeat(100);
    let mut archive = Archive::new();
    archive.append_data(&header_from_buf(b"x"), &name, b"x").unwrap();
    let bytes = archive.into_inner();
    assert_eq!(bytes.len(), 512 + 512 + 1024);
    assert_eq!(members(&bytes)[0].0, name);
}

#[test]
fn dots_that_are_no_component_are_taken() {
    for name in ["a..b", "...", ".hidden", "dir/.keep", "./here", "end.."] {
        let mut archive = Archive::new();
        assert!(archive.append_data(&header_from_buf(b"x"), name, b"x").is_ok(), "{}", name);
    }
}

#[test]
fn name_that_climbs_out_is_refused_by_tar() {
    let mut archive = Archive::new();
    let error = archive.append_data(&header_from_buf(b"x"), "../x", b"x").unwrap_err();
    assert_eq!(error.kind(), ErrorKind::Archive);
    assert_eq!(error.message(), "a member of the archive was refused");
    match error {
        BuildError::Archive { fault } => assert_eq!(fault, EncodeFault::Member),
        other => panic!("unexpected error {:?}", other),
    }
    assert_eq!(archive.into_inner(), vec![0u8; 1024]);
    for name in ["", "/etc/x", "a/../b", "nul\0"] {
        let mut archive = Archive::new();
        assert!(archive.append_data(&header_from_buf(b"x"), name, b"x").is_err(), "{:?}", name);
        assert_eq!(archive.into_inner(), vec![0u8; 1024]);
    }
}

#[test]
fn refused_member_leaves_earlier_members_alone() {
    let mut archive = Archive::new();
    archive.append_data(&header_from_buf(b"1"), "one", b"1").unwrap();
    assert!(archive.append_data(&header_from_buf(b"2"), "../two", b"2").is_err());
    assert!(archive.append_data(&header_from_buf(b"33"), "three", b"3").is_err());
    archive.append_data(&header_from_buf(b"4"), "four", b"4").unwrap();
    let names: Vec<String> = members(&archive.into_inner()).into_iter().map(|m| m.0).collect();
    assert_eq!(names, vec!["one", "four"]);
}

#[test]
fn long_name_is_kept_whole() {
    let name = "d/".repeat(80) + "file";
    let mut archive = Archive::new();
    archive.append_data(&header_from_buf(b"x"), &name, b"x").unwrap();
    let found = members(&archive.into_inner());
    assert_eq!(found.len(), 1);
    assert_eq!(found[0].0, name);
}

#[test]
fn append_file_adds_the_file_with_default_mode() {
    let mut archive = Archive::new();
    append_file("/build/control.tar.gz", Some(vec![9u8; 700]), &mut archive, "control.tar.gz")
        .unwrap();
    let found = members(&archive.into_inner());
    assert_eq!(found, vec![("control.tar.gz".to_owned(), 0o644, 700, vec![9u8; 700])]);
}

#[test]
fn append_file_fails_on_an_unreadable_file() {
    let mut archive = Archive::new();
    let error = append_file("/gone", None, &mut archive, "control").unwrap_err();
    assert_eq!(error.kind(), ErrorKind::Io);
    assert_eq!(error.message(), "cannot open /gone");
    assert_eq!(archive.into_inner(), vec![0u8; 1024]);
}

#[test]
fn append_file_takes_any_relative_name() {
    let mut archive = Archive::new();
    append_file("/here", Some(vec![1]), &mut archive, "one").unwrap();
    append_file("/here", Some(vec![2, 2]), &mut archive, "a b").unwrap();
    append_file("/here", Some(vec![3]), &mut archive, "usr/share/doc/read me.txt").unwrap();
    let found = members(&archive.into_inner());
    assert_eq!(
        found,
        vec![
            ("one".to_owned(), 0o644, 1, vec![1]),
            ("a b".to_owned(), 0o644, 2, vec![2, 2]),
            ("usr/share/doc/read me.txt".to_owned(), 0o644, 1, vec![3]),
        ]
    );
}

#[test]
fn append_file_passes_on_what_tar_refuses() {
    let mut archive = Archive::new();
    append_file("/here", Some(vec![1]), &mut archive, "kept").unwrap();
    let error = append_file("/here", Some(vec![1]), &mut archive, "../out").unwrap_err();
    assert_eq!(error.kind(), ErrorKind::Archive);
    assert_eq!(members(&archive.into_inner()).len(), 1);
}

#[test]
fn compressed_data_unpack_to_the_same_bytes() {
    let data = b"Package: x\nVersion: 1\n".repeat(40);
    let packed = compress(&data).unwrap();
    assert_ne!(packed, data);
    assert_eq!(&packed[..2], &[0x1f, 0x8b]);
    assert!(packed.len() < data.len());
    assert_eq!(unpack(&packed), data);
}

#[test]
fn compressing_nothing_gives_a_valid_stream() {
    let packed = compress(b"").unwrap();
    assert!(!packed.is_empty());
    assert_eq!(unpack(&packed), Vec::<u8>::new());
}

#[test]
fn compression_stamps_no_time() {
    let first = compress(b"same").unwrap();
    let second = compress(b"same").unwrap();
    assert_eq!(first, second);
    assert_eq!(&first[4..8], &[0u8; 4]);
}

#[test]
fn encoded_archive_holds_the_members_in_order() {
    let list = vec![
        entry("control", 0o644, b"Package: x\n"),
        entry("postinst", 0o755, b"#!/bin/sh\n"),
    ];
    let packed = encode_archive(&list).unwrap();
    let found = members(&unpack(&packed));
    assert_eq!(
        found,
        vec![
            ("control".to_owned(), 0o644, 11, b"Package: x\n".to_vec()),
            ("postinst".to_owned(), 0o755, 10, b"#!/bin/sh\n".to_vec()),
        ]
    );
}

#[test]
fn encoded_archive_of_no_member_is_empty() {
    let packed = encode_archive(&Vec::new()).unwrap();
    assert_eq!(unpack(&packed), vec![0u8; 1024]);
}

#[test]
fn encoding_fails_on_a_refused_member() {
    let list = vec![entry("fine", 0o644, b"1"), entry("../not fine", 0o644, b"2")];
    let error = encode_archive(&list).unwrap_err();
    match error {
        BuildError::Archive { fault } => assert_eq!(fault, EncodeFault::Member),
        other => panic!("unexpected error {:?}", other),
    }
}

#[test]
fn encoding_is_the_same_for_the_same_members() {
    let first = encode_archive(&vec![entry("a", 0o644, b"1")]).unwrap();
    let second = encode_archive(&vec![entry("a", 0o644, b"1")]).unwrap();
    assert_eq!(first, second);
}

#[test]
fn header_that_announces_another_size_is_refused() {
    let mut archive = Archive::new();
    let header = header_from_buf(b"four");
    let error = archive.append_data(&header, "short", b"two").unwrap_err();
    assert_eq!(error.kind(), ErrorKind::Archive);
    assert_eq!(archive.into_inner(), vec![0u8; 1024]);
    let lying = ArchiveEntry { name: "x".to_owned(), header: header_from_buf(b""), data: vec![1] };
    assert!(encode_archive(&vec![lying]).is_err());
}

#[test]
fn stale_checksum_is_replaced_when_the_member_is_written() {
    let mut header = header_from_buf(b"run");
    header.set_mode(0o755);
    let mut archive = Archive::new();
    archive.append_data(&header, "tool", b"run").unwrap();
    let bytes = archive.into_inner();
    let found = members(&bytes);
    assert_eq!(found, vec![("tool".to_owned(), 0o755, 3, b"run".to_vec())]);
    let raw = tar::Header::from_byte_slice(&bytes[..512]);
    let mut again = raw.clone();
    again.set_cksum();
    assert_eq!(raw.cksum().unwrap(), again.cksum().unwrap());
}

#[test]
fn encoded_archive_takes_names_with_spaces_and_accents() {
    let list = vec![entry("read me.txt", 0o644, b"1"), entry("caf\u{e9}", 0o755, b"22")];
    let found = members(&unpack(&encode_archive(&list).unwrap()));
    assert_eq!(
        found,
        vec![
            ("read me.txt".to_owned(), 0o644, 1, b"1".to_vec()),
            ("caf\u{e9}".to_owned(), 0o755, 2, b"22".to_vec()),
        ]
    );
}

#[test]
fn every_accepted_shape_of_name_is_taken() {
    let long = "\u{e9}".repeat(50);
    let nested = "d/".repeat(49) + "f";
    let names = [
        ".", "./", "dir/", "a//b", "a/./b", ".. ", "..a", "a..", "-", "~", " ", "a/ /b", "...",
        "a/.../b", long.as_str(), nested.as_str(),
    ];
    for name in names {
        assert!(name.len() <= 100);
        let mut archive = Archive::new();
        assert!(archive.append_data(&header_from_buf(b"x"), name, b"x").is_ok(), "{:?}", name);
        assert!(archive.into_inner().len() >= 512 + 512 + 1024);
    }
}

#[test]
fn names_that_platforms_read_differently_are_left_to_tar() {
    // Here a backslash and a colon are ordinary characters of a name.
    for name in ["a\\", "a\\b\\c", "a:b", "back\\slash"] {
        let mut archive = Archive::new();
        let outcome = archive.append_data(&header_from_buf(b"data"), name, b"data");
        let bytes = archive.into_inner();
        match outcome {
            Ok(()) => {
                let found = members(&bytes);
                assert_eq!(found.len(), 1);
                assert_eq!(found[0].3, b"data".to_vec());
            }
            Err(error) => {
                assert_eq!(error.kind(), ErrorKind::Archive);
                assert_eq!(bytes, vec![0u8; 1024]);
            }
        }
    }
}

#[test]
fn same_member_gives_the_same_bytes() {
    let write = |name: &str| {
        let mut archive = Archive::new();
        archive.append_data(&header_from_buf(b"1"), name, b"1").unwrap();
        archive.into_inner()
    };
    assert_eq!(write("read me.txt"), write("read me.txt"));
    assert_ne!(write("read me.txt"), write("read_me.txt"));
    assert_eq!(&write("read me.txt")[..11], b"read me.txt");
}
