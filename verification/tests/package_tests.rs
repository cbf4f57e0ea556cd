use std::io::Read;

use ipkbuilder::error::ErrorKind;
use ipkbuilder::package::{package_archive, package_members};
use ipkbuilder::ui::{FileOrPath, IpkBuilder, ScriptSource};

fn marker(text: &str) -> FileOrPath {
    FileOrPath {
        enabled: true,
        file_or_text: ScriptSource::FromTextfield,
        from_textbox: text.to_owned(),
        picked_path: None,
    }
}

#[test]
fn package_lists_three_members_in_order() {
    let members =
        package_members(vec![1, 2, 3], vec![4, 5], &IpkBuilder::new().debian_binary, None).unwrap();
    let names: Vec<&str> = members.iter().map(|m| m.name.as_str()).collect();
    assert_eq!(names, vec!["control.tar.gz", "data.tar.gz", "debian_binary"]);
    assert_eq!(members[0].data, vec![1, 2, 3]);
    assert_eq!(members[1].data, vec![4, 5]);
    assert_eq!(members[2].data, b"2.0".to_vec());
    assert_eq!(members[0].header.mode(), 0o644);
    assert_eq!(members[1].header.mode(), 0o644);
    assert_eq!(members[2].header.mode(), 0o755);
    assert_eq!(members[0].header.size(), 3);
    assert_eq!(members[1].header.size(), 2);
    assert_eq!(members[2].header.size(), 3);
    assert_eq!(members[2].header.cksum(), 2963);
}

#[test]
fn package_archive_can_be_unpacked() {
    let packed = package_archive(vec![7; 2000], Vec::new(), &marker("2.0"), None).unwrap();
    let mut plain = Vec::new();
    flate2::read::GzDecoder::new(&packed[..]).read_to_end(&mut plain).unwrap();
    let mut archive = tar::Archive::new(&plain[..]);
    let mut found = Vec::new();
    for entry in archive.entries().unwrap() {
        let mut entry = entry.unwrap();
        let name = entry.path().unwrap().to_str().unwrap().to_owned();
        let mode = entry.header().mode().unwrap();
        let mut data = Vec::new();
        entry.read_to_end(&mut data).unwrap();
        found.push((name, mode, data));
    }
    assert_eq!(
        found,
        vec![
            ("control.tar.gz".to_owned(), 0o644, vec![7; 2000]),
            ("data.tar.gz".to_owned(), 0o644, Vec::new()),
            ("debian_binary".to_owned(), 0o755, b"2.0".to_vec()),
        ]
    );
}

#[test]
fn marker_from_a_file_keeps_its_name_and_default_mode() {
    let entry = FileOrPath {
        enabled: false,
        file_or_text: ScriptSource::FromPath,
        from_textbox: "2.0".to_owned(),
        picked_path: Some("/s/version".to_owned()),
    };
    let members = package_members(vec![], vec![], &entry, Some(b"3.0\n".to_vec())).unwrap();
    assert_eq!(members[2].name, "debian_binary");
    assert_eq!(members[2].data, b"3.0\n".to_vec());
    assert_eq!(members[2].header.mode(), 0o644);
}

#[test]
fn unreadable_marker_file_fails() {
    let entry = FileOrPath {
        enabled: true,
        file_or_text: ScriptSource::FromPath,
        from_textbox: "2.0".to_owned(),
        picked_path: Some("/s/version".to_owned()),
    };
    let error = package_archive(vec![1], vec![2], &entry, None).unwrap_err();
    assert_eq!(error.kind(), ErrorKind::Io);
    assert_eq!(error.message(), "cannot open /s/version");
}
