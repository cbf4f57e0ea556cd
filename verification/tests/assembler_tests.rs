use std::collections::BTreeMap;
use std::io::{Read, Write};

use ipkbuilder::assembler::{missing, Action, Event, Progress, Step};
use ipkbuilder::error::{BuildError, ErrorKind, Location, Operation, OutputFile, Stage};
use ipkbuilder::make_package;
use ipkbuilder::ui::{FileOrPath, IpkBuilder, ScriptSource};

/// A directory tree in memory that does what it is asked, unless told to
/// refuse.
struct Disk {
    files: BTreeMap<String, Vec<u8>>,
    tree: Option<Vec<u8>>,
    refuse_write: Vec<String>,
    refuse_remove: Vec<String>,
    log: Vec<String>,
}

fn disk() -> Disk {
    Disk {
        files: BTreeMap::new(),
        tree: Some(tree_archive(&[])),
        refuse_write: Vec::new(),
        refuse_remove: Vec::new(),
        log: Vec::new(),
    }
}

fn path_of(location: &Location) -> String {
    match location {
        Location::Picked { path } => path.clone(),
        Location::Output { directory, file } => format!("{}/{}", directory, file.file_name()),
    }
}

fn tree_archive(files: &[(&str, u32, &[u8])]) -> Vec<u8> {
    let encoder = flate2::write::GzEncoder::new(Vec::new(), flate2::Compression::default());
    let mut builder = tar::Builder::new(encoder);
    for (name, mode, data) in files {
        let mut header = tar::Header::new_gnu();
        header.set_size(data.len() as u64);
        header.set_mode(*mode);
        header.set_cksum();
        builder.append_data(&mut header, name, *data).unwrap();
    }
    let mut encoder = builder.into_inner().unwrap();
    encoder.flush().unwrap();
    encoder.finish().unwrap()
}

fn perform(disk: &mut Disk, action: Action) -> Event {
    match action {
        Action::Read { from } => {
            let path = path_of(&from);
            disk.log.push(format!("read {}", path));
            match disk.files.get(&path) {
                Some(bytes) => Event::Content { bytes: bytes.clone() },
                None => Event::Missing,
            }
        }
        Action::Write { to, content } => {
            let path = path_of(&to);
            disk.log.push(format!("write {}", path));
            if disk.refuse_write.contains(&path) {
                return Event::Failed;
            }
            disk.files.insert(path, content);
            Event::Done
        }
        Action::ArchiveTree { root, to } => {
            let path = path_of(&to);
            disk.log.push(format!("archive {} into {}", root, path));
            match &disk.tree {
                Some(bytes) => {
                    disk.files.insert(path, bytes.clone());
                    Event::Done
                }
                None => Event::Failed,
            }
        }
        Action::Remove { at } => {
            let path = path_of(&at);
            disk.log.push(format!("remove {}", path));
            if disk.refuse_remove.contains(&path) {
                return Event::Failed;
            }
            match disk.files.remove(&path) {
                Some(_) => Event::Done,
                None => Event::Missing,
            }
        }
    }
}

fn run(data: IpkBuilder, disk: &mut Disk) -> Progress {
    let mut progress = make_package(data);
    let mut turns = 0;
    loop {
        match progress {
            Progress::Pending { build, action } => {
                turns += 1;
                assert!(turns <= 13);
                let event = perform(disk, action);
                progress = build.advance(event);
            }
            ended => return ended,
        }
    }
}

fn inline(enabled: bool, text: &str) -> FileOrPath {
    FileOrPath {
        enabled,
        file_or_text: ScriptSource::FromTextfield,
        from_textbox: text.to_owned(),
        picked_path: None,
    }
}

fn from_file(enabled: bool, path: &str) -> FileOrPath {
    FileOrPath {
        enabled,
        file_or_text: ScriptSource::FromPath,
        from_textbox: String::new(),
        picked_path: Some(path.to_owned()),
    }
}

fn simple() -> IpkBuilder {
    let mut data = IpkBuilder::new();
    data.control_file = inline(false, "Package: x\nVersion: 1\n");
    data.data_path = Some("/data".to_owned());
    data.output_path = Some("/out".to_owned());
    data
}

fn listing(packed: &[u8]) -> Vec<(String, u32, Vec<u8>)> {
    let mut plain = Vec::new();
    flate2::read::GzDecoder::new(packed).read_to_end(&mut plain).unwrap();
    let mut archive = tar::Archive::new(&plain[..]);
    let mut found = Vec::new();
    for entry in archive.entries().unwrap() {
        let mut entry = entry.unwrap();
        let name = entry.path().unwrap().to_str().unwrap().to_owned();
        let mode = entry.header().mode().unwrap();
        let mut data = Vec::new();
        entry.read_to_end(&mut data).unwrap();
        found.push((name, mode, data));
    }
    found
}

fn finished_at(progress: Progress) -> String {
    match progress {
        Progress::Finished { package } => path_of(&package),
        other => panic!("the build did not finish: {:?}", other),
    }
}

fn failed_with(progress: Progress) -> (Stage, BuildError) {
    match progress {
        Progress::Failed { stage, error } => (stage, error),
        other => panic!("the build did not fail: {:?}", other),
    }
}

fn names_on(disk: &Disk) -> Vec<&str> {
    disk.files.keys().map(|k| k.as_str()).collect()
}

#[test]
fn end_to_end_with_inline_control_and_empty_directories() {
    let mut disk = disk();
    let package = finished_at(run(simple(), &mut disk));
    assert_eq!(package, "/out/outpackage.ipk");
    assert_eq!(names_on(&disk), vec!["/out/outpackage.ipk"]);
    let top = listing(&disk.files["/out/outpackage.ipk"]);
    assert_eq!(top.len(), 3);
    let names: Vec<&str> = top.iter().map(|m| m.0.as_str()).collect();
    assert_eq!(names, vec!["control.tar.gz", "data.tar.gz", "debian_binary"]);
    let control = listing(&top[0].2);
    assert_eq!(control.len(), 1);
    assert_eq!(control[0], ("control".to_owned(), 0o644, b"Package: x\nVersion: 1\n".to_vec()));
    assert_eq!(listing(&top[1].2).len(), 0);
    assert_eq!(top[2], ("debian_binary".to_owned(), 0o755, b"2.0".to_vec()));
}

#[test]
fn finished_package_is_reported_by_directory_and_name() {
    let mut disk = disk();
    match run(simple(), &mut disk) {
        Progress::Finished { package: Location::Output { directory, file } } => {
            assert_eq!(directory, "/out");
            assert_eq!(file, OutputFile::Package);
        }
        other => panic!("unexpected end {:?}", other),
    }
}

#[test]
fn building_twice_succeeds_and_leaves_one_package() {
    let mut disk = disk();
    let first = finished_at(run(simple(), &mut disk));
    let after_first = disk.files.clone();
    let second = finished_at(run(simple(), &mut disk));
    assert_eq!(first, second);
    assert_eq!(names_on(&disk), vec!["/out/outpackage.ipk"]);
    assert_eq!(disk.files, after_first);
}

#[test]
fn leftovers_of_an_earlier_build_are_replaced() {
    let mut clean = disk();
    finished_at(run(simple(), &mut clean));
    let mut dirty = disk();
    dirty.files.insert("/out/outpackage.ipk".to_owned(), b"old package".to_vec());
    dirty.files.insert("/out/control.tar.gz".to_owned(), b"old control".to_vec());
    dirty.files.insert("/out/data.tar.gz".to_owned(), b"old data".to_vec());
    dirty.files.insert("/out/notes.txt".to_owned(), b"mine".to_vec());
    finished_at(run(simple(), &mut dirty));
    assert_eq!(names_on(&dirty), vec!["/out/notes.txt", "/out/outpackage.ipk"]);
    assert_eq!(dirty.files["/out/outpackage.ipk"], clean.files["/out/outpackage.ipk"]);
    assert_eq!(dirty.files["/out/notes.txt"], b"mine".to_vec());
}

#[test]
fn actions_of_a_build_from_text_come_in_order() {
    let mut disk = disk();
    finished_at(run(simple(), &mut disk));
    assert_eq!(
        disk.log,
        vec![
            "write /out/control.tar.gz",
            "archive /data into /out/data.tar.gz",
            "remove /out/outpackage.ipk",
            "read /out/control.tar.gz",
            "read /out/data.tar.gz",
            "write /out/outpackage.ipk",
            "remove /out/control.tar.gz",
            "remove /out/data.tar.gz",
        ]
    );
}

#[test]
fn actions_of_a_build_from_files_come_in_order() {
    let mut disk = disk();
    for (path, text) in [
        ("/s/control", "Package: y\n"),
        ("/s/post", "post"),
        ("/s/pre", "pre"),
        ("/s/rm", "rm"),
        ("/s/version", "2.0\n"),
    ] {
        disk.files.insert(path.to_owned(), text.as_bytes().to_vec());
    }
    let mut data = simple();
    data.control_file = from_file(false, "/s/control");
    data.postinst = from_file(true, "/s/post");
    data.preinst = from_file(true, "/s/pre");
    data.prerm = from_file(true, "/s/rm");
    data.debian_binary = from_file(false, "/s/version");
    finished_at(run(data, &mut disk));
    assert_eq!(
        disk.log,
        vec![
            "read /s/control",
            "read /s/post",
            "read /s/pre",
            "read /s/rm",
            "write /out/control.tar.gz",
            "archive /data into /out/data.tar.gz",
            "remove /out/outpackage.ipk",
            "read /out/control.tar.gz",
            "read /out/data.tar.gz",
            "read /s/version",
            "write /out/outpackage.ipk",
            "remove /out/control.tar.gz",
            "remove /out/data.tar.gz",
        ]
    );
    let top = listing(&disk.files["/out/outpackage.ipk"]);
    let control = listing(&top[0].2);
    assert_eq!(
        control,
        vec![
            ("control".to_owned(), 0o644, b"Package: y\n".to_vec()),
            ("postinst".to_owned(), 0o644, b"post".to_vec()),
            ("preinst".to_owned(), 0o644, b"pre".to_vec()),
            ("prerm".to_owned(), 0o644, b"rm".to_vec()),
        ]
    );
    assert_eq!(top[2], ("debian_binary".to_owned(), 0o644, b"2.0\n".to_vec()));
}

#[test]
fn disabled_script_file_is_never_read() {
    let mut disk = disk();
    let mut data = simple();
    data.postinst = from_file(false, "/s/post");
    data.prerm = inline(true, "#!/bin/sh\n");
    finished_at(run(data, &mut disk));
    assert!(!disk.log.iter().any(|line| line.contains("/s/post")));
    let top = listing(&disk.files["/out/outpackage.ipk"]);
    let names: Vec<String> = listing(&top[0].2).into_iter().map(|m| m.0).collect();
    assert_eq!(names, vec!["control", "prerm"]);
    assert_eq!(top.iter().map(|m| m.0.as_str()).collect::<Vec<_>>(), vec![
        "control.tar.gz",
        "data.tar.gz",
        "debian_binary"
    ]);
}

#[test]
fn missing_control_file_fails_and_leaves_nothing() {
    let mut disk = disk();
    let mut data = simple();
    data.control_file = from_file(false, "/s/nothing");
    let (stage, error) = failed_with(run(data, &mut disk));
    assert_eq!(stage, Stage::ControlArchive);
    assert_eq!(error.kind(), ErrorKind::Io);
    assert_eq!(error.message(), "cannot open /s/nothing");
    assert!(disk.files.is_empty());
    assert_eq!(disk.log, vec!["read /s/nothing"]);
}

#[test]
fn missing_control_file_keeps_an_older_package() {
    let mut disk = disk();
    disk.files.insert("/out/outpackage.ipk".to_owned(), b"old".to_vec());
    let mut data = simple();
    data.control_file = from_file(false, "/s/nothing");
    failed_with(run(data, &mut disk));
    assert_eq!(names_on(&disk), vec!["/out/outpackage.ipk"]);
    assert_eq!(disk.files["/out/outpackage.ipk"], b"old".to_vec());
}

#[test]
fn missing_script_file_fails_before_anything_is_written() {
    let mut disk = disk();
    let mut data = simple();
    data.preinst = from_file(true, "/s/pre");
    let (stage, error) = failed_with(run(data, &mut disk));
    assert_eq!(stage, Stage::ControlArchive);
    assert_eq!(error.message(), "cannot open /s/pre");
    assert!(disk.files.is_empty());
}

#[test]
fn data_directory_that_cannot_be_archived_fails_the_second_stage() {
    let mut disk = disk();
    disk.tree = None;
    let (stage, error) = failed_with(run(simple(), &mut disk));
    assert_eq!(stage, Stage::DataArchive);
    assert_eq!(error.kind(), ErrorKind::Io);
    assert_eq!(error.message(), "cannot archive the data directory into data.tar.gz in /out");
    assert_eq!(names_on(&disk), vec!["/out/control.tar.gz"]);
}

#[test]
fn control_archive_that_cannot_be_written_fails_the_first_stage() {
    let mut disk = disk();
    disk.refuse_write.push("/out/control.tar.gz".to_owned());
    let (stage, error) = failed_with(run(simple(), &mut disk));
    assert_eq!(stage, Stage::ControlArchive);
    match error {
        BuildError::Io { operation, location } => {
            assert_eq!(operation, Operation::Write);
            assert_eq!(path_of(&location), "/out/control.tar.gz");
        }
        other => panic!("unexpected error {:?}", other),
    }
    assert_eq!(disk.log.len(), 1);
}

#[test]
fn older_package_that_cannot_be_removed_is_a_package_error() {
    let mut disk = disk();
    disk.files.insert("/out/outpackage.ipk".to_owned(), b"old".to_vec());
    disk.refuse_remove.push("/out/outpackage.ipk".to_owned());
    let (stage, error) = failed_with(run(simple(), &mut disk));
    assert_eq!(stage, Stage::FinalAssembly);
    assert_eq!(error.kind(), ErrorKind::Package);
    assert_eq!(error.message(), "cannot remove the previous outpackage.ipk in /out");
    assert_eq!(disk.files["/out/outpackage.ipk"], b"old".to_vec());
    assert!(disk.files.contains_key("/out/control.tar.gz"));
    assert!(disk.files.contains_key("/out/data.tar.gz"));
}

#[test]
fn package_that_cannot_be_written_leaves_the_intermediates() {
    let mut disk = disk();
    disk.refuse_write.push("/out/outpackage.ipk".to_owned());
    let (stage, error) = failed_with(run(simple(), &mut disk));
    assert_eq!(stage, Stage::FinalAssembly);
    assert_eq!(error.message(), "cannot write outpackage.ipk in /out");
    assert_eq!(names_on(&disk), vec!["/out/control.tar.gz", "/out/data.tar.gz"]);
}

#[test]
fn unreadable_marker_file_fails_the_final_assembly() {
    let mut disk = disk();
    let mut data = simple();
    data.debian_binary = from_file(true, "/s/version");
    let (stage, error) = failed_with(run(data, &mut disk));
    assert_eq!(stage, Stage::FinalAssembly);
    assert_eq!(error.message(), "cannot open /s/version");
    assert_eq!(names_on(&disk), vec!["/out/control.tar.gz", "/out/data.tar.gz"]);
}

#[test]
fn cleanup_failure_is_fatal_and_keeps_the_package() {
    let mut disk = disk();
    disk.refuse_remove.push("/out/control.tar.gz".to_owned());
    let (stage, error) = failed_with(run(simple(), &mut disk));
    assert_eq!(stage, Stage::Cleanup);
    assert_eq!(error.kind(), ErrorKind::Io);
    assert_eq!(error.message(), "cannot remove control.tar.gz in /out");
    assert!(disk.files.contains_key("/out/outpackage.ipk"));
    assert!(disk.files.contains_key("/out/data.tar.gz"));
}

#[test]
fn second_cleanup_failure_is_fatal_too() {
    let mut disk = disk();
    disk.refuse_remove.push("/out/data.tar.gz".to_owned());
    let (stage, error) = failed_with(run(simple(), &mut disk));
    assert_eq!(stage, Stage::Cleanup);
    assert_eq!(error.message(), "cannot remove data.tar.gz in /out");
    assert_eq!(names_on(&disk), vec!["/out/data.tar.gz", "/out/outpackage.ipk"]);
}

#[test]
fn intermediate_that_vanished_before_cleanup_is_a_failure() {
    let data = simple();
    let mut disk = disk();
    let mut progress = make_package(data);
    loop {
        match progress {
            Progress::Pending { build, action } => {
                let last = build.step() == Step::RemoveControlArchive;
                let event = if last { Event::Missing } else { perform(&mut disk, action) };
                progress = build.advance(event);
            }
            ended => {
                let (stage, error) = failed_with(ended);
                assert_eq!(stage, Stage::Cleanup);
                assert_eq!(error.message(), "cannot remove control.tar.gz in /out");
                return;
            }
        }
    }
}

#[test]
fn absent_output_directory_is_found_before_any_action() {
    let mut data = simple();
    data.output_path = None;
    let (stage, error) = failed_with(make_package(data));
    assert_eq!(stage, Stage::Validation);
    assert_eq!(error.kind(), ErrorKind::Package);
    assert_eq!(error.message(), "no output directory was chosen");
}

#[test]
fn absent_data_directory_is_found_before_any_action() {
    let mut data = simple();
    data.data_path = None;
    let (stage, error) = failed_with(make_package(data));
    assert_eq!(stage, Stage::Validation);
    assert_eq!(error.message(), "no data directory was chosen");
}

#[test]
fn output_directory_is_asked_for_first() {
    let (stage, error) = failed_with(make_package(IpkBuilder::new()));
    assert_eq!(stage, Stage::Validation);
    assert_eq!(error.message(), "no output directory was chosen");
}

#[test]
fn unpicked_files_are_found_before_any_action() {
    let mut data = simple();
    data.control_file.file_or_text = ScriptSource::FromPath;
    let (stage, error) = failed_with(make_package(data));
    assert_eq!(stage, Stage::Validation);
    assert_eq!(error.message(), "no file was picked for control");

    let mut data = simple();
    data.postinst.enabled = true;
    assert_eq!(
        failed_with(make_package(data)).1.message(),
        "no file was picked for postinst"
    );
    let mut data = simple();
    data.preinst.enabled = true;
    assert_eq!(failed_with(make_package(data)).1.message(), "no file was picked for preinst");
    let mut data = simple();
    data.prerm.enabled = true;
    assert_eq!(failed_with(make_package(data)).1.message(), "no file was picked for prerm");
    let mut data = simple();
    data.debian_binary.file_or_text = ScriptSource::FromPath;
    assert_eq!(
        failed_with(make_package(data)).1.message(),
        "no file was picked for debian_binary"
    );
}

#[test]
fn disabled_script_needs_no_file() {
    let mut data = simple();
    data.postinst = FileOrPath {
        enabled: false,
        file_or_text: ScriptSource::FromPath,
        from_textbox: String::new(),
        picked_path: None,
    };
    let mut disk = disk();
    finished_at(run(data, &mut disk));
}

#[test]
fn first_action_writes_the_control_archive_when_nothing_is_read() {
    match make_package(simple()) {
        Progress::Pending { build, action } => {
            assert_eq!(build.step(), Step::WriteControlArchive);
            assert_eq!(build.stage(), Stage::ControlArchive);
            match action {
                Action::Write { to, content } => {
                    assert_eq!(path_of(&to), "/out/control.tar.gz");
                    assert_eq!(listing(&content).len(), 1);
                }
                other => panic!("unexpected action {:?}", other),
            }
        }
        other => panic!("unexpected start {:?}", other),
    }
}

#[test]
fn answer_of_the_wrong_kind_ends_the_build() {
    match make_package(simple()) {
        Progress::Pending { build, .. } => {
            let (stage, error) = failed_with(build.advance(Event::Content { bytes: vec![1] }));
            assert_eq!(stage, Stage::ControlArchive);
            assert_eq!(error.message(), "cannot write control.tar.gz in /out");
        }
        other => panic!("unexpected start {:?}", other),
    }
    let mut data = simple();
    data.control_file = from_file(false, "/s/control");
    match make_package(data) {
        Progress::Pending { build, action } => {
            assert_eq!(build.step(), Step::ReadControl);
            match action {
                Action::Read { from } => assert_eq!(path_of(&from), "/s/control"),
                other => panic!("unexpected action {:?}", other),
            }
            let (stage, error) = failed_with(build.advance(Event::Done));
            assert_eq!(stage, Stage::ControlArchive);
            assert_eq!(error.message(), "cannot open /s/control");
        }
        other => panic!("unexpected start {:?}", other),
    }
}

#[test]
fn data_archive_enters_the_package_unchanged() {
    let mut disk = disk();
    let tree = tree_archive(&[("usr/bin/foo", 0o755, b"\x7fELF"), ("etc/foo.conf", 0o644, b"a=1\n")]);
    disk.tree = Some(tree.clone());
    finished_at(run(simple(), &mut disk));
    let top = listing(&disk.files["/out/outpackage.ipk"]);
    assert_eq!(top[1].0, "data.tar.gz");
    assert_eq!(top[1].1, 0o644);
    assert_eq!(top[1].2, tree);
    let inner = listing(&top[1].2);
    assert_eq!(inner[0], ("usr/bin/foo".to_owned(), 0o755, b"\x7fELF".to_vec()));
    assert_eq!(inner[1], ("etc/foo.conf".to_owned(), 0o644, b"a=1\n".to_vec()));
}

#[test]
fn steps_follow_one_another_through_the_stages() {
    let mut step = Step::ReadControl;
    let mut seen = vec![step];
    while let Some(next) = step.next() {
        seen.push(next);
        step = next;
    }
    assert_eq!(seen.len(), 13);
    assert_eq!(seen[12], Step::RemoveDataArchive);
    let stages: Vec<Stage> = seen.iter().map(|s| s.stage_of()).collect();
    assert_eq!(&stages[..5], &[Stage::ControlArchive; 5]);
    assert_eq!(stages[5], Stage::DataArchive);
    assert_eq!(&stages[6..11], &[Stage::FinalAssembly; 5]);
    assert_eq!(&stages[11..], &[Stage::Cleanup; 2]);
    let operations: Vec<Operation> = seen.iter().map(|s| s.operation_of()).collect();
    assert_eq!(
        operations,
        vec![
            Operation::Read,
            Operation::Read,
            Operation::Read,
            Operation::Read,
            Operation::Write,
            Operation::ArchiveTree,
            Operation::Remove,
            Operation::Read,
            Operation::Read,
            Operation::Read,
            Operation::Write,
            Operation::Remove,
            Operation::Remove,
        ]
    );
}

#[test]
fn complete_values_miss_nothing() {
    assert!(missing(&simple()).is_none());
    let mut data = simple();
    data.postinst = from_file(true, "/s/post");
    assert!(missing(&data).is_none());
}

#[test]
fn first_missing_value_is_named() {
    let mut data = simple();
    data.data_path = None;
    data.prerm.enabled = true;
    assert_eq!(missing(&data).unwrap().message(), "no data directory was chosen");
    data.data_path = Some("/data".to_owned());
    assert_eq!(missing(&data).unwrap().message(), "no file was picked for prerm");
    data.preinst.enabled = true;
    assert_eq!(missing(&data).unwrap().message(), "no file was picked for preinst");
}

#[test]
fn finished_package_path_is_inside_the_output_directory() {
    let mut disk = disk();
    match run(simple(), &mut disk) {
        Progress::Finished { package } => {
            assert_eq!(package.path(), "/out/outpackage.ipk");
        }
        other => panic!("unexpected end {:?}", other),
    }
}
