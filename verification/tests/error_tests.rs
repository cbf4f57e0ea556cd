use ipkbuilder::error::{
    BuildError, EncodeFault, ErrorKind, Location, Operation, OutputFile, Stage,
};

fn output(file: OutputFile) -> Location {
    Location::Output { directory: "/out".to_owned(), file }
}

#[test]
fn output_files_have_fixed_names() {
    assert_eq!(OutputFile::ControlArchive.file_name(), "control.tar.gz");
    assert_eq!(OutputFile::DataArchive.file_name(), "data.tar.gz");
    assert_eq!(OutputFile::Package.file_name(), "outpackage.ipk");
}

#[test]
fn io_errors_name_the_operation_and_the_file() {
    let read = BuildError::Io {
        operation: Operation::Read,
        location: Location::Picked { path: "/a/b".to_owned() },
    };
    assert_eq!(read.kind(), ErrorKind::Io);
    assert_eq!(read.message(), "cannot open /a/b");
    let write =
        BuildError::Io { operation: Operation::Write, location: output(OutputFile::ControlArchive) };
    assert_eq!(write.message(), "cannot write control.tar.gz in /out");
    let remove =
        BuildError::Io { operation: Operation::Remove, location: output(OutputFile::DataArchive) };
    assert_eq!(remove.message(), "cannot remove data.tar.gz in /out");
    let tree = BuildError::Io {
        operation: Operation::ArchiveTree,
        location: output(OutputFile::DataArchive),
    };
    assert_eq!(tree.kind(), ErrorKind::Io);
    assert_eq!(tree.message(), "cannot archive the data directory into data.tar.gz in /out");
}

#[test]
fn archive_errors_say_what_failed() {
    let member = BuildError::Archive { fault: EncodeFault::Member };
    let packing = BuildError::Archive { fault: EncodeFault::Compression };
    assert_eq!(member.kind(), ErrorKind::Archive);
    assert_eq!(packing.kind(), ErrorKind::Archive);
    assert_eq!(member.message(), "a member of the archive was refused");
    assert_eq!(packing.message(), "the archive could not be compressed");
}

#[test]
fn package_errors_name_what_is_in_the_way_or_missing() {
    let stale = BuildError::StalePackage { location: output(OutputFile::Package) };
    assert_eq!(stale.kind(), ErrorKind::Package);
    assert_eq!(stale.message(), "cannot remove the previous outpackage.ipk in /out");
    assert_eq!(BuildError::NoOutputPath.kind(), ErrorKind::Package);
    assert_eq!(BuildError::NoOutputPath.message(), "no output directory was chosen");
    assert_eq!(BuildError::NoDataPath.kind(), ErrorKind::Package);
    assert_eq!(BuildError::NoDataPath.message(), "no data directory was chosen");
    let unpicked = BuildError::NoSourceFile { entry: "prerm".to_owned() };
    assert_eq!(unpicked.kind(), ErrorKind::Package);
    assert_eq!(unpicked.message(), "no file was picked for prerm");
}

#[test]
fn stages_are_distinct() {
    let all = [
        Stage::Validation,
        Stage::ControlArchive,
        Stage::DataArchive,
        Stage::FinalAssembly,
        Stage::Cleanup,
    ];
    for (i, a) in all.iter().enumerate() {
        for (j, b) in all.iter().enumerate() {
            assert_eq!(a == b, i == j);
        }
    }
}

#[test]
fn picked_path_is_used_as_given() {
    let picked = Location::Picked { path: "relative/dir/../file.txt".to_owned() };
    assert_eq!(picked.path(), "relative/dir/../file.txt");
}

#[test]
fn output_path_is_the_directory_joined_with_the_name() {
    assert_eq!(output(OutputFile::Package).path(), "/out/outpackage.ipk");
    assert_eq!(output(OutputFile::ControlArchive).path(), "/out/control.tar.gz");
    assert_eq!(output(OutputFile::DataArchive).path(), "/out/data.tar.gz");
}

#[test]
fn output_path_gets_a_separator_only_where_one_is_needed() {
    let at = |directory: &str| {
        Location::Output { directory: directory.to_owned(), file: OutputFile::Package }.path()
    };
    assert_eq!(at("/out/"), "/out/outpackage.ipk");
    assert_eq!(at(""), "outpackage.ipk");
    assert_eq!(at("/"), "/outpackage.ipk");
    assert_eq!(at("rel/dir"), "rel/dir/outpackage.ipk");
    assert_eq!(at("my out"), "my out/outpackage.ipk");
    assert_eq!(at("/o"), "/o/outpackage.ipk");
    assert_eq!(at("/out//"), "/out//outpackage.ipk");
}
