//! The package itself: the two archives and the version marker, in a fixed
//! order.

use crate::archive::{
    accepted_name, archive_encoding, encode_archive, encode_error, entries_view,
    lemma_plain_name_fits, portable_name, ArchiveEntry, EntryView,
};
use crate::error::EncodeFault;
use crate::control::all_well_formed;
use crate::error::{BuildError, BuildErrorView, OutputFile};
use crate::header::header_from_buf;
use crate::resolve::{content_view, resolve, resolve_model};
use crate::ui::{FileOrPath, FileOrPathView};
use vstd::prelude::*;
use vstd::string::StringExecFns;

verus! {

/// The name of the version marker inside the package.
pub open spec fn marker_name() -> Seq<char> {
    "debian_binary"@
}

/// The name is one of the three inside the package.
pub open spec fn is_package_name(name: Seq<char>) -> bool {
    name == OutputFile::ControlArchive.name() || name == OutputFile::DataArchive.name() || name
        == marker_name()
}

/// Each name inside the package is portable, and one that `tar` accepts.
pub proof fn lemma_package_names_fit()
    ensures
        forall|name: Seq<char>| #[trigger]
            is_package_name(name) ==> portable_name(name) && accepted_name(name),
{
    reveal_strlit("control.tar.gz");
    reveal_strlit("data.tar.gz");
    reveal_strlit("debian_binary");
    lemma_plain_name_fits(OutputFile::ControlArchive.name());
    lemma_plain_name_fits(OutputFile::DataArchive.name());
    lemma_plain_name_fits(marker_name());
}

/// The members of the package: the metadata archive, the data archive and
/// the version marker, in this order and under these names. The two archives
/// enter as they were read, with the default mode; the marker is made
/// runnable where it comes from the text.
pub open spec fn package_members_model(
    control_archive: Seq<u8>,
    data_archive: Seq<u8>,
    marker: FileOrPathView,
    marker_file: Option<Seq<u8>>,
) -> Result<Seq<EntryView>, BuildErrorView> {
    match resolve_model(marker, marker_name(), true, marker_file) {
        Ok(member) => Ok(
            seq![
                EntryView::plain(OutputFile::ControlArchive.name(), control_archive),
                EntryView::plain(OutputFile::DataArchive.name(), data_archive),
                member,
            ],
        ),
        Err(error) => Err(error),
    }
}

/// The bytes of the package.
pub open spec fn package_archive_model(
    control_archive: Seq<u8>,
    data_archive: Seq<u8>,
    marker: FileOrPathView,
    marker_file: Option<Seq<u8>>,
) -> Result<Seq<u8>, BuildErrorView> {
    match package_members_model(control_archive, data_archive, marker, marker_file) {
        Err(error) => Err(error),
        Ok(members) => match archive_encoding(members) {
            Ok(bytes) => Ok(bytes),
            Err(fault) => Err(encode_error(fault)),
        },
    }
}

/// An archive that was read back, as a member with the default mode.
fn archive_member(file: OutputFile, content: Vec<u8>) -> (member: ArchiveEntry)
    ensures
        member@ == EntryView::plain(file.name(), content@),
        member@.well_formed(),
{
    let header = header_from_buf(content.as_slice());
    ArchiveEntry { name: String::from_str(file.file_name()), header, data: content }
}

/// The members of the package, in their order. `control_archive` and
/// `data_archive` are the bytes of the two intermediate files; `marker_file`
/// is what reading the marker's picked file gave.
pub fn package_members(
    control_archive: Vec<u8>,
    data_archive: Vec<u8>,
    marker: &FileOrPath,
    marker_file: Option<Vec<u8>>,
) -> (outcome: Result<Vec<ArchiveEntry>, BuildError>)
    ensures
        match package_members_model(
            control_archive@,
            data_archive@,
            marker@,
            content_view(marker_file),
        ) {
            Ok(members) => outcome matches Ok(found) && entries_view(found@) == members,
            Err(error) => outcome matches Err(e) && e@ == error,
        },
        outcome matches Ok(found) ==> all_well_formed(entries_view(found@)),
{
    match resolve(marker, "debian_binary", true, marker_file) {
        Ok(member) => {
            let mut members: Vec<ArchiveEntry> = Vec::new();
            let first = archive_member(OutputFile::ControlArchive, control_archive);
            let second = archive_member(OutputFile::DataArchive, data_archive);
            members.push(first);
            members.push(second);
            members.push(member);
            assert(entries_view(members@) =~= seq![first@, second@, member@]);
            Ok(members)
        },
        Err(e) => Err(e),
    }
}

/// The bytes of the package: its members as a compressed tar stream. No
/// member is refused, so of the encoding only the compression can fail.
pub fn package_archive(
    control_archive: Vec<u8>,
    data_archive: Vec<u8>,
    marker: &FileOrPath,
    marker_file: Option<Vec<u8>>,
) -> (outcome: Result<Vec<u8>, BuildError>)
    ensures
        match package_archive_model(
            control_archive@,
            data_archive@,
            marker@,
            content_view(marker_file),
        ) {
            Ok(bytes) => outcome matches Ok(found) && found@ == bytes,
            Err(error) => outcome matches Err(e) && e@ == error,
        },
        outcome matches Err(e) ==> e@ != encode_error(EncodeFault::Member),
{
    match package_members(control_archive, data_archive, marker, marker_file) {
        Ok(members) => {
            proof {
                let views = entries_view(members@);
                lemma_package_names_fit();
                assert forall|i: int| 0 <= i < views.len() implies portable_name(
                    (#[trigger] views[i]).name,
                ) && views[i].fit() by {
                    assert(is_package_name(views[i].name));
                    assert(views[i].well_formed());
                }
            }
            encode_archive(&members)
        },
        Err(e) => Err(e),
    }
}

} // verus!
