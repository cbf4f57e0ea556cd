//! The metadata archive: the control file and the maintainer scripts that
//! are enabled.

use crate::archive::{
    accepted_name, archive_encoding, encode_archive, encode_error, entries_view,
    lemma_plain_name_fits, portable_name, ArchiveEntry, EntryView,
};
use crate::error::EncodeFault;
use crate::error::{BuildError, BuildErrorView};
use crate::resolve::{content_view, resolve, resolve_model};
use crate::ui::{FileOrPath, FileOrPathView, IpkBuilder, IpkBuilderView};
use vstd::prelude::*;

verus! {

/// What reading the picked files of the metadata archive gave. A field is
/// `None` where the file could not be read, or where nothing was read
/// because the entry does not come from a file.
#[derive(Debug)]
pub struct ControlFiles {
    pub control: Option<Vec<u8>>,
    pub postinst: Option<Vec<u8>>,
    pub preinst: Option<Vec<u8>>,
    pub prerm: Option<Vec<u8>>,
}

/// What the contracts see of `ControlFiles`.
pub struct ControlFilesView {
    pub control: Option<Seq<u8>>,
    pub postinst: Option<Seq<u8>>,
    pub preinst: Option<Seq<u8>>,
    pub prerm: Option<Seq<u8>>,
}

impl View for ControlFiles {
    type V = ControlFilesView;

    open spec fn view(&self) -> ControlFilesView {
        ControlFilesView {
            control: content_view(self.control),
            postinst: content_view(self.postinst),
            preinst: content_view(self.preinst),
            prerm: content_view(self.prerm),
        }
    }
}

/// The name of the control file inside the metadata archive.
pub open spec fn control_name() -> Seq<char> {
    "control"@
}

/// The name of the script that runs after installation.
pub open spec fn postinst_name() -> Seq<char> {
    "postinst"@
}

/// The name of the script that runs before installation.
pub open spec fn preinst_name() -> Seq<char> {
    "preinst"@
}

/// The name of the script that runs before removal.
pub open spec fn prerm_name() -> Seq<char> {
    "prerm"@
}

/// The name is one of the four inside the metadata archive.
pub open spec fn is_control_name(name: Seq<char>) -> bool {
    name == control_name() || name == postinst_name() || name == preinst_name() || name
        == prerm_name()
}

/// Each name inside the metadata archive is portable, and one that `tar`
/// accepts.
pub proof fn lemma_control_names_fit()
    ensures
        forall|name: Seq<char>| #[trigger]
            is_control_name(name) ==> portable_name(name) && accepted_name(name),
{
    reveal_strlit("control");
    reveal_strlit("postinst");
    reveal_strlit("preinst");
    reveal_strlit("prerm");
    lemma_plain_name_fits(control_name());
    lemma_plain_name_fits(postinst_name());
    lemma_plain_name_fits(preinst_name());
    lemma_plain_name_fits(prerm_name());
}

/// The members so far, followed by the script where it is enabled. A
/// disabled script leaves no trace; a failure, once there, stays.
pub open spec fn with_script(
    so_far: Result<Seq<EntryView>, BuildErrorView>,
    script: FileOrPathView,
    name: Seq<char>,
    file: Option<Seq<u8>>,
) -> Result<Seq<EntryView>, BuildErrorView> {
    match so_far {
        Err(error) => Err(error),
        Ok(members) => if script.enabled {
            match resolve_model(script, name, true, file) {
                Ok(member) => Ok(members.push(member)),
                Err(error) => Err(error),
            }
        } else {
            Ok(members)
        },
    }
}

/// The members of the metadata archive: the control file, always and with
/// the mode it has by default, then `postinst`, `preinst` and `prerm`, each
/// only where it is enabled. Each stands under its own name and with its
/// own content, whether it comes from a file or from the text.
pub open spec fn control_members_model(data: IpkBuilderView, files: ControlFilesView) -> Result<
    Seq<EntryView>,
    BuildErrorView,
> {
    let control = match resolve_model(data.control_file, control_name(), false, files.control) {
        Ok(member) => Ok(seq![member]),
        Err(error) => Err(error),
    };
    let first = with_script(control, data.postinst, postinst_name(), files.postinst);
    let second = with_script(first, data.preinst, preinst_name(), files.preinst);
    with_script(second, data.prerm, prerm_name(), files.prerm)
}

/// The bytes of the metadata archive.
pub open spec fn control_archive_model(data: IpkBuilderView, files: ControlFilesView) -> Result<
    Seq<u8>,
    BuildErrorView,
> {
    match control_members_model(data, files) {
        Err(error) => Err(error),
        Ok(members) => match archive_encoding(members) {
            Ok(bytes) => Ok(bytes),
            Err(fault) => Err(encode_error(fault)),
        },
    }
}

/// Every member of the metadata archive has one of the four names.
pub proof fn lemma_control_members_named(data: IpkBuilderView, files: ControlFilesView)
    ensures
        control_members_model(data, files) matches Ok(members) ==> forall|i: int|
            0 <= i < members.len() ==> is_control_name((#[trigger] members[i]).name),
{
    let control = match resolve_model(data.control_file, control_name(), false, files.control) {
        Ok(member) => Ok(seq![member]),
        Err(error) => Err(error),
    };
    let first = with_script(control, data.postinst, postinst_name(), files.postinst);
    let second = with_script(first, data.preinst, preinst_name(), files.preinst);
    let third = with_script(second, data.prerm, prerm_name(), files.prerm);
    if let Ok(zero) = control {
        assert(forall|i: int| 0 <= i < zero.len() ==> is_control_name((#[trigger] zero[i]).name));
        if let Ok(one) = first {
            assert(forall|i: int| 0 <= i < one.len() ==> is_control_name((#[trigger] one[i]).name));
            if let Ok(two) = second {
                assert(forall|i: int|
                    0 <= i < two.len() ==> is_control_name((#[trigger] two[i]).name));
                if let Ok(three) = third {
                    assert(forall|i: int|
                        0 <= i < three.len() ==> is_control_name((#[trigger] three[i]).name));
                }
            }
        }
    }
}

/// Every member announces its payload's length under a current checksum.
pub open spec fn all_well_formed(members: Seq<EntryView>) -> bool {
    forall|i: int| 0 <= i < members.len() ==> (#[trigger] members[i]).well_formed()
}

/// Adds the script to the members where it is enabled.
fn add_script(
    members: &mut Vec<ArchiveEntry>,
    script: &FileOrPath,
    name: &str,
    file: Option<Vec<u8>>,
) -> (outcome: Result<(), BuildError>)
    requires
        all_well_formed(entries_view(old(members)@)),
    ensures
        match with_script(Ok(entries_view(old(members)@)), script@, name@, content_view(file)) {
            Ok(extended) => outcome is Ok && entries_view(final(members)@) == extended,
            Err(error) => outcome matches Err(e) && e@ == error,
        },
        outcome is Ok ==> all_well_formed(entries_view(final(members)@)),
{
    if !script.enabled {
        return Ok(());
    }
    match resolve(script, name, true, file) {
        Ok(member) => {
            members.push(member);
            assert(entries_view(members@) =~= entries_view(old(members)@).push(member@));
            Ok(())
        },
        Err(e) => Err(e),
    }
}

/// The members of the metadata archive, in their order.
pub fn control_members(data: &IpkBuilder, files: ControlFiles) -> (outcome: Result<
    Vec<ArchiveEntry>,
    BuildError,
>)
    ensures
        match control_members_model(data@, files@) {
            Ok(members) => outcome matches Ok(found) && entries_view(found@) == members,
            Err(error) => outcome matches Err(e) && e@ == error,
        },
        outcome matches Ok(found) ==> all_well_formed(entries_view(found@)),
{
    let ControlFiles { control, postinst, preinst, prerm } = files;
    let mut members: Vec<ArchiveEntry> = Vec::new();
    match resolve(&data.control_file, "control", false, control) {
        Ok(member) => {
            members.push(member);
            assert(entries_view(members@) =~= seq![member@]);
        },
        Err(e) => {
            return Err(e);
        },
    }
    match add_script(&mut members, &data.postinst, "postinst", postinst) {
        Ok(()) => {},
        Err(e) => {
            return Err(e);
        },
    }
    match add_script(&mut members, &data.preinst, "preinst", preinst) {
        Ok(()) => {},
        Err(e) => {
            return Err(e);
        },
    }
    match add_script(&mut members, &data.prerm, "prerm", prerm) {
        Ok(()) => {},
        Err(e) => {
            return Err(e);
        },
    }
    Ok(members)
}

/// The bytes of the metadata archive: its members as a compressed tar
/// stream. No member is refused, so of the encoding only the compression
/// can fail.
pub fn control_archive(data: &IpkBuilder, files: ControlFiles) -> (outcome: Result<
    Vec<u8>,
    BuildError,
>)
    ensures
        match control_archive_model(data@, files@) {
            Ok(bytes) => outcome matches Ok(found) && found@ == bytes,
            Err(error) => outcome matches Err(e) && e@ == error,
        },
        outcome matches Err(e) ==> e@ != encode_error(EncodeFault::Member),
{
    match control_members(data, files) {
        Ok(members) => {
            proof {
                let views = entries_view(members@);
                lemma_control_names_fit();
                lemma_control_members_named(data@, files@);
                assert forall|i: int| 0 <= i < views.len() implies portable_name(
                    (#[trigger] views[i]).name,
                ) && views[i].fit() by {
                    assert(is_control_name(views[i].name));
                    assert(views[i].well_formed());
                }
            }
            encode_archive(&members)
        },
        Err(e) => Err(e),
    }
}

} // verus!
