//! What holds of the members of the two archives.

use crate::archive::EntryView;
use crate::control::{
    control_members_model, control_name, postinst_name, preinst_name, prerm_name, with_script,
    ControlFilesView,
};
use crate::error::OutputFile;
use crate::header::{DEFAULT_MODE, EXECUTABLE_MODE};
use crate::package::{marker_name, package_members_model};
use crate::resolve::resolve_model;
use crate::ui::{FileOrPathView, IpkBuilderView};
use vstd::prelude::*;
use vstd::utf8::encode_utf8;

verus! {

/// The payload of the first member that has this name: what unpacking the
/// name from the archive gives.
pub open spec fn extract(members: Seq<EntryView>, name: Seq<char>) -> Option<Seq<u8>>
    decreases members.len(),
{
    if members.len() == 0 {
        None
    } else if members.first().name == name {
        Some(members.first().data)
    } else {
        extract(members.drop_first(), name)
    }
}

/// How many members have this name.
pub open spec fn occurrences(members: Seq<EntryView>, name: Seq<char>) -> nat
    decreases members.len(),
{
    if members.len() == 0 {
        0
    } else {
        let rest = occurrences(members.drop_last(), name);
        if members.last().name == name {
            rest + 1
        } else {
            rest
        }
    }
}

/// The mode of a member that is made runnable where it comes from the text.
pub open spec fn script_mode(entry: FileOrPathView) -> u32 {
    if entry.from_path() {
        DEFAULT_MODE
    } else {
        EXECUTABLE_MODE
    }
}

/// The names of the members, in their order.
pub open spec fn names(members: Seq<EntryView>) -> Seq<Seq<char>> {
    Seq::new(members.len(), |i: int| members[i].name)
}

/// The four names inside the metadata archive differ from one another.
pub proof fn control_names_differ()
    ensures
        control_name() != postinst_name(),
        control_name() != preinst_name(),
        control_name() != prerm_name(),
        postinst_name() != preinst_name(),
        postinst_name() != prerm_name(),
        preinst_name() != prerm_name(),
{
    reveal_strlit("control");
    reveal_strlit("postinst");
    reveal_strlit("preinst");
    reveal_strlit("prerm");
    assert(control_name()[0] == 'c');
    assert(preinst_name()[0] == 'p');
    assert(control_name().len() == 7);
    assert(postinst_name().len() == 8);
    assert(preinst_name().len() == 7);
    assert(prerm_name().len() == 5);
}

proof fn lemma_occurrences_push(members: Seq<EntryView>, member: EntryView, name: Seq<char>)
    ensures
        occurrences(members.push(member), name) == occurrences(members, name) + if member.name
            == name {
            1nat
        } else {
            0nat
        },
{
    assert(members.push(member).drop_last() =~= members);
}

proof fn lemma_occurrences_one(member: EntryView, name: Seq<char>)
    ensures
        occurrences(seq![member], name) == if member.name == name {
            1nat
        } else {
            0nat
        },
{
    assert(seq![member] =~= Seq::<EntryView>::empty().push(member));
    lemma_occurrences_push(Seq::empty(), member, name);
}

/// Adding a script keeps what was there and, where the script is enabled,
/// adds one member under the script's name.
proof fn lemma_with_script(
    members: Seq<EntryView>,
    script: FileOrPathView,
    name: Seq<char>,
    file: Option<Seq<u8>>,
    other: Seq<char>,
)
    ensures
        with_script(Ok(members), script, name, file) matches Ok(extended) ==> {
            &&& occurrences(extended, other) == occurrences(members, other) + if script.enabled
                && name == other {
                1nat
            } else {
                0nat
            }
            &&& extended.len() >= members.len()
            &&& forall|i: int| 0 <= i < members.len() ==> extended[i] == members[i]
            &&& forall|i: int|
                members.len() <= i < extended.len() ==> (#[trigger] extended[i]).name == name
                    && extended[i].header.mode == script_mode(script)
        },
{
    if script.enabled {
        match resolve_model(script, name, true, file) {
            Ok(member) => {
                lemma_occurrences_push(members, member, other);
            },
            Err(_) => {},
        }
    }
}

/// Unpacking `control` from the metadata archive gives back the text of the
/// control file, byte for byte in UTF-8, where the control file comes from
/// the text. The member stands first, alone under its name, with the
/// default mode.
pub proof fn control_text_round_trips(data: IpkBuilderView, files: ControlFilesView)
    requires
        !data.control_file.from_path(),
    ensures
        control_members_model(data, files) matches Ok(members) ==> {
            &&& extract(members, control_name()) == Some(encode_utf8(data.control_file.from_textbox))
            &&& members[0] == EntryView::plain(
                control_name(),
                encode_utf8(data.control_file.from_textbox),
            )
            &&& occurrences(members, control_name()) == 1
        },
{
    control_names_differ();
    let control = resolve_model(data.control_file, control_name(), false, files.control);
    let member = control->Ok_0;
    let zero = seq![member];
    lemma_occurrences_one(member, control_name());
    let first = with_script(Ok(zero), data.postinst, postinst_name(), files.postinst);
    lemma_with_script(zero, data.postinst, postinst_name(), files.postinst, control_name());
    if let Ok(one) = first {
        let second = with_script(first, data.preinst, preinst_name(), files.preinst);
        lemma_with_script(one, data.preinst, preinst_name(), files.preinst, control_name());
        if let Ok(two) = second {
            lemma_with_script(two, data.prerm, prerm_name(), files.prerm, control_name());
        }
    }
}

/// A maintainer script is in the metadata archive exactly when it is
/// enabled: once where it is, not at all where it is not. The control file is
/// there once in either case. A script that comes from the text can be run;
/// one that comes from a file keeps the default mode.
pub proof fn scripts_follow_their_switches(data: IpkBuilderView, files: ControlFilesView)
    ensures
        control_members_model(data, files) matches Ok(members) ==> {
            &&& occurrences(members, control_name()) == 1
            &&& occurrences(members, postinst_name()) == if data.postinst.enabled {
                1nat
            } else {
                0nat
            }
            &&& occurrences(members, preinst_name()) == if data.preinst.enabled {
                1nat
            } else {
                0nat
            }
            &&& occurrences(members, prerm_name()) == if data.prerm.enabled {
                1nat
            } else {
                0nat
            }
            &&& forall|i: int|
                0 <= i < members.len() && (#[trigger] members[i]).name == postinst_name()
                    ==> members[i].header.mode == script_mode(data.postinst)
            &&& forall|i: int|
                0 <= i < members.len() && (#[trigger] members[i]).name == preinst_name()
                    ==> members[i].header.mode == script_mode(data.preinst)
            &&& forall|i: int|
                0 <= i < members.len() && (#[trigger] members[i]).name == prerm_name()
                    ==> members[i].header.mode == script_mode(data.prerm)
        },
{
    control_names_differ();
    let control = resolve_model(data.control_file, control_name(), false, files.control);
    if let Ok(member) = control {
        let zero = seq![member];
        lemma_occurrences_one(member, control_name());
        lemma_occurrences_one(member, postinst_name());
        lemma_occurrences_one(member, preinst_name());
        lemma_occurrences_one(member, prerm_name());
        let first = with_script(Ok(zero), data.postinst, postinst_name(), files.postinst);
        lemma_with_script(zero, data.postinst, postinst_name(), files.postinst, control_name());
        lemma_with_script(zero, data.postinst, postinst_name(), files.postinst, postinst_name());
        lemma_with_script(zero, data.postinst, postinst_name(), files.postinst, preinst_name());
        lemma_with_script(zero, data.postinst, postinst_name(), files.postinst, prerm_name());
        if let Ok(one) = first {
            let second = with_script(first, data.preinst, preinst_name(), files.preinst);
            lemma_with_script(one, data.preinst, preinst_name(), files.preinst, control_name());
            lemma_with_script(one, data.preinst, preinst_name(), files.preinst, postinst_name());
            lemma_with_script(one, data.preinst, preinst_name(), files.preinst, preinst_name());
            lemma_with_script(one, data.preinst, preinst_name(), files.preinst, prerm_name());
            if let Ok(two) = second {
                lemma_with_script(two, data.prerm, prerm_name(), files.prerm, control_name());
                lemma_with_script(two, data.prerm, prerm_name(), files.prerm, postinst_name());
                lemma_with_script(two, data.prerm, prerm_name(), files.prerm, preinst_name());
                lemma_with_script(two, data.prerm, prerm_name(), files.prerm, prerm_name());
            }
        }
    }
}

/// The three names inside the package differ from one another.
pub proof fn package_names_differ()
    ensures
        OutputFile::ControlArchive.name() != OutputFile::DataArchive.name(),
        OutputFile::ControlArchive.name() != marker_name(),
        OutputFile::DataArchive.name() != marker_name(),
{
    reveal_strlit("control.tar.gz");
    reveal_strlit("data.tar.gz");
    reveal_strlit("debian_binary");
    assert(OutputFile::ControlArchive.name().len() == 14);
    assert(OutputFile::DataArchive.name().len() == 11);
    assert(marker_name().len() == 13);
}

/// The package lists `control.tar.gz`, `data.tar.gz` and `debian_binary`,
/// in this order and nothing else. The first two hold the bytes that were
/// read back; none of this depends on which scripts are enabled, which the
/// package's members do not even look at.
pub proof fn package_order_is_fixed(
    control_archive: Seq<u8>,
    data_archive: Seq<u8>,
    marker: FileOrPathView,
    marker_file: Option<Seq<u8>>,
)
    ensures
        package_members_model(control_archive, data_archive, marker, marker_file) matches Ok(
            members,
        ) ==> {
            &&& names(members) == seq![
                OutputFile::ControlArchive.name(),
                OutputFile::DataArchive.name(),
                marker_name(),
            ]
            &&& members[0].data == control_archive
            &&& members[1].data == data_archive
            &&& members[2].header.mode == script_mode(marker)
        },
{
    if let Ok(members) = package_members_model(control_archive, data_archive, marker, marker_file) {
        assert(names(members) =~= seq![
            OutputFile::ControlArchive.name(),
            OutputFile::DataArchive.name(),
            marker_name(),
        ]);
    }
}

} // verus!
