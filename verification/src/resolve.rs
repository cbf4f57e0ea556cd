//! Turns one entry of the form into a member of an archive.

use crate::archive::{ArchiveEntry, EntryView};
use crate::error::{BuildError, BuildErrorView};
use crate::header::{header_from_buf, header_from_file, unreadable, EXECUTABLE_MODE};
use crate::ui::{FileOrPath, FileOrPathView, ScriptSource};
use vstd::prelude::*;
use vstd::slice::slice_to_vec;
use vstd::string::*;
use vstd::utf8::encode_utf8;

verus! {

/// The error for an entry that is to be read from a file when no file was
/// picked.
pub open spec fn unpicked(name: Seq<char>) -> BuildErrorView {
    BuildErrorView::NoSourceFile { entry: name }
}

/// The view of what reading a file gave.
pub open spec fn content_view(file: Option<Vec<u8>>) -> Option<Seq<u8>> {
    match file {
        Some(bytes) => Some(bytes@),
        None => None,
    }
}

/// What `resolve` makes of an entry.
///
/// An entry that comes from a file keeps the default mode, whatever its
/// role; one that comes from the text is made runnable where `force` asks
/// for it.
pub open spec fn resolve_model(
    entry: FileOrPathView,
    name: Seq<char>,
    force: bool,
    file: Option<Seq<u8>>,
) -> Result<EntryView, BuildErrorView> {
    if entry.from_path() {
        match entry.picked_path {
            None => Err(unpicked(name)),
            Some(path) => match file {
                None => Err(unreadable(path)),
                Some(bytes) => Ok(EntryView::plain(name, bytes)),
            },
        }
    } else {
        let bytes = encode_utf8(entry.from_textbox);
        if force {
            Ok(EntryView::runnable(name, bytes))
        } else {
            Ok(EntryView::plain(name, bytes))
        }
    }
}

/// The member that stands for `entry` under the name `archive_name`.
///
/// `file` is what reading the picked file gave, `None` where it could not
/// be opened or read; an entry that comes from the text does not look at it.
pub fn resolve(
    entry: &FileOrPath,
    archive_name: &str,
    force_executable_if_inline: bool,
    file: Option<Vec<u8>>,
) -> (outcome: Result<ArchiveEntry, BuildError>)
    ensures
        match resolve_model(
            entry@,
            archive_name@,
            force_executable_if_inline,
            content_view(file),
        ) {
            Ok(member) => outcome matches Ok(found) && found@ == member,
            Err(error) => outcome matches Err(e) && e@ == error,
        },
        outcome matches Ok(found) ==> found@.well_formed(),
{
    match entry.file_or_text {
        ScriptSource::FromPath => match &entry.picked_path {
            None => Err(BuildError::NoSourceFile { entry: String::from_str(archive_name) }),
            Some(path) => match header_from_file(path.as_str(), file) {
                Ok(pair) => Ok(
                    ArchiveEntry {
                        name: String::from_str(archive_name),
                        header: pair.0,
                        data: pair.1,
                    },
                ),
                Err(e) => Err(e),
            },
        },
        ScriptSource::FromTextfield => {
            let text = entry.from_textbox.as_str().as_bytes();
            let mut header = header_from_buf(text);
            if force_executable_if_inline {
                header.set_mode(EXECUTABLE_MODE);
                header.set_cksum();
            }
            Ok(ArchiveEntry { name: String::from_str(archive_name), header, data: slice_to_vec(text) })
        },
    }
}

} // verus!
