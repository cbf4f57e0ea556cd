//! A model of the files that a build works on, for stating what a whole
//! build does to them.
//!
//! The model is a disk that does what it is asked: a file that exists can
//! be read, a file of the build can always be written, and removing a file
//! fails only where there is none. The picked files and the data directory
//! lie outside the output directory, so no step of a build changes them.

use crate::assembler::{advance_model, start_model, ActionView, EventView, ProgressView};
use crate::error::{LocationView, OutputFile};
use crate::ui::IpkBuilderView;
use vstd::prelude::*;

verus! {

/// The files that matter to one build.
pub struct Disk {
    /// The files that can be picked, by their paths.
    pub picked: Map<Seq<char>, Seq<u8>>,
    /// Those of the build's own files that exist in the output directory.
    pub output: Map<OutputFile, Seq<u8>>,
    /// What archiving the data directory gives, `None` where the directory
    /// cannot be archived.
    pub tree: Option<Seq<u8>>,
}

impl Disk {
    /// The disk with one more file in the output directory, or with the
    /// file's content replaced.
    pub open spec fn with_output(self, file: OutputFile, content: Seq<u8>) -> Disk {
        Disk { output: self.output.insert(file, content), ..self }
    }

    /// The disk without the file in the output directory.
    pub open spec fn without_output(self, file: OutputFile) -> Disk {
        Disk { output: self.output.remove(file), ..self }
    }
}

/// What reading a file gives.
pub open spec fn read_model(from: LocationView, disk: Disk) -> EventView {
    match from {
        LocationView::Picked { path } => if disk.picked.contains_key(path) {
            EventView::Content { bytes: disk.picked[path] }
        } else {
            EventView::Missing
        },
        LocationView::Output { directory, file } => if disk.output.contains_key(file) {
            EventView::Content { bytes: disk.output[file] }
        } else {
            EventView::Missing
        },
    }
}

/// What performing an action gives, and the disk after it.
pub open spec fn perform_model(action: ActionView, disk: Disk) -> (EventView, Disk) {
    match action {
        ActionView::Read { from } => (read_model(from, disk), disk),
        ActionView::Write { to, content } => match to {
            LocationView::Output { directory, file } => (
                EventView::Done,
                disk.with_output(file, content),
            ),
            LocationView::Picked { path } => (EventView::Failed, disk),
        },
        ActionView::ArchiveTree { root, to } => match (disk.tree, to) {
            (Some(bytes), LocationView::Output { directory, file }) => (
                EventView::Done,
                disk.with_output(file, bytes),
            ),
            _ => (EventView::Failed, disk),
        },
        ActionView::Remove { at } => match at {
            LocationView::Output { directory, file } => if disk.output.contains_key(file) {
                (EventView::Done, disk.without_output(file))
            } else {
                (EventView::Missing, disk)
            },
            LocationView::Picked { path } => (EventView::Failed, disk),
        },
    }
}

/// Where a build stands, and the disk, once at most `turns` actions were
/// performed and reported.
pub open spec fn run_model(progress: ProgressView, disk: Disk, turns: nat) -> (ProgressView, Disk)
    decreases turns,
{
    match progress {
        ProgressView::Pending { build, action } if turns > 0 => {
            let (event, after) = perform_model(action, disk);
            run_model(advance_model(build, event), after, (turns - 1) as nat)
        },
        _ => (progress, disk),
    }
}

/// How a build from `data` ends on `disk`, and the disk it leaves. No build
/// takes more than thirteen actions.
pub open spec fn build_model(data: IpkBuilderView, disk: Disk) -> (ProgressView, Disk) {
    run_model(start_model(data), disk, 13)
}

} // verus!
