//! What holds of a build as a whole: of each of its turns, and of what it
//! does to the files it works on.

use crate::archive::{archive_encoding, EntryView};
use crate::assembler::{
    absorb_model, accepted, advance_model, applies, arrive_model, emit_model, landing,
    lemma_arrive_lands, missing_model, start_model, subject_model, ActionView, BuildView,
    EventView, ProgressView, Step,
};
use crate::control::{control_archive_model, ControlFilesView};
use crate::disk::{build_model, perform_model, run_model, Disk};
use crate::error::{BuildErrorView, EncodeFault, LocationView, OutputFile, Stage};
use crate::header::unreadable;
use crate::laws::members::{names, package_order_is_fixed};
use crate::package::{marker_name, package_archive_model, package_members_model};
use crate::ui::{FileOrPathView, IpkBuilderView};
use vstd::prelude::*;

verus! {

/// The location is this file of the build, in whatever directory.
pub open spec fn is_output(at: LocationView, file: OutputFile) -> bool {
    at matches LocationView::Output { file: found, .. } && found == file
}

/// The action is the one that belongs to the step: its kind, and the file
/// it works on.
pub open spec fn fits(step: Step, action: ActionView) -> bool {
    match step {
        Step::WriteControlArchive => action matches ActionView::Write { to, .. } && is_output(
            to,
            OutputFile::ControlArchive,
        ),
        Step::ArchiveData => action matches ActionView::ArchiveTree { to, .. } && is_output(
            to,
            OutputFile::DataArchive,
        ),
        Step::RemoveStalePackage => action matches ActionView::Remove { at } && is_output(
            at,
            OutputFile::Package,
        ),
        Step::ReadControlArchive => action matches ActionView::Read { from } && is_output(
            from,
            OutputFile::ControlArchive,
        ),
        Step::ReadDataArchive => action matches ActionView::Read { from } && is_output(
            from,
            OutputFile::DataArchive,
        ),
        Step::WritePackage => action matches ActionView::Write { to, .. } && is_output(
            to,
            OutputFile::Package,
        ),
        Step::RemoveControlArchive => action matches ActionView::Remove { at } && is_output(
            at,
            OutputFile::ControlArchive,
        ),
        Step::RemoveDataArchive => action matches ActionView::Remove { at } && is_output(
            at,
            OutputFile::DataArchive,
        ),
        _ => action matches ActionView::Read { from } && from is Picked,
    }
}

/// The file that the action works on.
pub open spec fn target(action: ActionView) -> LocationView {
    match action {
        ActionView::Read { from } => from,
        ActionView::Write { to, .. } => to,
        ActionView::ArchiveTree { to, .. } => to,
        ActionView::Remove { at } => at,
    }
}

/// A build waits only with the action that belongs to its step, on the
/// file that the step works on.
pub proof fn lemma_emit_fits(build: BuildView, step: Step)
    ensures
        emit_model(build, step) matches ProgressView::Pending { build: waiting, action } ==> {
            &&& waiting.step == step
            &&& waiting.data == build.data
            &&& fits(step, action)
            &&& subject_model(build.data, step) == Ok::<LocationView, BuildErrorView>(
                target(action),
            )
        },
{
}

/// Past an accepted outcome a build reaches the next step and begins the
/// one where it lands: the first from there on that is part of it, with
/// that step's action.
pub proof fn lemma_turn_lands(build: BuildView, event: EventView)
    ensures
        build.step.successor() matches Some(after) ==> {
            let taken = absorb_model(build, event);
            let landed = landing(build.data, after);
            &&& taken.data == build.data
            &&& landed.rank() >= after.rank()
            &&& applies(build.data, landed)
            &&& arrive_model(taken, after) == emit_model(taken, landed)
            &&& forall|between: Step|
                after.rank() <= between.rank() < landed.rank() ==> !applies(build.data, between)
            &&& emit_model(taken, landed) matches ProgressView::Pending { build: waiting, action }
                ==> waiting.step == landed && waiting.data == build.data && fits(landed, action)
        },
{
    if let Some(after) = build.step.successor() {
        let taken = absorb_model(build, event);
        lemma_arrive_lands(taken, after);
        lemma_emit_fits(taken, landing(taken.data, after));
    }
}

/// A build only moves forward: whatever is reported to it, the step it
/// waits at next comes later in the order than the one it waited at, and it
/// goes on with the values it was given. No step is ever tried again.
pub proof fn a_build_only_moves_forward(build: BuildView, event: EventView)
    ensures
        advance_model(build, event) matches ProgressView::Pending { build: waiting, action }
            ==> {
            &&& waiting.step.rank() > build.step.rank()
            &&& waiting.data == build.data
            &&& fits(waiting.step, action)
            &&& accepted(build.step, event)
        },
{
    lemma_turn_lands(build, event);
}

/// A build begins with the first step that is part of it, which is the
/// writing of the metadata archive at the latest; or it fails before any
/// action where a value is missing.
pub proof fn a_build_begins_at_its_first_step(data: IpkBuilderView)
    ensures
        match start_model(data) {
            ProgressView::Pending { build, action } => {
                &&& missing_model(data) is None
                &&& build.step == landing(data, Step::ReadControl)
                &&& build.step.rank() <= Step::WriteControlArchive.rank()
                &&& build.data == data
                &&& fits(build.step, action)
            },
            ProgressView::Finished { .. } => false,
            ProgressView::Failed { stage, .. } => missing_model(data) is Some ==> stage
                == Stage::Validation,
        },
{
    let fresh = BuildView::fresh(data);
    lemma_arrive_lands(fresh, Step::ReadControl);
    lemma_emit_fits(fresh, landing(data, Step::ReadControl));
    assert(applies(data, Step::WriteControlArchive));
}

/// Whenever a build asks for the metadata archive to be written, it is into
/// `control.tar.gz` in the output directory, and what it hands over is the
/// archive of the control file and the enabled scripts as they were read.
pub proof fn a_build_writes_the_control_archive(build: BuildView, event: EventView)
    ensures
        advance_model(build, event) matches ProgressView::Pending { build: waiting, action }
            ==> waiting.step == Step::WriteControlArchive ==> {
            &&& action matches ActionView::Write { to, content }
            &&& build.data.output_path matches Some(directory)
            &&& to == (LocationView::Output { directory, file: OutputFile::ControlArchive })
            &&& control_archive_model(build.data, absorb_model(build, event).files) == Ok::<
                Seq<u8>,
                BuildErrorView,
            >(content)
        },
{
    lemma_turn_lands(build, event);
}

/// Whenever a build asks for the package to be written, it is into
/// `outpackage.ipk` in the output directory, and what it hands over is the
/// archive of three members named `control.tar.gz`, `data.tar.gz` and
/// `debian_binary`, in this order, whichever scripts are enabled. The first
/// two hold the bytes of the intermediate files as they were read back.
pub proof fn a_build_writes_the_package_in_order(build: BuildView, event: EventView)
    ensures
        advance_model(build, event) matches ProgressView::Pending { build: waiting, action }
            ==> waiting.step == Step::WritePackage ==> {
            &&& action matches ActionView::Write { to, content }
            &&& build.data.output_path matches Some(directory)
            &&& to == (LocationView::Output { directory, file: OutputFile::Package })
            &&& exists|members: Seq<EntryView>|
                {
                    &&& #[trigger] names(members) == seq![
                        OutputFile::ControlArchive.name(),
                        OutputFile::DataArchive.name(),
                        marker_name(),
                    ]
                    &&& absorb_model(build, event).control_archive == Some(members[0].data)
                    &&& absorb_model(build, event).data_archive == Some(members[1].data)
                    &&& archive_encoding(members) == Ok::<Seq<u8>, EncodeFault>(content)
                }
        },
{
    lemma_turn_lands(build, event);
    if let Some(after) = build.step.successor() {
        let taken = absorb_model(build, event);
        if let ProgressView::Pending { build: waiting, action } = advance_model(build, event) {
            if waiting.step == Step::WritePackage {
                let control = taken.control_archive->Some_0;
                let tree = taken.data_archive->Some_0;
                let found = package_members_model(
                    control,
                    tree,
                    taken.data.debian_binary,
                    taken.marker_file,
                );
                package_order_is_fixed(control, tree, taken.data.debian_binary, taken.marker_file);
                assert(found is Ok);
                let members = found->Ok_0;
                assert(names(members) == seq![
                    OutputFile::ControlArchive.name(),
                    OutputFile::DataArchive.name(),
                    marker_name(),
                ]);
            }
        }
    }
}

/// Two disks look alike to a build that waits at `step`: they hold the same
/// picked files and the same data directory, and of the build's own files
/// each one that an earlier step has written or removed is the same on
/// both.
pub open spec fn alike(first: Disk, second: Disk, step: Step) -> bool {
    let rank = step.rank();
    &&& first.picked == second.picked
    &&& first.tree == second.tree
    &&& 5 <= rank <= 11 ==> same_file(first, second, OutputFile::ControlArchive)
    &&& 12 <= rank ==> neither_has(first, second, OutputFile::ControlArchive)
    &&& 6 <= rank ==> same_file(first, second, OutputFile::DataArchive)
    &&& 7 <= rank <= 10 ==> neither_has(first, second, OutputFile::Package)
    &&& 11 <= rank ==> same_file(first, second, OutputFile::Package)
}

/// Both disks hold the file, with the same content.
pub open spec fn same_file(first: Disk, second: Disk, file: OutputFile) -> bool {
    &&& first.output.contains_key(file)
    &&& second.output.contains_key(file)
    &&& first.output[file] == second.output[file]
}

/// Neither disk holds the file.
pub open spec fn neither_has(first: Disk, second: Disk, file: OutputFile) -> bool {
    !first.output.contains_key(file) && !second.output.contains_key(file)
}

/// The output directory holds the package and nothing else of the build.
pub open spec fn only_the_package(disk: Disk) -> bool {
    &&& disk.output.contains_key(OutputFile::Package)
    &&& !disk.output.contains_key(OutputFile::ControlArchive)
    &&& !disk.output.contains_key(OutputFile::DataArchive)
}

/// Two disks look alike to a build that stands at `progress`.
pub open spec fn alike_at(progress: ProgressView, first: Disk, second: Disk) -> bool {
    &&& first.picked == second.picked
    &&& first.tree == second.tree
    &&& match progress {
        ProgressView::Pending { build, action } => fits(build.step, action) && alike(
            first,
            second,
            build.step,
        ),
        ProgressView::Finished { .. } => only_the_package(first) && first.output
            == second.output,
        ProgressView::Failed { .. } => true,
    }
}

/// One action on two disks that look alike leads the build to the same
/// place, on disks that still look alike.
proof fn lemma_one_turn(build: BuildView, action: ActionView, first: Disk, second: Disk)
    requires
        fits(build.step, action),
        alike(first, second, build.step),
    ensures
        ({
            let one = perform_model(action, first);
            let two = perform_model(action, second);
            let next = advance_model(build, one.0);
            &&& advance_model(build, two.0) == next
            &&& alike_at(next, one.1, two.1)
            &&& one.1.picked == first.picked
            &&& one.1.tree == first.tree
            &&& next matches ProgressView::Pending { build: waiting, .. } ==> waiting.step.rank()
                > build.step.rank()
        }),
{
    let one = perform_model(action, first);
    let two = perform_model(action, second);
    let next = advance_model(build, one.0);
    assert(accepted(build.step, one.0) == accepted(build.step, two.0));
    assert(accepted(build.step, one.0) ==> absorb_model(build, one.0) == absorb_model(
        build,
        two.0,
    ));
    if subject_model(build.data, build.step) is Ok && accepted(build.step, one.0) {
        match build.step.successor() {
            Some(after) => {
                let taken = absorb_model(build, one.0);
                lemma_turn_lands(build, one.0);
                assert(applies(taken.data, Step::WriteControlArchive));
                assert(applies(taken.data, Step::ArchiveData));
                assert(applies(taken.data, Step::RemoveStalePackage));
                assert(applies(taken.data, Step::ReadControlArchive));
                assert(applies(taken.data, Step::ReadDataArchive));
                assert(applies(taken.data, Step::WritePackage));
                assert(applies(taken.data, Step::RemoveControlArchive));
                assert(applies(taken.data, Step::RemoveDataArchive));
            },
            None => {
                assert(one.1.output =~= two.1.output);
            },
        }
    }
}

/// A whole run on two disks that look alike ends in the same place, on
/// disks that still look alike; and it does end.
proof fn lemma_runs_alike(progress: ProgressView, first: Disk, second: Disk, turns: nat)
    requires
        alike_at(progress, first, second),
        progress matches ProgressView::Pending { build, .. } ==> turns + build.step.rank() >= 13,
    ensures
        ({
            let one = run_model(progress, first, turns);
            let two = run_model(progress, second, turns);
            &&& one.0 == two.0
            &&& !(one.0 is Pending)
            &&& alike_at(one.0, one.1, two.1)
            &&& one.1.picked == first.picked
            &&& one.1.tree == first.tree
        }),
    decreases turns,
{
    match progress {
        ProgressView::Pending { build, action } => {
            lemma_one_turn(build, action, first, second);
            let one = perform_model(action, first);
            let two = perform_model(action, second);
            lemma_runs_alike(advance_model(build, one.0), one.1, two.1, (turns - 1) as nat);
        },
        _ => {},
    }
}

/// A build begins alike on any two disks that hold the same picked files
/// and the same data directory.
proof fn lemma_start_alike(data: IpkBuilderView, first: Disk, second: Disk)
    requires
        first.picked == second.picked,
        first.tree == second.tree,
    ensures
        alike_at(start_model(data), first, second),
{
    a_build_begins_at_its_first_step(data);
}

/// Every build ends, finished or failed, within its thirteen actions, and
/// leaves the picked files and the data directory as they were.
pub proof fn every_build_ends(data: IpkBuilderView, disk: Disk)
    ensures
        !(build_model(data, disk).0 is Pending),
        build_model(data, disk).1.picked == disk.picked,
        build_model(data, disk).1.tree == disk.tree,
{
    lemma_start_alike(data, disk, disk);
    lemma_runs_alike(start_model(data), disk, disk, 13);
}

/// A build that finishes leaves the package in the output directory and
/// neither intermediate archive, whatever the directory held before. A
/// second build from the same values then finishes too, with the same
/// package, and leaves the disk as the first one left it.
pub proof fn rebuilding_changes_nothing(data: IpkBuilderView, disk: Disk)
    ensures
        ({
            let once = build_model(data, disk);
            let twice = build_model(data, once.1);
            once.0 is Finished ==> only_the_package(once.1) && twice == once
        }),
{
    let once = build_model(data, disk);
    lemma_start_alike(data, disk, disk);
    lemma_runs_alike(start_model(data), disk, disk, 13);
    lemma_start_alike(data, disk, once.1);
    lemma_runs_alike(start_model(data), disk, once.1, 13);
    let twice = build_model(data, once.1);
    if once.0 is Finished {
        assert(twice.1.output == once.1.output);
        assert(twice.1 == once.1);
    }
}

/// What a build leaves does not depend on what the output directory held
/// before: a package of an earlier build, or archives that one left behind,
/// change neither how the build ends nor, where it finishes, what it
/// leaves.
pub proof fn earlier_files_do_not_matter(data: IpkBuilderView, first: Disk, second: Disk)
    requires
        first.picked == second.picked,
        first.tree == second.tree,
    ensures
        build_model(data, first).0 == build_model(data, second).0,
        build_model(data, first).0 is Finished ==> build_model(data, first).1 == build_model(
            data,
            second,
        ).1,
{
    lemma_start_alike(data, first, second);
    lemma_runs_alike(start_model(data), first, second, 13);
    lemma_start_alike(data, second, second);
    lemma_runs_alike(start_model(data), second, second, 13);
}

/// The package in the output directory is on `now` what it was on `then`:
/// absent on both, or there with the same content.
pub open spec fn same_package(then: Disk, now: Disk) -> bool {
    let file = OutputFile::Package;
    &&& then.output.contains_key(file) == now.output.contains_key(file)
    &&& then.output.contains_key(file) ==> then.output[file] == now.output[file]
}

/// The stage comes before the final assembly.
pub open spec fn early(stage: Stage) -> bool {
    stage == Stage::Validation || stage == Stage::ControlArchive || stage == Stage::DataArchive
}

/// A build has not touched the package while it has not reached the final
/// assembly.
pub open spec fn package_kept(progress: ProgressView, then: Disk, now: Disk) -> bool {
    match progress {
        ProgressView::Pending { build, action } => fits(build.step, action) && (
        build.step.rank() <= Step::RemoveStalePackage.rank() ==> same_package(then, now)),
        ProgressView::Finished { .. } => true,
        ProgressView::Failed { stage, .. } => early(stage) ==> same_package(then, now),
    }
}

proof fn lemma_package_kept(progress: ProgressView, then: Disk, now: Disk, turns: nat)
    requires
        package_kept(progress, then, now),
    ensures
        package_kept(run_model(progress, now, turns).0, then, run_model(progress, now, turns).1),
    decreases turns,
{
    match progress {
        ProgressView::Pending { build, action } if turns > 0 => {
            let turn = perform_model(action, now);
            let next = advance_model(build, turn.0);
            a_build_only_moves_forward(build, turn.0);
            lemma_turn_lands(build, turn.0);
            assert(package_kept(next, then, turn.1));
            lemma_package_kept(next, then, turn.1, (turns - 1) as nat);
        },
        _ => {},
    }
}

/// A build that fails before the final assembly has not touched the package
/// of an earlier build: it is still there, with the content it had, or
/// there is still none.
pub proof fn early_failure_keeps_the_older_package(data: IpkBuilderView, disk: Disk)
    ensures
        build_model(data, disk).0 matches ProgressView::Failed { stage, .. } ==> early(stage)
            ==> same_package(disk, build_model(data, disk).1),
{
    a_build_begins_at_its_first_step(data);
    lemma_package_kept(start_model(data), disk, disk, 13);
}

/// A control file that cannot be read ends the build in failure before
/// anything is written: the disk is left exactly as it was, with no new
/// package and no intermediate archive. Where all values were given, the
/// failure is the one of reading that file, in the first stage.
pub proof fn unreadable_control_file_changes_nothing(data: IpkBuilderView, disk: Disk)
    requires
        data.control_file.from_path(),
        data.control_file.picked_path matches Some(path) ==> !disk.picked.contains_key(path),
    ensures
        build_model(data, disk).0 is Failed,
        build_model(data, disk).1 == disk,
        missing_model(data) is None ==> build_model(data, disk).0 == (ProgressView::Failed {
            stage: Stage::ControlArchive,
            error: unreadable(data.control_file.picked_path->Some_0),
        }),
{
    if missing_model(data) is None {
        let fresh = BuildView::fresh(data);
        let path = data.control_file.picked_path->Some_0;
        assert(applies(data, Step::ReadControl));
        assert(arrive_model(fresh, Step::ReadControl) == emit_model(fresh, Step::ReadControl));
        let started = start_model(data);
        assert(started is Pending);
        let build = started->Pending_build;
        let action = started->Pending_action;
        assert(action == ActionView::Read { from: LocationView::Picked { path } });
        let turn = perform_model(action, disk);
        assert(turn.0 == EventView::Missing);
        assert(turn.1 == disk);
        let ended = advance_model(build, turn.0);
        assert(ended is Failed);
        assert(run_model(ended, disk, 12) == (ended, disk));
        assert(run_model(started, disk, 13) == run_model(ended, disk, 12));
    } else {
        assert(run_model(start_model(data), disk, 13) == (start_model(data), disk));
    }
}

/// What reading an entry's picked file gives on the disk, `None` where the
/// entry's file is not read or is not there.
pub open spec fn picked_on(entry: FileOrPathView, read: bool, disk: Disk) -> Option<Seq<u8>> {
    match entry.picked_path {
        Some(path) if read && disk.picked.contains_key(path) => Some(disk.picked[path]),
        _ => None,
    }
}

/// What a build reads for the metadata archive on the disk.
pub open spec fn control_files_on(data: IpkBuilderView, disk: Disk) -> ControlFilesView {
    ControlFilesView {
        control: picked_on(data.control_file, applies(data, Step::ReadControl), disk),
        postinst: picked_on(data.postinst, applies(data, Step::ReadPostinst), disk),
        preinst: picked_on(data.preinst, applies(data, Step::ReadPreinst), disk),
        prerm: picked_on(data.prerm, applies(data, Step::ReadPrerm), disk),
    }
}

/// What a build reads for the version marker on the disk.
pub open spec fn marker_file_on(data: IpkBuilderView, disk: Disk) -> Option<Seq<u8>> {
    picked_on(data.debian_binary, applies(data, Step::ReadDebianBinary), disk)
}

/// The disk holds every picked file that the build reads, and the data
/// directory can be archived.
pub open spec fn willing(data: IpkBuilderView, disk: Disk) -> bool {
    &&& disk.tree is Some
    &&& applies(data, Step::ReadControl) ==> control_files_on(data, disk).control is Some
    &&& applies(data, Step::ReadPostinst) ==> control_files_on(data, disk).postinst is Some
    &&& applies(data, Step::ReadPreinst) ==> control_files_on(data, disk).preinst is Some
    &&& applies(data, Step::ReadPrerm) ==> control_files_on(data, disk).prerm is Some
    &&& applies(data, Step::ReadDebianBinary) ==> marker_file_on(data, disk) is Some
}

/// The bytes of the package that a build from `data` makes on `disk`, where
/// both archives can be encoded.
pub open spec fn package_on(data: IpkBuilderView, disk: Disk) -> Option<Seq<u8>> {
    match (control_archive_model(data, control_files_on(data, disk)), disk.tree) {
        (Ok(control), Some(tree)) => match package_archive_model(
            control,
            tree,
            data.debian_binary,
            marker_file_on(data, disk),
        ) {
            Ok(package) => Some(package),
            Err(_) => None,
        },
        _ => None,
    }
}

/// What a build has read for the metadata archive when it waits at a step
/// of the given rank.
pub open spec fn files_before(data: IpkBuilderView, disk: Disk, rank: nat) -> ControlFilesView {
    let all = control_files_on(data, disk);
    if rank >= 4 {
        ControlFilesView::none()
    } else {
        ControlFilesView {
            control: if rank > 0 {
                all.control
            } else {
                None
            },
            postinst: if rank > 1 {
                all.postinst
            } else {
                None
            },
            preinst: if rank > 2 {
                all.preinst
            } else {
                None
            },
            prerm: None,
        }
    }
}

/// The disk `now` holds what the steps before the given rank have written
/// on the way to the package `package`, and the picked files and the data
/// directory as they were on `then`.
pub open spec fn disk_on_course(
    data: IpkBuilderView,
    then: Disk,
    package: Seq<u8>,
    rank: nat,
    now: Disk,
) -> bool {
    let control = control_archive_model(data, control_files_on(data, then))->Ok_0;
    let tree = then.tree->Some_0;
    &&& now.picked == then.picked
    &&& now.tree == then.tree
    &&& 5 <= rank <= 11 ==> now.output.contains_key(OutputFile::ControlArchive)
        && now.output[OutputFile::ControlArchive] == control
    &&& 12 <= rank ==> !now.output.contains_key(OutputFile::ControlArchive)
    &&& 6 <= rank ==> now.output.contains_key(OutputFile::DataArchive)
        && now.output[OutputFile::DataArchive] == tree
    &&& 11 <= rank ==> now.output.contains_key(OutputFile::Package)
        && now.output[OutputFile::Package] == package
}

/// The build is on its way to the package `package` on a willing disk
/// `then`: it waits at a step that is part of it, holds what the steps
/// before have read, and the disk `now` holds what they have written.
pub open spec fn on_course(
    data: IpkBuilderView,
    then: Disk,
    package: Seq<u8>,
    build: BuildView,
    action: ActionView,
    now: Disk,
) -> bool {
    let rank = build.step.rank();
    let control = control_archive_model(data, control_files_on(data, then))->Ok_0;
    &&& build.data == data
    &&& applies(data, build.step)
    &&& fits(build.step, action)
    &&& subject_model(data, build.step) == Ok::<LocationView, BuildErrorView>(target(action))
    &&& disk_on_course(data, then, package, rank, now)
    &&& build.files == files_before(data, then, rank)
    &&& build.control_archive == if rank == 8 || rank == 9 {
        Some(control)
    } else {
        None
    }
    &&& build.data_archive == if rank == 9 {
        then.tree
    } else {
        None
    }
    &&& build.marker_file is None
    &&& rank == 4 ==> action is Write && action->Write_content == control
    &&& rank == 10 ==> action is Write && action->Write_content == package
}

/// The build reaches `step` on its way: it holds what the steps before have
/// read, not yet given up, and the disk holds what they have written.
pub open spec fn reaching(
    data: IpkBuilderView,
    then: Disk,
    package: Seq<u8>,
    taken: BuildView,
    step: Step,
    now: Disk,
) -> bool {
    let rank = step.rank();
    let control = control_archive_model(data, control_files_on(data, then))->Ok_0;
    &&& taken.data == data
    &&& applies(data, step)
    &&& disk_on_course(data, then, package, rank, now)
    &&& taken.files == if rank == 4 {
        control_files_on(data, then)
    } else {
        files_before(data, then, rank)
    }
    &&& taken.control_archive == if 8 <= rank <= 10 {
        Some(control)
    } else {
        None
    }
    &&& taken.data_archive == if 9 <= rank <= 10 {
        then.tree
    } else {
        None
    }
    &&& taken.marker_file == if rank == 10 {
        marker_file_on(data, then)
    } else {
        None
    }
}

/// The build has finished with the package `package` in the output
/// directory, and nothing else of its own there.
pub open spec fn arrived(
    data: IpkBuilderView,
    package: Seq<u8>,
    end: ProgressView,
    now: Disk,
) -> bool {
    &&& data.output_path matches Some(directory)
    &&& end == (ProgressView::Finished {
        package: LocationView::Output { directory, file: OutputFile::Package },
    })
    &&& only_the_package(now)
    &&& now.output[OutputFile::Package] == package
}

/// Where the build stands on its way: on course at a step, or arrived.
pub open spec fn on_the_way(
    data: IpkBuilderView,
    then: Disk,
    package: Seq<u8>,
    progress: ProgressView,
    now: Disk,
) -> bool {
    match progress {
        ProgressView::Pending { build, action } => on_course(
            data,
            then,
            package,
            build,
            action,
            now,
        ),
        _ => arrived(data, package, progress, now),
    }
}

/// The values are all there, the disk is willing, and both archives can be
/// encoded: the package is `package`.
pub open spec fn bound_for(data: IpkBuilderView, then: Disk, package: Seq<u8>) -> bool {
    &&& missing_model(data) is None
    &&& willing(data, then)
    &&& package_on(data, then) == Some(package)
}

/// A step that the build reaches on its way is begun with success, and the
/// build waits at it on course.
proof fn lemma_emit_on_course(
    data: IpkBuilderView,
    then: Disk,
    package: Seq<u8>,
    taken: BuildView,
    step: Step,
    now: Disk,
)
    requires
        bound_for(data, then, package),
        reaching(data, then, package, taken, step, now),
    ensures
        on_the_way(data, then, package, emit_model(taken, step), now),
        emit_model(taken, step) is Pending,
{
    lemma_emit_fits(taken, step);
}

/// One turn on the way keeps the build on the way.
proof fn lemma_turn_on_course(
    data: IpkBuilderView,
    then: Disk,
    package: Seq<u8>,
    build: BuildView,
    action: ActionView,
    now: Disk,
)
    requires
        bound_for(data, then, package),
        on_course(data, then, package, build, action, now),
    ensures
        ({
            let turn = perform_model(action, now);
            let next = advance_model(build, turn.0);
            &&& on_the_way(data, then, package, next, turn.1)
            &&& next matches ProgressView::Pending { build: waiting, .. } ==> waiting.step.rank()
                > build.step.rank()
        }),
{
    let turn = perform_model(action, now);
    lemma_turn_lands(build, turn.0);
    assert(subject_model(data, build.step) is Ok);
    assert(accepted(build.step, turn.0));
    if let Some(after) = build.step.successor() {
        let taken = absorb_model(build, turn.0);
        let landed = landing(data, after);
        assert(applies(data, Step::WriteControlArchive));
        assert(applies(data, Step::ArchiveData));
        assert(applies(data, Step::RemoveStalePackage));
        assert(applies(data, Step::ReadControlArchive));
        assert(applies(data, Step::ReadDataArchive));
        assert(applies(data, Step::WritePackage));
        assert(applies(data, Step::RemoveControlArchive));
        assert(applies(data, Step::RemoveDataArchive));
        assert(reaching(data, then, package, taken, landed, turn.1));
        lemma_emit_on_course(data, then, package, taken, landed, turn.1);
    }
}

/// A whole run on the way arrives.
proof fn lemma_run_arrives(
    data: IpkBuilderView,
    then: Disk,
    package: Seq<u8>,
    progress: ProgressView,
    now: Disk,
    turns: nat,
)
    requires
        bound_for(data, then, package),
        on_the_way(data, then, package, progress, now),
        progress matches ProgressView::Pending { build, .. } ==> turns + build.step.rank() >= 13,
    ensures
        arrived(
            data,
            package,
            run_model(progress, now, turns).0,
            run_model(progress, now, turns).1,
        ),
    decreases turns,
{
    if let ProgressView::Pending { build, action } = progress {
        lemma_turn_on_course(data, then, package, build, action, now);
        let turn = perform_model(action, now);
        lemma_run_arrives(
            data,
            then,
            package,
            advance_model(build, turn.0),
            turn.1,
            (turns - 1) as nat,
        );
    }
}

/// A build finishes where nothing stands in its way: every value is given,
/// the disk holds each picked file that is read and lets the data directory
/// be archived, and both archives can be encoded. It ends with the package
/// in the output directory, holding the bytes that the two encodings give,
/// and with neither intermediate archive, whatever was there before. A
/// second build on the disk that the first one leaves finishes alike.
pub proof fn a_build_finishes_on_a_willing_disk(data: IpkBuilderView, disk: Disk)
    requires
        missing_model(data) is None,
        willing(data, disk),
        package_on(data, disk) is Some,
    ensures
        arrived(data, package_on(data, disk)->Some_0, build_model(data, disk).0, build_model(
            data,
            disk,
        ).1),
        build_model(data, build_model(data, disk).1) == build_model(data, disk),
{
    rebuilding_changes_nothing(data, disk);
    let package = package_on(data, disk)->Some_0;
    let fresh = BuildView::fresh(data);
    a_build_begins_at_its_first_step(data);
    lemma_arrive_lands(fresh, Step::ReadControl);
    let landed = landing(data, Step::ReadControl);
    assert(applies(data, Step::WriteControlArchive));
    assert(reaching(data, disk, package, fresh, landed, disk));
    lemma_emit_on_course(data, disk, package, fresh, landed, disk);
    lemma_run_arrives(data, disk, package, start_model(data), disk, 13);
}

} // verus!
