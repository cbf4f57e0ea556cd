//! The build as a sequence of steps on files: what to do next, and what an
//! outcome means.
//!
//! The assembler touches no file itself. It names one action at a time; the
//! caller performs it and reports what happened, and the assembler answers
//! with the next action, with the finished package, or with the failure
//! that ends the build.

use crate::control::{
    control_archive_model, control_name, postinst_name, preinst_name, prerm_name, ControlFiles,
    ControlFilesView,
};
use crate::error::{
    BuildError, BuildErrorView, Location, LocationView, Operation, OutputFile, Stage,
};
use crate::package::{marker_name, package_archive, package_archive_model};
use crate::resolve::{content_view, unpicked};
use crate::ui::{FileOrPath, FileOrPathView, IpkBuilder, IpkBuilderView, ScriptSource};
use vstd::prelude::*;
use vstd::string::StringExecFns;

verus! {

/// The steps of a build, in the order in which they run. A step that reads
/// a picked file is left out where the entry does not come from a file, or
/// is not enabled.
#[derive(Clone, Copy, Debug, PartialEq, Eq, Structural)]
pub enum Step {
    ReadControl,
    ReadPostinst,
    ReadPreinst,
    ReadPrerm,
    WriteControlArchive,
    ArchiveData,
    RemoveStalePackage,
    ReadControlArchive,
    ReadDataArchive,
    ReadDebianBinary,
    WritePackage,
    RemoveControlArchive,
    RemoveDataArchive,
}

impl Step {
    /// The step's place in the order, from 0.
    pub open spec fn rank(self) -> nat {
        match self {
            Step::ReadControl => 0,
            Step::ReadPostinst => 1,
            Step::ReadPreinst => 2,
            Step::ReadPrerm => 3,
            Step::WriteControlArchive => 4,
            Step::ArchiveData => 5,
            Step::RemoveStalePackage => 6,
            Step::ReadControlArchive => 7,
            Step::ReadDataArchive => 8,
            Step::ReadDebianBinary => 9,
            Step::WritePackage => 10,
            Step::RemoveControlArchive => 11,
            Step::RemoveDataArchive => 12,
        }
    }

    /// The step that comes next, `None` after the last one.
    pub open spec fn successor(self) -> Option<Step> {
        match self {
            Step::ReadControl => Some(Step::ReadPostinst),
            Step::ReadPostinst => Some(Step::ReadPreinst),
            Step::ReadPreinst => Some(Step::ReadPrerm),
            Step::ReadPrerm => Some(Step::WriteControlArchive),
            Step::WriteControlArchive => Some(Step::ArchiveData),
            Step::ArchiveData => Some(Step::RemoveStalePackage),
            Step::RemoveStalePackage => Some(Step::ReadControlArchive),
            Step::ReadControlArchive => Some(Step::ReadDataArchive),
            Step::ReadDataArchive => Some(Step::ReadDebianBinary),
            Step::ReadDebianBinary => Some(Step::WritePackage),
            Step::WritePackage => Some(Step::RemoveControlArchive),
            Step::RemoveControlArchive => Some(Step::RemoveDataArchive),
            Step::RemoveDataArchive => None,
        }
    }

    /// The stage that the step belongs to.
    pub open spec fn stage(self) -> Stage {
        match self {
            Step::ReadControl => Stage::ControlArchive,
            Step::ReadPostinst => Stage::ControlArchive,
            Step::ReadPreinst => Stage::ControlArchive,
            Step::ReadPrerm => Stage::ControlArchive,
            Step::WriteControlArchive => Stage::ControlArchive,
            Step::ArchiveData => Stage::DataArchive,
            Step::RemoveStalePackage => Stage::FinalAssembly,
            Step::ReadControlArchive => Stage::FinalAssembly,
            Step::ReadDataArchive => Stage::FinalAssembly,
            Step::ReadDebianBinary => Stage::FinalAssembly,
            Step::WritePackage => Stage::FinalAssembly,
            Step::RemoveControlArchive => Stage::Cleanup,
            Step::RemoveDataArchive => Stage::Cleanup,
        }
    }

    /// What the step does to its file.
    pub open spec fn operation(self) -> Operation {
        match self {
            Step::ReadControl => Operation::Read,
            Step::ReadPostinst => Operation::Read,
            Step::ReadPreinst => Operation::Read,
            Step::ReadPrerm => Operation::Read,
            Step::WriteControlArchive => Operation::Write,
            Step::ArchiveData => Operation::ArchiveTree,
            Step::RemoveStalePackage => Operation::Remove,
            Step::ReadControlArchive => Operation::Read,
            Step::ReadDataArchive => Operation::Read,
            Step::ReadDebianBinary => Operation::Read,
            Step::WritePackage => Operation::Write,
            Step::RemoveControlArchive => Operation::Remove,
            Step::RemoveDataArchive => Operation::Remove,
        }
    }

    /// The step that comes next, `None` after the last one.
    pub fn next(self) -> (next: Option<Step>)
        ensures
            next == self.successor(),
    {
        match self {
            Step::ReadControl => Some(Step::ReadPostinst),
            Step::ReadPostinst => Some(Step::ReadPreinst),
            Step::ReadPreinst => Some(Step::ReadPrerm),
            Step::ReadPrerm => Some(Step::WriteControlArchive),
            Step::WriteControlArchive => Some(Step::ArchiveData),
            Step::ArchiveData => Some(Step::RemoveStalePackage),
            Step::RemoveStalePackage => Some(Step::ReadControlArchive),
            Step::ReadControlArchive => Some(Step::ReadDataArchive),
            Step::ReadDataArchive => Some(Step::ReadDebianBinary),
            Step::ReadDebianBinary => Some(Step::WritePackage),
            Step::WritePackage => Some(Step::RemoveControlArchive),
            Step::RemoveControlArchive => Some(Step::RemoveDataArchive),
            Step::RemoveDataArchive => None,
        }
    }

    /// The stage that the step belongs to.
    pub fn stage_of(self) -> (stage: Stage)
        ensures
            stage == self.stage(),
    {
        match self {
            Step::ReadControl | Step::ReadPostinst | Step::ReadPreinst | Step::ReadPrerm
            | Step::WriteControlArchive => Stage::ControlArchive,
            Step::ArchiveData => Stage::DataArchive,
            Step::RemoveStalePackage | Step::ReadControlArchive | Step::ReadDataArchive
            | Step::ReadDebianBinary | Step::WritePackage => Stage::FinalAssembly,
            Step::RemoveControlArchive | Step::RemoveDataArchive => Stage::Cleanup,
        }
    }

    /// What the step does to its file.
    pub fn operation_of(self) -> (operation: Operation)
        ensures
            operation == self.operation(),
    {
        match self {
            Step::WriteControlArchive | Step::WritePackage => Operation::Write,
            Step::ArchiveData => Operation::ArchiveTree,
            Step::RemoveStalePackage | Step::RemoveControlArchive | Step::RemoveDataArchive =>
                Operation::Remove,
            _ => Operation::Read,
        }
    }
}

/// What the caller is asked to do.
#[derive(Debug)]
pub enum Action {
    /// Read the whole file. Answer with `Event::Content`.
    Read { from: Location },
    /// Create or overwrite the file with `content`. Answer with
    /// `Event::Done`.
    Write { to: Location, content: Vec<u8> },
    /// Archive every file under the directory `root` into a compressed tar
    /// stream at `to`, with names relative to `root` and each file's mode as
    /// it is on disk. Answer with `Event::Done`.
    ArchiveTree { root: String, to: Location },
    /// Delete the file. Answer with `Event::Done`, or with `Event::Missing`
    /// where there was no such file.
    Remove { at: Location },
}

/// What the contracts see of an `Action`.
pub enum ActionView {
    Read { from: LocationView },
    Write { to: LocationView, content: Seq<u8> },
    ArchiveTree { root: Seq<char>, to: LocationView },
    Remove { at: LocationView },
}

impl View for Action {
    type V = ActionView;

    open spec fn view(&self) -> ActionView {
        match self {
            Action::Read { from } => ActionView::Read { from: from@ },
            Action::Write { to, content } => ActionView::Write { to: to@, content: content@ },
            Action::ArchiveTree { root, to } => ActionView::ArchiveTree { root: root@, to: to@ },
            Action::Remove { at } => ActionView::Remove { at: at@ },
        }
    }
}

/// What became of the action that was asked for.
#[derive(Debug)]
pub enum Event {
    /// The file was read, and these are its bytes.
    Content { bytes: Vec<u8> },
    /// The file was written, archived or deleted.
    Done,
    /// There was no such file.
    Missing,
    /// The action failed in any other way.
    Failed,
}

/// What the contracts see of an `Event`.
pub enum EventView {
    Content { bytes: Seq<u8> },
    Done,
    Missing,
    Failed,
}

impl View for Event {
    type V = EventView;

    open spec fn view(&self) -> EventView {
        match self {
            Event::Content { bytes } => EventView::Content { bytes: bytes@ },
            Event::Done => EventView::Done,
            Event::Missing => EventView::Missing,
            Event::Failed => EventView::Failed,
        }
    }
}

/// A build under way: what it was given, the step whose outcome it waits
/// for, and what it has read so far.
#[derive(Debug)]
pub struct Build {
    data: IpkBuilder,
    step: Step,
    files: ControlFiles,
    control_archive: Option<Vec<u8>>,
    data_archive: Option<Vec<u8>>,
    marker_file: Option<Vec<u8>>,
}

/// What the contracts see of a `Build`.
pub struct BuildView {
    pub data: IpkBuilderView,
    pub step: Step,
    pub files: ControlFilesView,
    pub control_archive: Option<Seq<u8>>,
    pub data_archive: Option<Seq<u8>>,
    pub marker_file: Option<Seq<u8>>,
}

impl View for Build {
    type V = BuildView;

    closed spec fn view(&self) -> BuildView {
        BuildView {
            data: self.data@,
            step: self.step,
            files: self.files@,
            control_archive: content_view(self.control_archive),
            data_archive: content_view(self.data_archive),
            marker_file: content_view(self.marker_file),
        }
    }
}

/// Where a build stands after `make_package` or `advance`.
#[derive(Debug)]
pub enum Progress {
    /// The build waits for `action` to be performed; hand what happened to
    /// `advance`.
    Pending { build: Build, action: Action },
    /// The package is written and the intermediate archives are gone.
    Finished { package: Location },
    /// The build has ended at `stage`. What was written before stays.
    Failed { stage: Stage, error: BuildError },
}

/// What the contracts see of a `Progress`.
pub enum ProgressView {
    Pending { build: BuildView, action: ActionView },
    Finished { package: LocationView },
    Failed { stage: Stage, error: BuildErrorView },
}

impl View for Progress {
    type V = ProgressView;

    open spec fn view(&self) -> ProgressView {
        match self {
            Progress::Pending { build, action } => ProgressView::Pending {
                build: build@,
                action: action@,
            },
            Progress::Finished { package } => ProgressView::Finished { package: package@ },
            Progress::Failed { stage, error } => ProgressView::Failed {
                stage: *stage,
                error: error@,
            },
        }
    }
}

impl ControlFilesView {
    /// Nothing read.
    pub open spec fn none() -> ControlFilesView {
        ControlFilesView { control: None, postinst: None, preinst: None, prerm: None }
    }
}

impl BuildView {
    /// A build that has read nothing yet.
    pub open spec fn fresh(data: IpkBuilderView) -> BuildView {
        BuildView {
            data,
            step: Step::ReadControl,
            files: ControlFilesView::none(),
            control_archive: None,
            data_archive: None,
            marker_file: None,
        }
    }
}

/// The first value that a build needs and was not given, if there is one:
/// the output directory, the data directory, then the picked file of each
/// entry that is to be read from one.
pub open spec fn missing_model(data: IpkBuilderView) -> Option<BuildErrorView> {
    if data.output_path is None {
        Some(BuildErrorView::NoOutputPath)
    } else if data.data_path is None {
        Some(BuildErrorView::NoDataPath)
    } else if applies(data, Step::ReadControl) && data.control_file.picked_path is None {
        Some(unpicked(control_name()))
    } else if applies(data, Step::ReadPostinst) && data.postinst.picked_path is None {
        Some(unpicked(postinst_name()))
    } else if applies(data, Step::ReadPreinst) && data.preinst.picked_path is None {
        Some(unpicked(preinst_name()))
    } else if applies(data, Step::ReadPrerm) && data.prerm.picked_path is None {
        Some(unpicked(prerm_name()))
    } else if applies(data, Step::ReadDebianBinary) && data.debian_binary.picked_path is None {
        Some(unpicked(marker_name()))
    } else {
        None
    }
}

/// Whether the step is part of this build. Only the reading of a picked
/// file can be left out.
pub open spec fn applies(data: IpkBuilderView, step: Step) -> bool {
    match step {
        Step::ReadControl => data.control_file.from_path(),
        Step::ReadPostinst => data.postinst.enabled && data.postinst.from_path(),
        Step::ReadPreinst => data.preinst.enabled && data.preinst.from_path(),
        Step::ReadPrerm => data.prerm.enabled && data.prerm.from_path(),
        Step::ReadDebianBinary => data.debian_binary.from_path(),
        _ => true,
    }
}

/// The picked file of an entry.
pub open spec fn picked_model(entry: FileOrPathView, name: Seq<char>) -> Result<
    LocationView,
    BuildErrorView,
> {
    match entry.picked_path {
        Some(path) => Ok(LocationView::Picked { path }),
        None => Err(unpicked(name)),
    }
}

/// A file of the build, inside the output directory.
pub open spec fn output_model(data: IpkBuilderView, file: OutputFile) -> Result<
    LocationView,
    BuildErrorView,
> {
    match data.output_path {
        Some(directory) => Ok(LocationView::Output { directory, file }),
        None => Err(BuildErrorView::NoOutputPath),
    }
}

/// The file that the step works on.
pub open spec fn subject_model(data: IpkBuilderView, step: Step) -> Result<
    LocationView,
    BuildErrorView,
> {
    match step {
        Step::ReadControl => picked_model(data.control_file, control_name()),
        Step::ReadPostinst => picked_model(data.postinst, postinst_name()),
        Step::ReadPreinst => picked_model(data.preinst, preinst_name()),
        Step::ReadPrerm => picked_model(data.prerm, prerm_name()),
        Step::ReadDebianBinary => picked_model(data.debian_binary, marker_name()),
        Step::WriteControlArchive => output_model(data, OutputFile::ControlArchive),
        Step::ReadControlArchive => output_model(data, OutputFile::ControlArchive),
        Step::RemoveControlArchive => output_model(data, OutputFile::ControlArchive),
        Step::ArchiveData => output_model(data, OutputFile::DataArchive),
        Step::ReadDataArchive => output_model(data, OutputFile::DataArchive),
        Step::RemoveDataArchive => output_model(data, OutputFile::DataArchive),
        Step::RemoveStalePackage => output_model(data, OutputFile::Package),
        Step::WritePackage => output_model(data, OutputFile::Package),
    }
}

/// The error for a file on which an operation failed.
pub open spec fn io_error(operation: Operation, location: LocationView) -> BuildErrorView {
    BuildErrorView::Io { operation, location }
}

/// The package's bytes from what was read back, or the error for an
/// intermediate archive that was not read.
pub open spec fn assembled_model(
    data: IpkBuilderView,
    control_archive: Option<Seq<u8>>,
    data_archive: Option<Seq<u8>>,
    marker_file: Option<Seq<u8>>,
) -> Result<Seq<u8>, BuildErrorView> {
    match control_archive {
        None => match subject_model(data, Step::ReadControlArchive) {
            Ok(at) => Err(io_error(Operation::Read, at)),
            Err(error) => Err(error),
        },
        Some(control) => match data_archive {
            None => match subject_model(data, Step::ReadDataArchive) {
                Ok(at) => Err(io_error(Operation::Read, at)),
                Err(error) => Err(error),
            },
            Some(tree) => package_archive_model(control, tree, data.debian_binary, marker_file),
        },
    }
}

/// The action by which the step begins, on the file `at`.
pub open spec fn request_model(build: BuildView, step: Step, at: LocationView) -> Result<
    ActionView,
    BuildErrorView,
> {
    match step {
        Step::WriteControlArchive => match control_archive_model(build.data, build.files) {
            Ok(content) => Ok(ActionView::Write { to: at, content }),
            Err(error) => Err(error),
        },
        Step::ArchiveData => match build.data.data_path {
            Some(root) => Ok(ActionView::ArchiveTree { root, to: at }),
            None => Err(BuildErrorView::NoDataPath),
        },
        Step::WritePackage => match assembled_model(
            build.data,
            build.control_archive,
            build.data_archive,
            build.marker_file,
        ) {
            Ok(content) => Ok(ActionView::Write { to: at, content }),
            Err(error) => Err(error),
        },
        Step::RemoveStalePackage => Ok(ActionView::Remove { at }),
        Step::RemoveControlArchive => Ok(ActionView::Remove { at }),
        Step::RemoveDataArchive => Ok(ActionView::Remove { at }),
        _ => Ok(ActionView::Read { from: at }),
    }
}

/// The build as it waits at `step`. What went into an archive is given up
/// with it.
pub open spec fn waiting_model(build: BuildView, step: Step) -> BuildView {
    match step {
        Step::WriteControlArchive => BuildView {
            step,
            files: ControlFilesView::none(),
            ..build
        },
        Step::WritePackage => BuildView {
            step,
            control_archive: None,
            data_archive: None,
            marker_file: None,
            ..build
        },
        _ => BuildView { step, ..build },
    }
}

/// The build begins `step`: it asks for the step's action, or fails where
/// the action cannot be made up.
pub open spec fn emit_model(build: BuildView, step: Step) -> ProgressView {
    match subject_model(build.data, step) {
        Err(error) => ProgressView::Failed { stage: step.stage(), error },
        Ok(at) => match request_model(build, step, at) {
            Ok(action) => ProgressView::Pending { build: waiting_model(build, step), action },
            Err(error) => ProgressView::Failed { stage: step.stage(), error },
        },
    }
}

/// The build reaches `step`: it passes over the steps that are not part of
/// it and begins the first one that is.
pub open spec fn arrive_model(build: BuildView, step: Step) -> ProgressView
    decreases 12 - step.rank(),
{
    match step.successor() {
        Some(next) if !applies(build.data, step) => arrive_model(build, next),
        _ => emit_model(build, step),
    }
}

/// The step that a build begins when it reaches `step`: the first one from
/// there on that is part of it.
pub open spec fn landing(data: IpkBuilderView, step: Step) -> Step
    decreases 12 - step.rank(),
{
    match step.successor() {
        Some(next) if !applies(data, step) => landing(data, next),
        _ => step,
    }
}

/// A build that reaches `step` begins the step where it lands, which is
/// `step` itself or a later one.
pub proof fn lemma_arrive_lands(build: BuildView, step: Step)
    ensures
        arrive_model(build, step) == emit_model(build, landing(build.data, step)),
        landing(build.data, step).rank() >= step.rank(),
        applies(build.data, landing(build.data, step)),
        forall|between: Step|
            step.rank() <= between.rank() < landing(build.data, step).rank() ==> !applies(
                build.data,
                between,
            ),
    decreases 12 - step.rank(),
{
    match step.successor() {
        Some(next) if !applies(build.data, step) => {
            lemma_arrive_lands(build, next);
            assert forall|between: Step|
                step.rank() <= between.rank() < landing(build.data, step).rank() implies !applies(
                build.data,
                between,
            ) by {
                if between.rank() == step.rank() {
                    assert(between == step);
                }
            }
        },
        _ => {},
    }
}

/// Whether the event says that the step's action succeeded. Only for the
/// package of an earlier build is a missing file as good as a removed one.
pub open spec fn accepted(step: Step, event: EventView) -> bool {
    match step.operation() {
        Operation::Read => event is Content,
        Operation::Write => event is Done,
        Operation::ArchiveTree => event is Done,
        Operation::Remove => event is Done || (step == Step::RemoveStalePackage
            && event is Missing),
    }
}

/// The error for a step whose action did not succeed on the file `at`.
pub open spec fn failure_model(step: Step, at: LocationView) -> BuildErrorView {
    if step == Step::RemoveStalePackage {
        BuildErrorView::StalePackage { location: at }
    } else {
        io_error(step.operation(), at)
    }
}

/// The build once it has taken in what a reading step gave.
pub open spec fn absorb_model(build: BuildView, event: EventView) -> BuildView {
    match event {
        EventView::Content { bytes } => match build.step {
            Step::ReadControl => BuildView {
                files: ControlFilesView { control: Some(bytes), ..build.files },
                ..build
            },
            Step::ReadPostinst => BuildView {
                files: ControlFilesView { postinst: Some(bytes), ..build.files },
                ..build
            },
            Step::ReadPreinst => BuildView {
                files: ControlFilesView { preinst: Some(bytes), ..build.files },
                ..build
            },
            Step::ReadPrerm => BuildView {
                files: ControlFilesView { prerm: Some(bytes), ..build.files },
                ..build
            },
            Step::ReadControlArchive => BuildView { control_archive: Some(bytes), ..build },
            Step::ReadDataArchive => BuildView { data_archive: Some(bytes), ..build },
            Step::ReadDebianBinary => BuildView { marker_file: Some(bytes), ..build },
            _ => build,
        },
        _ => build,
    }
}

/// Where the build stands once its last step has succeeded.
pub open spec fn finish_model(data: IpkBuilderView) -> ProgressView {
    match output_model(data, OutputFile::Package) {
        Ok(package) => ProgressView::Finished { package },
        Err(error) => ProgressView::Failed { stage: Stage::Cleanup, error },
    }
}

/// What an event means to a waiting build: an action that did not succeed
/// ends the build at once; one that did leads to the next step, and after
/// the last step to the finished package.
pub open spec fn advance_model(build: BuildView, event: EventView) -> ProgressView {
    match subject_model(build.data, build.step) {
        Err(error) => ProgressView::Failed { stage: build.step.stage(), error },
        Ok(at) => if accepted(build.step, event) {
            match build.step.successor() {
                Some(next) => arrive_model(absorb_model(build, event), next),
                None => finish_model(build.data),
            }
        } else {
            ProgressView::Failed {
                stage: build.step.stage(),
                error: failure_model(build.step, at),
            }
        },
    }
}

/// How a build begins: with the failure for the first value that is
/// missing, before any file is touched, or else with its first step.
pub open spec fn start_model(data: IpkBuilderView) -> ProgressView {
    match missing_model(data) {
        Some(error) => ProgressView::Failed { stage: Stage::Validation, error },
        None => arrive_model(BuildView::fresh(data), Step::ReadControl),
    }
}

impl ControlFiles {
    /// Nothing read.
    pub fn none() -> (files: ControlFiles)
        ensures
            files@ == ControlFilesView::none(),
    {
        ControlFiles { control: None, postinst: None, preinst: None, prerm: None }
    }
}

/// Whether the entry is to be read from a file.
fn from_path(entry: &FileOrPath) -> (from_path: bool)
    ensures
        from_path == entry@.from_path(),
{
    match entry.file_or_text {
        ScriptSource::FromPath => true,
        ScriptSource::FromTextfield => false,
    }
}

fn step_applies(data: &IpkBuilder, step: Step) -> (part: bool)
    ensures
        part == applies(data@, step),
{
    match step {
        Step::ReadControl => from_path(&data.control_file),
        Step::ReadPostinst => data.postinst.enabled && from_path(&data.postinst),
        Step::ReadPreinst => data.preinst.enabled && from_path(&data.preinst),
        Step::ReadPrerm => data.prerm.enabled && from_path(&data.prerm),
        Step::ReadDebianBinary => from_path(&data.debian_binary),
        _ => true,
    }
}

fn picked(entry: &FileOrPath, name: &str) -> (found: Result<Location, BuildError>)
    ensures
        match picked_model(entry@, name@) {
            Ok(at) => found matches Ok(location) && location@ == at,
            Err(error) => found matches Err(e) && e@ == error,
        },
{
    match &entry.picked_path {
        Some(path) => Ok(Location::Picked { path: path.clone() }),
        None => Err(BuildError::NoSourceFile { entry: String::from_str(name) }),
    }
}

fn output(data: &IpkBuilder, file: OutputFile) -> (found: Result<Location, BuildError>)
    ensures
        match output_model(data@, file) {
            Ok(at) => found matches Ok(location) && location@ == at,
            Err(error) => found matches Err(e) && e@ == error,
        },
{
    match &data.output_path {
        Some(directory) => Ok(Location::Output { directory: directory.clone(), file }),
        None => Err(BuildError::NoOutputPath),
    }
}

fn subject(data: &IpkBuilder, step: Step) -> (found: Result<Location, BuildError>)
    ensures
        match subject_model(data@, step) {
            Ok(at) => found matches Ok(location) && location@ == at,
            Err(error) => found matches Err(e) && e@ == error,
        },
{
    match step {
        Step::ReadControl => picked(&data.control_file, "control"),
        Step::ReadPostinst => picked(&data.postinst, "postinst"),
        Step::ReadPreinst => picked(&data.preinst, "preinst"),
        Step::ReadPrerm => picked(&data.prerm, "prerm"),
        Step::ReadDebianBinary => picked(&data.debian_binary, "debian_binary"),
        Step::WriteControlArchive | Step::ReadControlArchive | Step::RemoveControlArchive =>
            output(data, OutputFile::ControlArchive),
        Step::ArchiveData | Step::ReadDataArchive | Step::RemoveDataArchive => output(
            data,
            OutputFile::DataArchive,
        ),
        Step::RemoveStalePackage | Step::WritePackage => output(data, OutputFile::Package),
    }
}

/// The first value that a build from `data` needs and was not given, `None`
/// where a build can begin.
pub fn missing(data: &IpkBuilder) -> (found: Option<BuildError>)
    ensures
        match missing_model(data@) {
            Some(error) => found matches Some(e) && e@ == error,
            None => found is None,
        },
{
    if data.output_path.is_none() {
        Some(BuildError::NoOutputPath)
    } else if data.data_path.is_none() {
        Some(BuildError::NoDataPath)
    } else if step_applies(data, Step::ReadControl) && data.control_file.picked_path.is_none() {
        Some(BuildError::NoSourceFile { entry: String::from_str("control") })
    } else if step_applies(data, Step::ReadPostinst) && data.postinst.picked_path.is_none() {
        Some(BuildError::NoSourceFile { entry: String::from_str("postinst") })
    } else if step_applies(data, Step::ReadPreinst) && data.preinst.picked_path.is_none() {
        Some(BuildError::NoSourceFile { entry: String::from_str("preinst") })
    } else if step_applies(data, Step::ReadPrerm) && data.prerm.picked_path.is_none() {
        Some(BuildError::NoSourceFile { entry: String::from_str("prerm") })
    } else if step_applies(data, Step::ReadDebianBinary)
        && data.debian_binary.picked_path.is_none() {
        Some(BuildError::NoSourceFile { entry: String::from_str("debian_binary") })
    } else {
        None
    }
}

fn is_accepted(step: Step, event: &Event) -> (good: bool)
    ensures
        good == accepted(step, event@),
{
    match step.operation_of() {
        Operation::Read => match event {
            Event::Content { .. } => true,
            _ => false,
        },
        Operation::Write | Operation::ArchiveTree => match event {
            Event::Done => true,
            _ => false,
        },
        Operation::Remove => match event {
            Event::Done => true,
            Event::Missing => match step {
                Step::RemoveStalePackage => true,
                _ => false,
            },
            _ => false,
        },
    }
}

fn failure(step: Step, at: Location) -> (error: BuildError)
    ensures
        error@ == failure_model(step, at@),
{
    match step {
        Step::RemoveStalePackage => BuildError::StalePackage { location: at },
        _ => BuildError::Io { operation: step.operation_of(), location: at },
    }
}

fn finish(data: &IpkBuilder) -> (progress: Progress)
    ensures
        progress@ == finish_model(data@),
{
    match output(data, OutputFile::Package) {
        Ok(package) => Progress::Finished { package },
        Err(error) => Progress::Failed { stage: Stage::Cleanup, error },
    }
}

/// The package's bytes from what was read back.
fn assemble(
    data: &IpkBuilder,
    control_archive: Option<Vec<u8>>,
    data_archive: Option<Vec<u8>>,
    marker_file: Option<Vec<u8>>,
) -> (outcome: Result<Vec<u8>, BuildError>)
    ensures
        match assembled_model(
            data@,
            content_view(control_archive),
            content_view(data_archive),
            content_view(marker_file),
        ) {
            Ok(bytes) => outcome matches Ok(found) && found@ == bytes,
            Err(error) => outcome matches Err(e) && e@ == error,
        },
{
    match control_archive {
        None => match subject(data, Step::ReadControlArchive) {
            Ok(at) => Err(BuildError::Io { operation: Operation::Read, location: at }),
            Err(e) => Err(e),
        },
        Some(control) => match data_archive {
            None => match subject(data, Step::ReadDataArchive) {
                Ok(at) => Err(BuildError::Io { operation: Operation::Read, location: at }),
                Err(e) => Err(e),
            },
            Some(tree) => package_archive(control, tree, &data.debian_binary, marker_file),
        },
    }
}

impl Build {
    /// The step whose outcome the build waits for.
    pub fn step(&self) -> (step: Step)
        ensures
            step == self@.step,
    {
        self.step
    }

    /// The stage that the build is in.
    pub fn stage(&self) -> (stage: Stage)
        ensures
            stage == self@.step.stage(),
    {
        self.step.stage_of()
    }

    /// Begins `step`.
    fn emit(self, step: Step) -> (progress: Progress)
        ensures
            progress@ == emit_model(self@, step),
    {
        let stage = step.stage_of();
        let at = match subject(&self.data, step) {
            Ok(at) => at,
            Err(error) => {
                return Progress::Failed { stage, error };
            },
        };
        let Build { data, step: _, files, control_archive, data_archive, marker_file } = self;
        match step {
            Step::WriteControlArchive => match crate::control::control_archive(&data, files) {
                Ok(content) => Progress::Pending {
                    build: Build {
                        data,
                        step,
                        files: ControlFiles::none(),
                        control_archive,
                        data_archive,
                        marker_file,
                    },
                    action: Action::Write { to: at, content },
                },
                Err(error) => Progress::Failed { stage, error },
            },
            Step::ArchiveData => match &data.data_path {
                Some(root) => {
                    let root = root.clone();
                    Progress::Pending {
                        build: Build { data, step, files, control_archive, data_archive, marker_file },
                        action: Action::ArchiveTree { root, to: at },
                    }
                },
                None => Progress::Failed { stage, error: BuildError::NoDataPath },
            },
            Step::WritePackage => match assemble(&data, control_archive, data_archive, marker_file) {
                Ok(content) => Progress::Pending {
                    build: Build {
                        data,
                        step,
                        files,
                        control_archive: None,
                        data_archive: None,
                        marker_file: None,
                    },
                    action: Action::Write { to: at, content },
                },
                Err(error) => Progress::Failed { stage, error },
            },
            Step::RemoveStalePackage | Step::RemoveControlArchive | Step::RemoveDataArchive =>
                Progress::Pending {
                    build: Build { data, step, files, control_archive, data_archive, marker_file },
                    action: Action::Remove { at },
                },
            _ => Progress::Pending {
                build: Build { data, step, files, control_archive, data_archive, marker_file },
                action: Action::Read { from: at },
            },
        }
    }

    /// Reaches `step`: passes over what is not part of the build and begins
    /// the first step that is.
    fn arrive(self, step: Step) -> (progress: Progress)
        ensures
            progress@ == arrive_model(self@, step),
        decreases 12 - step.rank(),
    {
        match step.next() {
            Some(next) if !step_applies(&self.data, step) => self.arrive(next),
            _ => self.emit(step),
        }
    }

    /// Takes in what a reading step gave.
    fn absorb(self, event: Event) -> (build: Build)
        ensures
            build@ == absorb_model(self@, event@),
    {
        let Build { data, step, files, control_archive, data_archive, marker_file } = self;
        let ControlFiles { control, postinst, preinst, prerm } = files;
        match event {
            Event::Content { bytes } => match step {
                Step::ReadControl => Build {
                    data,
                    step,
                    files: ControlFiles { control: Some(bytes), postinst, preinst, prerm },
                    control_archive,
                    data_archive,
                    marker_file,
                },
                Step::ReadPostinst => Build {
                    data,
                    step,
                    files: ControlFiles { control, postinst: Some(bytes), preinst, prerm },
                    control_archive,
                    data_archive,
                    marker_file,
                },
                Step::ReadPreinst => Build {
                    data,
                    step,
                    files: ControlFiles { control, postinst, preinst: Some(bytes), prerm },
                    control_archive,
                    data_archive,
                    marker_file,
                },
                Step::ReadPrerm => Build {
                    data,
                    step,
                    files: ControlFiles { control, postinst, preinst, prerm: Some(bytes) },
                    control_archive,
                    data_archive,
                    marker_file,
                },
                Step::ReadControlArchive => Build {
                    data,
                    step,
                    files: ControlFiles { control, postinst, preinst, prerm },
                    control_archive: Some(bytes),
                    data_archive,
                    marker_file,
                },
                Step::ReadDataArchive => Build {
                    data,
                    step,
                    files: ControlFiles { control, postinst, preinst, prerm },
                    control_archive,
                    data_archive: Some(bytes),
                    marker_file,
                },
                Step::ReadDebianBinary => Build {
                    data,
                    step,
                    files: ControlFiles { control, postinst, preinst, prerm },
                    control_archive,
                    data_archive,
                    marker_file: Some(bytes),
                },
                _ => Build {
                    data,
                    step,
                    files: ControlFiles { control, postinst, preinst, prerm },
                    control_archive,
                    data_archive,
                    marker_file,
                },
            },
            _ => Build {
                data,
                step,
                files: ControlFiles { control, postinst, preinst, prerm },
                control_archive,
                data_archive,
                marker_file,
            },
        }
    }

    /// Takes the outcome of the action that the build waits for, and says
    /// what comes next.
    pub fn advance(self, event: Event) -> (progress: Progress)
        ensures
            progress@ == advance_model(self@, event@),
    {
        let step = self.step;
        let at = match subject(&self.data, step) {
            Ok(at) => at,
            Err(error) => {
                return Progress::Failed { stage: step.stage_of(), error };
            },
        };
        if !is_accepted(step, &event) {
            return Progress::Failed { stage: step.stage_of(), error: failure(step, at) };
        }
        match step.next() {
            Some(next) => self.absorb(event).arrive(next),
            None => finish(&self.data),
        }
    }
}

/// Begins the build of a package from `data`.
///
/// A value that the build needs and was not given ends it here, before any
/// file is touched. Otherwise the first action is named.
pub fn make_package(data: IpkBuilder) -> (progress: Progress)
    ensures
        progress@ == start_model(data@),
{
    match missing(&data) {
        Some(error) => Progress::Failed { stage: Stage::Validation, error },
        None => {
            let build = Build {
                data,
                step: Step::ReadControl,
                files: ControlFiles::none(),
                control_archive: None,
                data_archive: None,
                marker_file: None,
            };
            build.arrive(Step::ReadControl)
        },
    }
}

} // verus!
