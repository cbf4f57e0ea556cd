//! Where a build reads and writes, and how it can fail.

use vstd::prelude::*;
use vstd::string::StringExecFns;

verus! {

/// The stages of a build, in the order in which they run.
#[derive(Clone, Copy, Debug, PartialEq, Eq, Structural)]
pub enum Stage {
    /// The given values are checked before any file is touched.
    Validation,
    /// The metadata archive is composed and written.
    ControlArchive,
    /// The data directory is archived.
    DataArchive,
    /// Both archives and the version marker go into the package.
    FinalAssembly,
    /// The two intermediate archives are removed.
    Cleanup,
}

/// The files that a build creates in the output directory.
#[derive(Clone, Copy, Debug, PartialEq, Eq, Structural)]
pub enum OutputFile {
    ControlArchive,
    DataArchive,
    Package,
}

impl OutputFile {
    /// The file's name inside the output directory, which is also the name
    /// under which an intermediate archive enters the package.
    pub open spec fn name(self) -> Seq<char> {
        match self {
            OutputFile::ControlArchive => "control.tar.gz"@,
            OutputFile::DataArchive => "data.tar.gz"@,
            OutputFile::Package => "outpackage.ipk"@,
        }
    }

    /// The file's name inside the output directory.
    pub fn file_name(self) -> (name: &'static str)
        ensures
            name@ == self.name(),
    {
        match self {
            OutputFile::ControlArchive => "control.tar.gz",
            OutputFile::DataArchive => "data.tar.gz",
            OutputFile::Package => "outpackage.ipk",
        }
    }
}

/// A file that a build touches.
#[derive(Debug)]
pub enum Location {
    /// A file that was picked for an entry, by the path that was given.
    Picked { path: String },
    /// One of the build's own files, inside the output directory.
    Output { directory: String, file: OutputFile },
}

/// What the contracts see of a `Location`.
pub enum LocationView {
    Picked { path: Seq<char> },
    Output { directory: Seq<char>, file: OutputFile },
}

impl View for Location {
    type V = LocationView;

    open spec fn view(&self) -> LocationView {
        match self {
            Location::Picked { path } => LocationView::Picked { path: path@ },
            Location::Output { directory, file } => LocationView::Output {
                directory: directory@,
                file: *file,
            },
        }
    }
}

impl LocationView {
    /// How a message names the file.
    pub open spec fn describe(self) -> Seq<char> {
        match self {
            LocationView::Picked { path } => path,
            LocationView::Output { directory, file } => file.name() + " in "@ + directory,
        }
    }
}

/// A character that parts the components of a path on some platform.
pub open spec fn separator(c: char) -> bool {
    c == '/' || c == '\\'
}

/// A file name that is one component of a path on every platform: not
/// empty, not beginning with a dot, and free of separators, colons and NUL.
pub open spec fn single_component(name: Seq<char>) -> bool {
    &&& 0 < name.len()
    &&& name[0] != '.'
    &&& forall|i: int|
        0 <= i < name.len() ==> !separator(#[trigger] name[i]) && name[i] != ':' && name[i]
            != '\0'
}

/// The directory is written as a verbatim path, which the one platform
/// that has such paths rewrites when something is joined to it.
pub open spec fn verbatim(directory: Seq<char>) -> bool {
    &&& directory.len() >= 4
    &&& directory[0] == '\\'
    &&& directory[1] == '\\'
    &&& directory[2] == '?'
    &&& directory[3] == '\\'
}

/// `text` is `directory` and then `name`, with a separator between them
/// where one is needed: none after an empty directory or one that ends in
/// `/`, exactly one after a directory that ends in neither a separator nor
/// `:`. After `\` or `:` the platform decides whether one is needed.
pub open spec fn joined(directory: Seq<char>, name: Seq<char>, text: Seq<char>) -> bool {
    let bare = text == directory + name;
    let parted = text == directory.push('/') + name || text == directory.push('\\') + name;
    if directory.len() == 0 || directory.last() == '/' {
        bare
    } else if directory.last() == '\\' || directory.last() == ':' {
        bare || parted
    } else {
        parted
    }
}

/// Each name of a file of the build is a single component.
pub proof fn lemma_output_names_single(file: OutputFile)
    ensures
        single_component(file.name()),
{
    reveal_strlit("control.tar.gz");
    reveal_strlit("data.tar.gz");
    reveal_strlit("outpackage.ipk");
}

/// Joins a directory and a file name with `std::path::Path::join` and
/// gives the result as text. Joining a relative name extends the directory
/// by it, so the result ends with the name. Unless the directory is a
/// verbatim path, which is rewritten, the result is the directory as given,
/// a separator where one is needed, and the name: the name alone after an
/// empty directory, no separator after `/`, exactly one after anything but
/// a separator or `:`.
#[verifier::external_body]
fn join_path(directory: &str, name: &str) -> (text: String)
    requires
        single_component(name@),
    ensures
        name@.is_suffix_of(text@),
        !verbatim(directory@) ==> joined(directory@, name@, text@),
{
    std::path::Path::new(directory).join(name).display().to_string()
}

impl Location {
    /// The path by which the file is opened: the picked path as it was
    /// given, or the output directory joined with the file's name as the
    /// platform joins them.
    pub fn path(&self) -> (text: String)
        ensures
            match self@ {
                LocationView::Picked { path } => text@ == path,
                LocationView::Output { directory, file } => {
                    &&& file.name().is_suffix_of(text@)
                    &&& !verbatim(directory) ==> joined(directory, file.name(), text@)
                },
            },
    {
        match self {
            Location::Picked { path } => path.clone(),
            Location::Output { directory, file } => {
                proof {
                    lemma_output_names_single(*file);
                }
                join_path(directory.as_str(), file.file_name())
            },
        }
    }

    /// Appends the file's description to `text`.
    fn describe_into(&self, text: &mut String)
        ensures
            final(text)@ == old(text)@ + self@.describe(),
    {
        match self {
            Location::Picked { path } => {
                text.append(path.as_str());
            },
            Location::Output { directory, file } => {
                text.append(file.file_name());
                text.append(" in ");
                text.append(directory.as_str());
            },
        }
    }
}

/// What was being done to a file when it failed.
#[derive(Clone, Copy, Debug, PartialEq, Eq, Structural)]
pub enum Operation {
    Read,
    Write,
    Remove,
    /// Archiving a directory tree into the file.
    ArchiveTree,
}

impl Operation {
    /// The words that open a message about a failed operation.
    pub open spec fn complaint(self) -> Seq<char> {
        match self {
            Operation::Read => "cannot open "@,
            Operation::Write => "cannot write "@,
            Operation::Remove => "cannot remove "@,
            Operation::ArchiveTree => "cannot archive the data directory into "@,
        }
    }

    fn complaint_text(self) -> (words: &'static str)
        ensures
            words@ == self.complaint(),
    {
        match self {
            Operation::Read => "cannot open ",
            Operation::Write => "cannot write ",
            Operation::Remove => "cannot remove ",
            Operation::ArchiveTree => "cannot archive the data directory into ",
        }
    }
}

/// The step at which encoding an archive failed.
#[derive(Clone, Copy, Debug, PartialEq, Eq, Structural)]
pub enum EncodeFault {
    /// A member was refused.
    Member,
    /// The finished archive could not be compressed.
    Compression,
}

impl EncodeFault {
    /// The text that is shown for the fault.
    pub open spec fn complaint(self) -> Seq<char> {
        match self {
            EncodeFault::Member => "a member of the archive was refused"@,
            EncodeFault::Compression => "the archive could not be compressed"@,
        }
    }

    fn complaint_text(self) -> (words: &'static str)
        ensures
            words@ == self.complaint(),
    {
        match self {
            EncodeFault::Member => "a member of the archive was refused",
            EncodeFault::Compression => "the archive could not be compressed",
        }
    }
}

/// The three families of failure.
#[derive(Clone, Copy, Debug, PartialEq, Eq, Structural)]
pub enum ErrorKind {
    /// A file could not be opened, read, written or removed.
    Io,
    /// An archive could not be encoded.
    Archive,
    /// The package itself is at fault: a previous package is in the way, or
    /// a value that the build needs was not given.
    Package,
}

/// Why a build failed.
#[derive(Debug)]
pub enum BuildError {
    /// A file could not be opened, read, written, archived into or removed.
    Io { operation: Operation, location: Location },
    /// An archive could not be encoded.
    Archive { fault: EncodeFault },
    /// A package from an earlier build could not be removed.
    StalePackage { location: Location },
    /// No output directory was given.
    NoOutputPath,
    /// No data directory was given.
    NoDataPath,
    /// The entry is to be read from a file, and no file was picked.
    NoSourceFile { entry: String },
}

/// What the contracts see of a `BuildError`.
pub enum BuildErrorView {
    Io { operation: Operation, location: LocationView },
    Archive { fault: EncodeFault },
    StalePackage { location: LocationView },
    NoOutputPath,
    NoDataPath,
    NoSourceFile { entry: Seq<char> },
}

impl View for BuildError {
    type V = BuildErrorView;

    open spec fn view(&self) -> BuildErrorView {
        match self {
            BuildError::Io { operation, location } => BuildErrorView::Io {
                operation: *operation,
                location: location@,
            },
            BuildError::Archive { fault } => BuildErrorView::Archive { fault: *fault },
            BuildError::StalePackage { location } => BuildErrorView::StalePackage {
                location: location@,
            },
            BuildError::NoOutputPath => BuildErrorView::NoOutputPath,
            BuildError::NoDataPath => BuildErrorView::NoDataPath,
            BuildError::NoSourceFile { entry } => BuildErrorView::NoSourceFile { entry: entry@ },
        }
    }
}

impl BuildErrorView {
    /// The family that the error belongs to.
    pub open spec fn kind(self) -> ErrorKind {
        match self {
            BuildErrorView::Io { .. } => ErrorKind::Io,
            BuildErrorView::Archive { .. } => ErrorKind::Archive,
            BuildErrorView::StalePackage { .. } => ErrorKind::Package,
            BuildErrorView::NoOutputPath => ErrorKind::Package,
            BuildErrorView::NoDataPath => ErrorKind::Package,
            BuildErrorView::NoSourceFile { .. } => ErrorKind::Package,
        }
    }

    /// The text that is shown for the error.
    pub open spec fn message(self) -> Seq<char> {
        match self {
            BuildErrorView::Io { operation, location } => operation.complaint()
                + location.describe(),
            BuildErrorView::Archive { fault } => fault.complaint(),
            BuildErrorView::StalePackage { location } => "cannot remove the previous "@
                + location.describe(),
            BuildErrorView::NoOutputPath => "no output directory was chosen"@,
            BuildErrorView::NoDataPath => "no data directory was chosen"@,
            BuildErrorView::NoSourceFile { entry } => "no file was picked for "@ + entry,
        }
    }
}

impl BuildError {
    /// The family that the error belongs to.
    pub fn kind(&self) -> (kind: ErrorKind)
        ensures
            kind == self@.kind(),
    {
        match self {
            BuildError::Io { .. } => ErrorKind::Io,
            BuildError::Archive { .. } => ErrorKind::Archive,
            BuildError::StalePackage { .. } => ErrorKind::Package,
            BuildError::NoOutputPath => ErrorKind::Package,
            BuildError::NoDataPath => ErrorKind::Package,
            BuildError::NoSourceFile { .. } => ErrorKind::Package,
        }
    }

    /// The text to show for the error: what failed, and on which file.
    pub fn message(&self) -> (text: String)
        ensures
            text@ == self@.message(),
    {
        match self {
            BuildError::Io { operation, location } => {
                let mut text = String::from_str(operation.complaint_text());
                location.describe_into(&mut text);
                text
            },
            BuildError::Archive { fault } => String::from_str(fault.complaint_text()),
            BuildError::StalePackage { location } => {
                let mut text = String::from_str("cannot remove the previous ");
                location.describe_into(&mut text);
                text
            },
            BuildError::NoOutputPath => String::from_str("no output directory was chosen"),
            BuildError::NoDataPath => String::from_str("no data directory was chosen"),
            BuildError::NoSourceFile { entry } => {
                let mut text = String::from_str("no file was picked for ");
                text.append(entry.as_str());
                text
            },
        }
    }
}

} // verus!
