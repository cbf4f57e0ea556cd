//! What a build is given: the values that the form collects.

use vstd::prelude::*;

verus! {

/// Where the content of an entry comes from.
#[derive(Clone, Copy, Debug, PartialEq, Eq, Structural)]
pub enum ScriptSource {
    /// From the file at `picked_path`.
    FromPath,
    /// From the text in `from_textbox`, encoded as UTF-8.
    FromTextfield,
}

impl Default for ScriptSource {
    fn default() -> (source: Self)
        ensures
            source == ScriptSource::FromPath,
    {
        ScriptSource::FromPath
    }
}

/// One entry of a package: a file or a text, and whether it is wanted.
#[derive(Debug)]
pub struct FileOrPath {
    /// Whether the entry goes into the package. The control file and the
    /// version marker are always included, whatever this says.
    pub enabled: bool,
    pub file_or_text: ScriptSource,
    pub from_textbox: String,
    pub picked_path: Option<String>,
}

/// What the contracts see of a `FileOrPath`.
pub struct FileOrPathView {
    pub enabled: bool,
    pub file_or_text: ScriptSource,
    pub from_textbox: Seq<char>,
    pub picked_path: Option<Seq<char>>,
}

/// The view of a path that may be absent.
pub open spec fn path_view(path: Option<String>) -> Option<Seq<char>> {
    match path {
        Some(p) => Some(p@),
        None => None,
    }
}

impl View for FileOrPath {
    type V = FileOrPathView;

    open spec fn view(&self) -> FileOrPathView {
        FileOrPathView {
            enabled: self.enabled,
            file_or_text: self.file_or_text,
            from_textbox: self.from_textbox@,
            picked_path: path_view(self.picked_path),
        }
    }
}

/// The control text that a new entry shows.
pub open spec fn example_control() -> Seq<char> {
    "Package: example_package\nVersion: 1.3.3.7\nArchitecture: varam335x\nMaintainer: user@domain.tld\nDescription: This is an example\nPriority: optional\nDepends: other_package"@
}

/// The text that a new maintainer script shows.
pub open spec fn script_stub() -> Seq<char> {
    "#!/bin/bash\n"@
}

/// The text of the version marker.
pub open spec fn format_version() -> Seq<char> {
    "2.0"@
}

impl FileOrPathView {
    /// A disabled entry that reads from a file not yet picked and shows the
    /// given text.
    pub open spec fn blank(text: Seq<char>) -> FileOrPathView {
        FileOrPathView {
            enabled: false,
            file_or_text: ScriptSource::FromPath,
            from_textbox: text,
            picked_path: None,
        }
    }

    /// The entry takes its content from a file.
    pub open spec fn from_path(self) -> bool {
        self.file_or_text == ScriptSource::FromPath
    }
}

impl FileOrPath {
    /// A disabled entry that reads from a file not yet picked and shows `text`.
    fn with_text(text: &str) -> (entry: Self)
        ensures
            entry@ == FileOrPathView::blank(text@),
    {
        FileOrPath {
            enabled: false,
            file_or_text: ScriptSource::FromPath,
            from_textbox: text.to_owned(),
            picked_path: None,
        }
    }
}

impl Default for FileOrPath {
    fn default() -> (entry: Self)
        ensures
            entry@ == FileOrPathView::blank(example_control()),
    {
        FileOrPath::with_text(
            "Package: example_package\nVersion: 1.3.3.7\nArchitecture: varam335x\nMaintainer: user@domain.tld\nDescription: This is an example\nPriority: optional\nDepends: other_package",
        )
    }
}

/// Everything one build needs to know.
#[derive(Debug)]
pub struct IpkBuilder {
    pub control_file: FileOrPath,
    pub debian_binary: FileOrPath,
    pub postinst: FileOrPath,
    pub preinst: FileOrPath,
    pub prerm: FileOrPath,
    /// The directory whose tree becomes the data archive.
    pub data_path: Option<String>,
    /// The directory that receives every file of the build.
    pub output_path: Option<String>,
}

/// What the contracts see of an `IpkBuilder`.
pub struct IpkBuilderView {
    pub control_file: FileOrPathView,
    pub debian_binary: FileOrPathView,
    pub postinst: FileOrPathView,
    pub preinst: FileOrPathView,
    pub prerm: FileOrPathView,
    pub data_path: Option<Seq<char>>,
    pub output_path: Option<Seq<char>>,
}

impl View for IpkBuilder {
    type V = IpkBuilderView;

    open spec fn view(&self) -> IpkBuilderView {
        IpkBuilderView {
            control_file: self.control_file@,
            debian_binary: self.debian_binary@,
            postinst: self.postinst@,
            preinst: self.preinst@,
            prerm: self.prerm@,
            data_path: path_view(self.data_path),
            output_path: path_view(self.output_path),
        }
    }
}

impl IpkBuilderView {
    /// Every entry blank with the example control text, no directory chosen.
    pub open spec fn blank() -> IpkBuilderView {
        let entry = FileOrPathView::blank(example_control());
        IpkBuilderView {
            control_file: entry,
            debian_binary: entry,
            postinst: entry,
            preinst: entry,
            prerm: entry,
            data_path: None,
            output_path: None,
        }
    }

    /// What a new form holds: the version marker enabled with the text
    /// "2.0", the three scripts disabled with a stub, the control file to be
    /// picked, no directory chosen.
    pub open spec fn initial() -> IpkBuilderView {
        IpkBuilderView {
            control_file: FileOrPathView::blank(example_control()),
            debian_binary: FileOrPathView {
                enabled: true,
                file_or_text: ScriptSource::FromTextfield,
                from_textbox: format_version(),
                picked_path: None,
            },
            postinst: FileOrPathView::blank(script_stub()),
            preinst: FileOrPathView::blank(script_stub()),
            prerm: FileOrPathView::blank(script_stub()),
            data_path: None,
            output_path: None,
        }
    }
}

impl Default for IpkBuilder {
    fn default() -> (data: Self)
        ensures
            data@ == IpkBuilderView::blank(),
    {
        IpkBuilder {
            control_file: FileOrPath::default(),
            debian_binary: FileOrPath::default(),
            postinst: FileOrPath::default(),
            preinst: FileOrPath::default(),
            prerm: FileOrPath::default(),
            data_path: None,
            output_path: None,
        }
    }
}

impl IpkBuilder {
    /// The values of a new form.
    pub fn new() -> (data: Self)
        ensures
            data@ == IpkBuilderView::initial(),
    {
        let mut debian_binary = FileOrPath::with_text("2.0");
        debian_binary.enabled = true;
        debian_binary.file_or_text = ScriptSource::FromTextfield;
        IpkBuilder {
            control_file: FileOrPath::default(),
            debian_binary,
            postinst: FileOrPath::with_text("#!/bin/bash\n"),
            preinst: FileOrPath::with_text("#!/bin/bash\n"),
            prerm: FileOrPath::with_text("#!/bin/bash\n"),
            data_path: None,
            output_path: None,
        }
    }
}

} // verus!
