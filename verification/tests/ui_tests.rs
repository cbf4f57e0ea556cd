use ipkbuilder::ui::{FileOrPath, IpkBuilder, ScriptSource};

const EXAMPLE: &str = "Package: example_package
Version: 1.3.3.7
Architecture: varam335x
Maintainer: user@domain.tld
Description: This is an example
Priority: optional
Depends: other_package";

#[test]
fn script_source_defaults_to_a_file() {
    assert_eq!(ScriptSource::default(), ScriptSource::FromPath);
    assert_ne!(ScriptSource::FromPath, ScriptSource::FromTextfield);
}

#[test]
fn default_entry_shows_the_example_control() {
    let entry = FileOrPath::default();
    assert!(!entry.enabled);
    assert_eq!(entry.file_or_text, ScriptSource::FromPath);
    assert_eq!(entry.from_textbox, EXAMPLE);
    assert_eq!(entry.picked_path, None);
}

#[test]
fn default_form_is_blank() {
    let data = IpkBuilder::default();
    assert_eq!(data.data_path, None);
    assert_eq!(data.output_path, None);
    assert_eq!(data.debian_binary.from_textbox, EXAMPLE);
    assert!(!data.debian_binary.enabled);
    assert_eq!(data.postinst.from_textbox, EXAMPLE);
}

#[test]
fn new_form_has_the_marker_and_script_stubs() {
    let data = IpkBuilder::new();
    assert_eq!(data.control_file.from_textbox, EXAMPLE);
    assert_eq!(data.control_file.file_or_text, ScriptSource::FromPath);
    assert!(!data.control_file.enabled);
    assert!(data.debian_binary.enabled);
    assert_eq!(data.debian_binary.from_textbox, "2.0");
    assert_eq!(data.debian_binary.file_or_text, ScriptSource::FromTextfield);
    assert_eq!(data.debian_binary.picked_path, None);
    for script in [&data.postinst, &data.preinst, &data.prerm] {
        assert!(!script.enabled);
        assert_eq!(script.from_textbox, "#!/bin/bash\n");
        assert_eq!(script.file_or_text, ScriptSource::FromPath);
        assert_eq!(script.picked_path, None);
    }
    assert_eq!(data.data_path, None);
    assert_eq!(data.output_path, None);
}
