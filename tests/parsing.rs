use portal_backend::{
    open_file_plan, parse_hex, save_file_plan, save_files_plan, AcceptLabel, ChooserAction,
    FileName, OpenFileOptions, ReadOnlyChoice, SaveFileOptions, SaveFilesOptions,
    WindowIdentifierType,
};

#[test]
fn window_identifiers_in_wire_form() {
    assert_eq!(WindowIdentifierType::parse("x11:0x1f"), Some(WindowIdentifierType::X11(31)));
    assert_eq!(WindowIdentifierType::parse("x11:1F"), Some(WindowIdentifierType::X11(31)));
    assert_eq!(
        WindowIdentifierType::parse("wayland:abc:def"),
        Some(WindowIdentifierType::Wayland("abc:def".to_string()))
    );
    assert_eq!(WindowIdentifierType::parse("wayland:"), Some(WindowIdentifierType::Wayland(String::new())));
    assert_eq!(WindowIdentifierType::parse("x11:"), None);
    assert_eq!(WindowIdentifierType::parse("x11:0xzz"), None);
    assert_eq!(WindowIdentifierType::parse(""), None);
    assert_eq!(WindowIdentifierType::parse("mir:12"), None);
}

#[test]
fn hex_numbers_up_to_64_bits() {
    assert_eq!(parse_hex("0"), Some(0));
    assert_eq!(parse_hex("ff"), Some(255));
    assert_eq!(parse_hex("ffffffffffffffff"), Some(u64::MAX));
    assert_eq!(parse_hex("10000000000000000"), None);
    assert_eq!(parse_hex("00000000000000000001"), Some(1));
    assert_eq!(parse_hex(""), None);
    assert_eq!(parse_hex("1g"), None);
}

#[test]
fn open_file_plan_defaults() {
    let plan = open_file_plan(OpenFileOptions::default());
    assert_eq!(plan.action, ChooserAction::Open);
    assert_eq!(plan.accept_label, AcceptLabel::Open);
    assert!(plan.modal);
    assert!(!plan.select_multiple);
    assert_eq!(plan.read_only, Some(ReadOnlyChoice::Files));
    assert!(plan.choices.is_empty());
}

#[test]
fn open_file_plan_for_several_directories() {
    let options = OpenFileOptions {
        multiple: Some(true),
        directory: Some(true),
        modal: Some(false),
        ..Default::default()
    };
    let plan = open_file_plan(options);
    assert_eq!(plan.action, ChooserAction::SelectFolder);
    assert_eq!(plan.accept_label, AcceptLabel::Select);
    assert!(!plan.modal);
    assert!(plan.select_multiple);
    assert_eq!(plan.read_only, Some(ReadOnlyChoice::Directories));
    let given = open_file_plan(OpenFileOptions { accept_label: Some("_Pick".to_string()), ..Default::default() });
    assert_eq!(given.accept_label, AcceptLabel::Given("_Pick".to_string()));
}

#[test]
fn save_file_plan_prefers_current_file() {
    let options = SaveFileOptions {
        current_name: Some("a.txt".to_string()),
        current_folder: FileName::from_bytes_with_nul(b"/tmp\0".to_vec()),
        current_file: FileName::from_bytes_with_nul(b"/tmp/b.txt\0".to_vec()),
        ..Default::default()
    };
    let plan = save_file_plan(options);
    assert_eq!(plan.action, ChooserAction::Save);
    assert_eq!(plan.accept_label, AcceptLabel::Save);
    assert!(plan.current_name.is_none());
    assert!(plan.current_folder.is_none());
    assert_eq!(plan.current_file.unwrap().as_bytes(), b"/tmp/b.txt");
    assert_eq!(plan.read_only, None);

    let options = SaveFileOptions {
        current_name: Some("a.txt".to_string()),
        current_folder: FileName::from_bytes_with_nul(b"/tmp\0".to_vec()),
        ..Default::default()
    };
    let plan = save_file_plan(options);
    assert_eq!(plan.current_name.as_deref(), Some("a.txt"));
    assert_eq!(plan.current_folder.unwrap().as_bytes(), b"/tmp");
}

#[test]
fn save_files_plan_chooses_a_folder() {
    let plan = save_files_plan(SaveFilesOptions {
        current_folder: FileName::from_bytes_with_nul(b"/home\0".to_vec()),
        ..Default::default()
    });
    assert_eq!(plan.action, ChooserAction::SelectFolder);
    assert_eq!(plan.accept_label, AcceptLabel::Save);
    assert!(plan.modal);
    assert_eq!(plan.read_only, Some(ReadOnlyChoice::Directories));
    assert_eq!(plan.current_folder.unwrap().as_bytes(), b"/home");
}
