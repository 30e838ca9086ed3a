//! Destination naming, code parsing, history naming and settings.

use wyrmhole_core::errors::TransferError;
use wyrmhole_core::history::{connection_label, split_history_name, ConnectionKind};
use wyrmhole_core::receive::{is_archive_file_name, parse_receive_code, should_extract};
use wyrmhole_core::resolve::resolve;
use wyrmhole_core::send::{plan_multi_send, plan_single_send, SourceMeta};
use wyrmhole_core::settings::{
    default_auto_extract, default_folder_name_format, preferred_relay, AppSettings,
};

fn stamp() -> String {
    "20240101_120000".to_string()
}

#[test]
fn resolve_free_name_is_unchanged() {
    let existing: Vec<String> = Vec::new();
    let path = resolve(
        &"dl".to_string(),
        &"a.txt".to_string(),
        &existing,
        &stamp(),
    );
    assert_eq!(path, "dl/a.txt");
}

#[test]
fn resolve_skips_taken_numbered_names() {
    let existing = vec!["a.txt".to_string(), "a(1).txt".to_string()];
    let path = resolve(
        &"dl".to_string(),
        &"a.txt".to_string(),
        &existing,
        &stamp(),
    );
    assert_eq!(path, "dl/a(2).txt");
}

#[test]
fn resolve_name_without_extension_gets_no_dot() {
    let existing = vec!["README".to_string()];
    let path = resolve(
        &"dl".to_string(),
        &"README".to_string(),
        &existing,
        &stamp(),
    );
    assert_eq!(path, "dl/README(1)");
}

#[test]
fn resolve_falls_back_to_timestamp_after_ten_thousand_probes() {
    let mut existing = vec!["x.log".to_string()];
    for n in 1..=10000u32 {
        existing.push(format!("x({}).log", n));
    }
    let path = resolve(
        &"dl".to_string(),
        &"x.log".to_string(),
        &existing,
        &stamp(),
    );
    assert_eq!(path, "dl/x_20240101_120000.log");
}

#[test]
fn parse_receive_code_trims_and_strips_prefix() {
    let code = parse_receive_code(&"  wormhole receive  7-axle-tango ".to_string()).unwrap();
    assert_eq!(code, "7-axle-tango");
    let bare = parse_receive_code(&" 5-foo-bar\n".to_string()).unwrap();
    assert_eq!(bare, "5-foo-bar");
}

#[test]
fn parse_receive_code_rejects_blank_input() {
    let r = parse_receive_code(&"   ".to_string());
    match r {
        Err(TransferError::TransportFailure { message }) => {
            assert_eq!(message, "No code provided for receiving file.");
        }
        _ => panic!("blank input must be refused"),
    }
    assert!(matches!(
        parse_receive_code(&"".to_string()),
        Err(TransferError::TransportFailure { .. })
    ));
    // A bare paste of the prefix with no code after it trims down to the
    // words themselves, which are passed through as typed.
    assert_eq!(
        parse_receive_code(&"wormhole receive ".to_string()).unwrap(),
        "wormhole receive"
    );
}

#[test]
fn parse_receive_code_trims_unicode_whitespace() {
    let code = parse_receive_code(&"\u{a0}7-axle-tango\u{3000}".to_string()).unwrap();
    assert_eq!(code, "7-axle-tango");
}

#[test]
fn history_name_splits_on_last_dot() {
    let (name, ext) = split_history_name(&"report.tar.gz".to_string());
    assert_eq!(name, "report.tar");
    assert_eq!(ext, "gz");
    let (name, ext) = split_history_name(&"README".to_string());
    assert_eq!(name, "README");
    assert_eq!(ext, "");
    let (name, ext) = split_history_name(&".bashrc".to_string());
    assert_eq!(name, "");
    assert_eq!(ext, "bashrc");
}

#[test]
fn archive_names_are_recognised() {
    assert!(is_archive_file_name(&"report.tar.gz".to_string()));
    assert!(is_archive_file_name(&"bundle.tgz".to_string()));
    assert!(is_archive_file_name(&"photos.gz".to_string()));
    assert!(!is_archive_file_name(&"notes.txt".to_string()));
    assert!(should_extract(&"report.tar.gz".to_string(), true));
    assert!(!should_extract(&"report.tar.gz".to_string(), false));
    assert!(!should_extract(&"notes.txt".to_string(), true));
}

#[test]
fn connection_labels() {
    assert_eq!(connection_label(&ConnectionKind::Direct), "direct");
    assert_eq!(connection_label(&ConnectionKind::Relay), "relay");
    assert_eq!(
        connection_label(&ConnectionKind::RelayNamed {
            name: "hub".to_string()
        }),
        "relay (hub)"
    );
    assert_eq!(connection_label(&ConnectionKind::Unknown), "unknown");
}

#[test]
fn multi_send_uses_template_for_several_items() {
    let metas = vec![
        SourceMeta {
            path: "/tmp/a.txt".to_string(),
            name: "a.txt".to_string(),
            is_dir: false,
        },
        SourceMeta {
            path: "/tmp/b.txt".to_string(),
            name: "b.txt".to_string(),
            is_dir: false,
        },
        SourceMeta {
            path: "/tmp/c.txt".to_string(),
            name: "c.txt".to_string(),
            is_dir: false,
        },
    ];
    let plan = plan_multi_send(
        "send-1".to_string(),
        &metas,
        None,
        &"#-files-via-wyrmhole".to_string(),
    )
    .unwrap();
    assert_eq!(plan.display_name, "3-files-via-wyrmhole");
    assert_eq!(plan.payload_name, "3-files-via-wyrmhole.gz");
    assert!(plan.uses_archive);
}

#[test]
fn multi_send_honours_custom_name_and_single_item() {
    let metas = vec![SourceMeta {
        path: "/tmp/photos".to_string(),
        name: "photos".to_string(),
        is_dir: true,
    }];
    let plan = plan_multi_send(
        "send-2".to_string(),
        &metas,
        None,
        &"#-files-via-wyrmhole".to_string(),
    )
    .unwrap();
    assert_eq!(plan.display_name, "photos");
    let plan = plan_multi_send(
        "send-3".to_string(),
        &metas,
        Some("holiday".to_string()),
        &"#-files-via-wyrmhole".to_string(),
    )
    .unwrap();
    assert_eq!(plan.display_name, "holiday");
    assert_eq!(plan.payload_name, "holiday.gz");
}

#[test]
fn multi_send_blank_template_falls_back() {
    let metas = vec![
        SourceMeta {
            path: "/tmp/a".to_string(),
            name: "a".to_string(),
            is_dir: false,
        },
        SourceMeta {
            path: "/tmp/b".to_string(),
            name: "b".to_string(),
            is_dir: false,
        },
    ];
    let plan = plan_multi_send("send-4".to_string(), &metas, None, &"   ".to_string()).unwrap();
    assert_eq!(plan.display_name, "2-files-via-wyrmhole");
}

#[test]
fn multi_send_refuses_empty_set() {
    let metas: Vec<SourceMeta> = Vec::new();
    let refusal = plan_multi_send("send-5".to_string(), &metas, None, &"#".to_string());
    match refusal {
        Err(e) => {
            assert!(matches!(e, TransferError::NoSourcesProvided));
            assert_eq!(e.describe(), "No files provided");
        }
        Ok(_) => panic!("an empty send set must be refused"),
    }
}

#[test]
fn single_send_plans() {
    let plan = plan_single_send(
        "s".to_string(),
        "/tmp/notes.txt".to_string(),
        "notes.txt".to_string(),
        false,
    );
    assert_eq!(plan.display_name, "notes.txt");
    assert_eq!(plan.payload_name, "notes.txt");
    assert!(!plan.uses_archive);
    let plan = plan_single_send(
        "s".to_string(),
        "/tmp/photos".to_string(),
        "photos".to_string(),
        true,
    );
    assert_eq!(plan.payload_name, "photos.gz");
    assert!(plan.uses_archive);
}

#[test]
fn settings_defaults_and_accessors() {
    assert!(!default_auto_extract());
    assert_eq!(default_folder_name_format(), "#-files-via-wyrmhole");
    let mut s = AppSettings::with_defaults("dl".to_string(), "recv".to_string());
    assert_eq!(s.get_download_directory(), "dl");
    assert_eq!(s.get_received_files_directory(), "recv");
    assert!(!s.get_auto_extract_tarballs());
    assert_eq!(s.get_default_folder_name_format(), "#-files-via-wyrmhole");
    s.set_download_directory("elsewhere".to_string());
    s.set_received_files_directory("r2".to_string());
    s.set_auto_extract_tarballs(true);
    s.set_default_folder_name_format("# items".to_string());
    assert_eq!(s.get_download_directory(), "elsewhere");
    assert_eq!(s.get_received_files_directory(), "r2");
    assert!(s.get_auto_extract_tarballs());
    assert_eq!(s.get_default_folder_name_format(), "# items");
}

#[test]
fn preferred_relay_trims_and_filters() {
    assert_eq!(preferred_relay(&None), None);
    assert_eq!(preferred_relay(&Some("   ".to_string())), None);
    assert_eq!(
        preferred_relay(&Some(" tcp://relay.example:4001 ".to_string())),
        Some("tcp://relay.example:4001".to_string())
    );
}
