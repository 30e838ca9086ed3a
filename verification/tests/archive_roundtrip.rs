//! The archive engine against the real tar and gzip crates: packing a send
//! set and taking the stream apart again.

use wyrmhole_core::archive::{
    pack, plan_entries, unpack, DirFile, SendSource, SourceData,
};
use wyrmhole_core::errors::TransferError;
use wyrmhole_core::history::sent_record_for_archive;
use wyrmhole_core::receive::{extraction_history, should_extract};

fn wrapper(name: &str) -> Vec<char> {
    name.chars().collect()
}

#[test]
fn pack_then_unpack_reproduces_files() {
    let sources = vec![
        SendSource {
            name: "a.txt".to_string(),
            data: SourceData::File(b"alpha".to_vec()),
        },
        SendSource {
            name: "docs".to_string(),
            data: SourceData::Dir(vec![
                DirFile {
                    rel_path: "readme.md".to_string(),
                    data: b"# docs".to_vec(),
                },
                DirFile {
                    rel_path: "sub/deep.bin".to_string(),
                    data: vec![0u8, 1, 2, 255],
                },
            ]),
        },
        SendSource {
            name: "b.txt".to_string(),
            data: SourceData::File(Vec::new()),
        },
    ];
    let bytes = pack(&sources, &wrapper("bundle")).unwrap();
    assert!(!bytes.is_empty());

    let records = unpack(&bytes, &"out".to_string()).unwrap();
    assert_eq!(records.len(), 4);

    assert_eq!(records[0].path, "out/bundle/a.txt");
    assert_eq!(records[0].display_name, "a.txt");
    assert_eq!(records[0].data, b"alpha".to_vec());

    assert_eq!(records[1].path, "out/bundle/docs/readme.md");
    assert_eq!(records[1].display_name, "readme.md");
    assert_eq!(records[1].data, b"# docs".to_vec());

    assert_eq!(records[2].path, "out/bundle/docs/sub/deep.bin");
    assert_eq!(records[2].display_name, "deep.bin");
    assert_eq!(records[2].data, vec![0u8, 1, 2, 255]);

    assert_eq!(records[3].path, "out/bundle/b.txt");
    assert_eq!(records[3].display_name, "b.txt");
    assert!(records[3].data.is_empty());
}

#[test]
fn pack_then_unpack_keeps_long_paths() {
    let deep = format!("{}/{}/leaf.txt", "d".repeat(80), "e".repeat(80));
    let sources = vec![SendSource {
        name: "tree".to_string(),
        data: SourceData::Dir(vec![DirFile {
            rel_path: deep.clone(),
            data: b"deep".to_vec(),
        }]),
    }];
    let bytes = pack(&sources, &wrapper("w")).unwrap();
    let records = unpack(&bytes, &"out".to_string()).unwrap();
    assert_eq!(records.len(), 1);
    assert_eq!(records[0].path, format!("out/w/tree/{deep}"));
    assert_eq!(records[0].display_name, "leaf.txt");
    assert_eq!(records[0].data, b"deep".to_vec());
}

#[test]
fn pack_reports_a_vanished_source() {
    let sources = vec![
        SendSource {
            name: "a.txt".to_string(),
            data: SourceData::File(b"x".to_vec()),
        },
        SendSource {
            name: "gone.txt".to_string(),
            data: SourceData::Missing,
        },
    ];
    assert!(matches!(
        pack(&sources, &wrapper("bundle")),
        Err(TransferError::SourceMissing)
    ));
    assert!(matches!(
        plan_entries(&sources, &wrapper("bundle")),
        Err(TransferError::SourceMissing)
    ));
}

#[test]
fn pack_refuses_a_name_tar_would_mangle() {
    // A bare `.` as a source name would be dropped from the stored path,
    // so the engine refuses to write it rather than archive a lie.
    let sources = vec![SendSource {
        name: ".".to_string(),
        data: SourceData::File(b"x".to_vec()),
    }];
    assert!(matches!(
        pack(&sources, &wrapper("w")),
        Err(TransferError::ArchiveWriteFailed)
    ));
}

#[test]
fn planned_entries_keep_input_order() {
    let sources = vec![
        SendSource {
            name: "z.bin".to_string(),
            data: SourceData::File(vec![9u8]),
        },
        SendSource {
            name: "a.bin".to_string(),
            data: SourceData::File(vec![1u8]),
        },
    ];
    let entries = plan_entries(&sources, &wrapper("w")).unwrap();
    assert_eq!(entries.len(), 2);
    assert_eq!(entries[0].path, "w/z.bin");
    assert!(!entries[0].is_dir);
    assert_eq!(entries[1].path, "w/a.bin");
}

#[test]
fn unpack_refuses_garbage() {
    let garbage = vec![1u8, 2, 3, 4, 5];
    assert!(matches!(
        unpack(&garbage, &"out".to_string()),
        Err(TransferError::ExtractionFailed)
    ));
}

#[test]
fn three_file_bundle_under_template_name() {
    let sources = vec![
        SendSource {
            name: "one.txt".to_string(),
            data: SourceData::File(b"1".to_vec()),
        },
        SendSource {
            name: "two.txt".to_string(),
            data: SourceData::File(b"2".to_vec()),
        },
        SendSource {
            name: "three.txt".to_string(),
            data: SourceData::File(b"3".to_vec()),
        },
    ];
    let bytes = pack(&sources, &wrapper("3-files-via-wyrmhole")).unwrap();
    let records = unpack(&bytes, &"dl".to_string()).unwrap();
    assert_eq!(records.len(), 3);
    assert_eq!(records[0].path, "dl/3-files-via-wyrmhole/one.txt");
    assert_eq!(records[1].path, "dl/3-files-via-wyrmhole/two.txt");
    assert_eq!(records[2].path, "dl/3-files-via-wyrmhole/three.txt");

    let record = sent_record_for_archive(
        &"3-files-via-wyrmhole.gz".to_string(),
        bytes.len() as u64,
        vec!["/tmp/one.txt".to_string()],
        "now".to_string(),
        "7-code".to_string(),
    );
    assert_eq!(record.file_name, "3-files-via-wyrmhole");
    assert_eq!(record.file_extension, "gz");
}

#[test]
fn received_archive_is_extracted_or_kept() {
    let sources = vec![
        SendSource {
            name: "inner_a.txt".to_string(),
            data: SourceData::File(b"aa".to_vec()),
        },
        SendSource {
            name: "inner_b.txt".to_string(),
            data: SourceData::File(b"bbb".to_vec()),
        },
    ];
    let bytes = pack(&sources, &wrapper("report")).unwrap();

    // Automatic extraction on: one history record per contained file.
    assert!(should_extract(&"report.tar.gz".to_string(), true));
    let files = unpack(&bytes, &"dl".to_string()).unwrap();
    let history = extraction_history(
        &files,
        &"dl".to_string(),
        &"now".to_string(),
        &"direct".to_string(),
        &"1.2.3.4:5".to_string(),
    );
    assert_eq!(history.len(), 2);
    assert_eq!(history[0].file_name, "inner_a");
    assert_eq!(history[0].file_extension, "txt");
    assert_eq!(history[0].file_size, 2);
    assert_eq!(history[1].file_name, "inner_b");
    assert_eq!(history[1].file_size, 3);

    // Automatic extraction off: the archive stays one record.
    assert!(!should_extract(&"report.tar.gz".to_string(), false));
    let record = wyrmhole_core::history::received_record(
        &"report.tar.gz".to_string(),
        bytes.len() as u64,
        "dl".to_string(),
        "now".to_string(),
        "direct".to_string(),
        "1.2.3.4:5".to_string(),
    );
    assert_eq!(record.file_name, "report.tar");
    assert_eq!(record.file_extension, "gz");
}
