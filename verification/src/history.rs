//! History records for completed transfers: plain values that the caller
//! serialises and appends to its store. The engine decides exactly what
//! each record says — in particular how a file name is split into display
//! name and extension.

use vstd::prelude::*;
use crate::archive::ExtractedFile;
use crate::text::{
    chars_of, ends_with_spec, extension_of, push_chars, split_extension, stem_of, string_of,
};

verus! {

/// One record per completed send.
pub struct SentRecord {
    pub file_name: String,
    pub file_size: u64,
    pub file_extension: String,
    pub file_paths: Vec<String>,
    pub send_time: String,
    pub connection_code: String,
}

/// One record per received file.
pub struct ReceivedRecord {
    pub file_name: String,
    pub file_size: u64,
    pub file_extension: String,
    pub download_dir: String,
    pub download_time: String,
    pub connection_kind: String,
    pub peer_address: String,
}

/// The name a sent or received file is recorded under: everything before
/// the final `.`; a name with no `.` is kept whole.
pub open spec fn history_name(name: Seq<char>) -> Seq<char> {
    stem_of(name)
}

/// The extension a file is recorded with: everything after the final `.`,
/// empty when there is none.
pub open spec fn history_extension(name: Seq<char>) -> Seq<char> {
    extension_of(name)
}

/// The record for one plainly sent or received file name: split on the
/// final dot.
pub fn split_history_name(name_with_extension: &String) -> (parts: (String, String))
    ensures
        parts.0@ == history_name(name_with_extension@),
        parts.1@ == history_extension(name_with_extension@),
{
    let name_chars = chars_of(name_with_extension.as_str());
    let (stem, ext) = split_extension(&name_chars);
    (string_of(&stem), string_of(&ext))
}

/// The record for a completed send of one plain file.
pub fn sent_record_for_file(
    file_name: &String,
    file_size: u64,
    file_paths: Vec<String>,
    send_time: String,
    connection_code: String,
) -> (record: SentRecord)
    ensures
        record.file_name@ == history_name(file_name@),
        record.file_extension@ == history_extension(file_name@),
        record.file_size == file_size,
        record.file_paths == file_paths,
        record.send_time == send_time,
        record.connection_code == connection_code,
{
    let (name, extension) = split_history_name(file_name);
    SentRecord {
        file_name: name,
        file_size,
        file_extension: extension,
        file_paths,
        send_time,
        connection_code,
    }
}

/// The name an archive send is recorded under: the archive file name with
/// a trailing `.gz` removed.
pub open spec fn archive_record_name(archive_name: Seq<char>) -> Seq<char> {
    if ends_with_spec(archive_name, ".gz"@) {
        archive_name.subrange(0, archive_name.len() - ".gz"@.len())
    } else {
        archive_name
    }
}

/// Strips a trailing `.gz` from an archive file name.
pub fn strip_archive_suffix(archive_name: &Vec<char>) -> (out: Vec<char>)
    ensures
        out@ == archive_record_name(archive_name@),
{
    let mut suffix: Vec<char> = Vec::new();
    suffix.push('.');
    suffix.push('g');
    suffix.push('z');
    proof {
        reveal_strlit(".gz");
        assert(suffix@ =~= ".gz"@);
    }
    if crate::text::ends_with(archive_name, &suffix) {
        let end = archive_name.len() - 3;
        crate::text::copy_range(archive_name, 0, end)
    } else {
        crate::text::clone_chars(archive_name)
    }
}

/// The record for a completed send that went out as an archive: the
/// archive's own name (without its `.gz`) and size, with extension `gz`.
pub fn sent_record_for_archive(
    archive_name: &String,
    archive_size: u64,
    file_paths: Vec<String>,
    send_time: String,
    connection_code: String,
) -> (record: SentRecord)
    ensures
        record.file_name@ == archive_record_name(archive_name@),
        record.file_extension@ == "gz"@,
        record.file_size == archive_size,
        record.file_paths == file_paths,
        record.send_time == send_time,
        record.connection_code == connection_code,
{
    let name_chars = chars_of(archive_name.as_str());
    let stripped = strip_archive_suffix(&name_chars);
    let mut ext: Vec<char> = Vec::new();
    ext.push('g');
    ext.push('z');
    proof {
        reveal_strlit("gz");
        assert(ext@ =~= "gz"@);
    }
    SentRecord {
        file_name: string_of(&stripped),
        file_size: archive_size,
        file_extension: string_of(&ext),
        file_paths,
        send_time,
        connection_code,
    }
}

/// The record for one received file kept as it arrived.
pub fn received_record(
    file_name_with_extension: &String,
    file_size: u64,
    download_dir: String,
    download_time: String,
    connection_kind: String,
    peer_address: String,
) -> (record: ReceivedRecord)
    ensures
        record.file_name@ == history_name(file_name_with_extension@),
        record.file_extension@ == history_extension(file_name_with_extension@),
        record.file_size == file_size,
        record.download_dir == download_dir,
        record.download_time == download_time,
        record.connection_kind == connection_kind,
        record.peer_address == peer_address,
{
    let (name, extension) = split_history_name(file_name_with_extension);
    ReceivedRecord {
        file_name: name,
        file_size,
        file_extension: extension,
        download_dir,
        download_time,
        connection_kind,
        peer_address,
    }
}

/// The record for one file that came out of an extracted archive: its
/// display name split on the final dot, its size the byte count written.
pub fn received_record_for_extracted(
    extracted: &ExtractedFile,
    download_dir: String,
    download_time: String,
    connection_kind: String,
    peer_address: String,
) -> (record: ReceivedRecord)
    requires
        extracted.data@.len() <= u64::MAX,
    ensures
        record.file_name@ == history_name(extracted.display_name@),
        record.file_extension@ == history_extension(extracted.display_name@),
        record.file_size == extracted.data@.len(),
        record.download_dir == download_dir,
        record.download_time == download_time,
        record.connection_kind == connection_kind,
        record.peer_address == peer_address,
{
    let (name, extension) = split_history_name(&extracted.display_name);
    ReceivedRecord {
        file_name: name,
        file_size: extracted.data.len() as u64,
        file_extension: extension,
        download_dir,
        download_time,
        connection_kind,
        peer_address,
    }
}

/// How the transit connection is described in a received-file record:
/// `direct`, `relay`, `relay (name)`, or `unknown`.
pub enum ConnectionKind {
    Direct,
    RelayNamed { name: String },
    Relay,
    Unknown,
}

pub open spec fn connection_label_spec(kind: ConnectionKind) -> Seq<char> {
    match kind {
        ConnectionKind::Direct => "direct"@,
        ConnectionKind::RelayNamed { name } => "relay ("@ + name@ + ")"@,
        ConnectionKind::Relay => "relay"@,
        ConnectionKind::Unknown => "unknown"@,
    }
}

/// The label recorded for a transit connection kind.
pub fn connection_label(kind: &ConnectionKind) -> (label: String)
    ensures
        label@ == connection_label_spec(*kind),
{
    match kind {
        ConnectionKind::Direct => "direct".to_owned(),
        ConnectionKind::RelayNamed { name } => {
            let mut out = chars_of("relay (");
            let name_chars = chars_of(name.as_str());
            push_chars(&mut out, &name_chars);
            let close = chars_of(")");
            push_chars(&mut out, &close);
            assert(out@ =~= "relay ("@ + name@ + ")"@);
            string_of(&out)
        },
        ConnectionKind::Relay => "relay".to_owned(),
        ConnectionKind::Unknown => "unknown".to_owned(),
    }
}

} // verus!
