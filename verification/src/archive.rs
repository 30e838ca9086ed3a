//! The archive engine: packs a send set (files and folders, in order,
//! under one wrapper folder) into a single gzip-compressed tar stream, and
//! takes such a stream apart again on receipt.
//!
//! The send set arrives as plain data — each source's name and bytes — and
//! the archive is built in memory; reading sources from disk and writing
//! extracted files back out is the caller's business. Only the tar and
//! gzip byte-level encoding itself is delegated to outside crates, behind
//! the trusted items at the bottom of this file.

use vstd::prelude::*;
use crate::errors::TransferError;
use crate::text::{chars_of, last_index_of, lemma_last_index_of, push_chars, rfind_char, string_of};

verus! {

broadcast use crate::text::lemma_chars_deep_view;

/// One entry of the archive stream: a relative path, whether it is a
/// directory, and the file bytes (empty for a directory).
pub struct ArchiveEntry {
    pub path: String,
    pub is_dir: bool,
    pub data: Vec<u8>,
}

impl View for ArchiveEntry {
    type V = (Seq<char>, bool, Seq<u8>);

    open spec fn view(&self) -> (Seq<char>, bool, Seq<u8>) {
        (self.path@, self.is_dir, self.data@)
    }
}

/// The models of a list of entries.
pub open spec fn entry_views(entries: Seq<ArchiveEntry>) -> Seq<(Seq<char>, bool, Seq<u8>)> {
    entries.map_values(|e: ArchiveEntry| e@)
}

/// One file inside a directory source, named by its path relative to that
/// directory (it may contain `/`).
pub struct DirFile {
    pub rel_path: String,
    pub data: Vec<u8>,
}

/// What a source path held when it was read for packing. `Missing` records
/// that the path had vanished between the request and the packing step.
pub enum SourceData {
    Missing,
    File(Vec<u8>),
    Dir(Vec<DirFile>),
}

/// One member of a send set: its base name and its contents.
pub struct SendSource {
    pub name: String,
    pub data: SourceData,
}

/// Whether some source of the set vanished before packing.
pub open spec fn has_missing(sources: Seq<SendSource>) -> bool {
    exists|i: int| 0 <= i < sources.len() && sources[i].data is Missing
}

/// The archive entries for the files of one directory source: each file of
/// the directory under `prefix`, in order.
pub open spec fn dir_file_entries(files: Seq<DirFile>, prefix: Seq<char>) -> Seq<
    (Seq<char>, bool, Seq<u8>),
>
    decreases files.len(),
{
    if files.len() == 0 {
        Seq::empty()
    } else {
        seq![(prefix + files[0].rel_path@, false, files[0].data@)] + dir_file_entries(
            files.drop_first(),
            prefix,
        )
    }
}

/// The archive entries for one source under the wrapper folder: a single
/// file entry `wrapper/name`, or a directory entry `wrapper/name/` followed
/// by every file of the directory.
pub open spec fn source_entries(source: SendSource, wrapper: Seq<char>) -> Seq<
    (Seq<char>, bool, Seq<u8>),
> {
    match source.data {
        SourceData::Missing => Seq::empty(),
        SourceData::File(bytes) => seq![
            (wrapper + seq!['/'] + source.name@, false, bytes@),
        ],
        SourceData::Dir(files) => seq![
            (wrapper + seq!['/'] + source.name@ + seq!['/'], true, Seq::<u8>::empty()),
        ] + dir_file_entries(files@, wrapper + seq!['/'] + source.name@ + seq!['/']),
    }
}

/// The full entry list for a send set: every source's entries, in the order
/// the sources were given. Insertion order is the archive's order.
pub open spec fn planned_entries(sources: Seq<SendSource>, wrapper: Seq<char>) -> Seq<
    (Seq<char>, bool, Seq<u8>),
>
    decreases sources.len(),
{
    if sources.len() == 0 {
        Seq::empty()
    } else {
        source_entries(sources[0], wrapper) + planned_entries(sources.drop_first(), wrapper)
    }
}

/// Whether a `.` or `..` component starts at position `i` of the path:
/// the tar layer drops the former and refuses the latter, so neither is
/// stored verbatim.
pub open spec fn dot_component_at(p: Seq<char>, i: int) -> bool {
    &&& 0 <= i < p.len()
    &&& (i == 0 || p[i - 1] == '/')
    &&& p[i] == '.'
    &&& {
        ||| i + 1 == p.len()
        ||| p[i + 1] == '/'
        ||| (p[i + 1] == '.' && (i + 2 == p.len() || p[i + 2] == '/'))
    }
}

/// A path the tar layer stores verbatim: non-empty and relative, with no
/// NUL and no backslash, no empty component (`//`), and no `.` or `..`
/// component — the tar layer normalises or refuses all of those.
pub open spec fn wf_path(p: Seq<char>) -> bool {
    &&& p.len() > 0
    &&& p[0] != '/'
    &&& forall|i: int| 0 <= i < p.len() ==> p[i] != '\u{0}' && p[i] != '\\'
    &&& forall|i: int| 0 <= i && i + 1 < p.len() ==> !((#[trigger] p[i]) == '/' && p[i + 1] == '/')
    &&& forall|i: int| 0 <= i < p.len() ==> !(#[trigger] dot_component_at(p, i))
}

/// Every entry path of the list is stored verbatim.
pub open spec fn wf_entries(entries: Seq<(Seq<char>, bool, Seq<u8>)>) -> bool {
    forall|i: int| 0 <= i < entries.len() ==> wf_path((#[trigger] entries[i]).0)
}

/// Checks `wf_path` on a character list.
fn path_ok(p: &Vec<char>) -> (ok: bool)
    ensures
        ok == wf_path(p@),
{
    if p.len() == 0 {
        return false;
    }
    if p[0] == '/' {
        return false;
    }
    let n = p.len();
    let mut i: usize = 0;
    while i < n
        invariant
            i <= n,
            n == p@.len(),
            forall|j: int| 0 <= j < i ==> p@[j] != '\u{0}' && p@[j] != '\\',
            forall|j: int| 0 <= j && j + 1 < p@.len() && j < i ==> !((#[trigger] p@[j]) == '/'
                && p@[j + 1] == '/'),
            forall|j: int| 0 <= j < i ==> !dot_component_at(p@, j),
        decreases n - i,
    {
        if p[i] == '\u{0}' || p[i] == '\\' {
            return false;
        }
        if p[i] == '/' && i + 1 < n && p[i + 1] == '/' {
            return false;
        }
        if (i == 0 || p[i - 1] == '/') && p[i] == '.' {
            if i + 1 == n || p[i + 1] == '/' {
                assert(dot_component_at(p@, i as int));
                return false;
            }
            if p[i + 1] == '.' && (i + 2 == n || p[i + 2] == '/') {
                assert(dot_component_at(p@, i as int));
                return false;
            }
        }
        i = i + 1;
    }
    true
}

/// A copy of a byte vector.
pub fn clone_bytes(v: &Vec<u8>) -> (out: Vec<u8>)
    ensures
        out@ == v@,
{
    let mut out: Vec<u8> = Vec::new();
    let mut i: usize = 0;
    while i < v.len()
        invariant
            i <= v@.len(),
            out@ == v@.subrange(0, i as int),
        decreases v.len() - i,
    {
        out.push(v[i]);
        assert(out@ =~= v@.subrange(0, i + 1 as int));
        i = i + 1;
    }
    assert(out@ =~= v@);
    out
}

/// Turns a send set into its archive entry list, in input order, or
/// reports the set unusable because a source vanished.
pub fn plan_entries(sources: &Vec<SendSource>, wrapper: &Vec<char>) -> (r: Result<
    Vec<ArchiveEntry>,
    TransferError,
>)
    ensures
        (r matches Ok(entries) ==> !has_missing(sources@) && entry_views(entries@)
            == planned_entries(sources@, wrapper@)),
        (r matches Err(e) ==> e is SourceMissing && has_missing(sources@)),
{
    let mut out: Vec<ArchiveEntry> = Vec::new();
    let mut i: usize = 0;
    assert(sources@.subrange(0, sources@.len() as int) =~= sources@);
    assert(Seq::<(Seq<char>, bool, Seq<u8>)>::empty() + planned_entries(sources@, wrapper@)
        =~= planned_entries(sources@, wrapper@));
    while i < sources.len()
        invariant
            i <= sources@.len(),
            forall|j: int| 0 <= j < i ==> !(sources@[j].data is Missing),
            planned_entries(sources@, wrapper@) == entry_views(out@) + planned_entries(
                sources@.subrange(i as int, sources@.len() as int),
                wrapper@,
            ),
        decreases sources.len() - i,
    {
        let ghost pre = entry_views(out@);
        let ghost rest = sources@.subrange(i as int, sources@.len() as int);
        proof {
            assert(rest[0] == sources@[i as int]);
            assert(rest.drop_first() =~= sources@.subrange(
                i + 1,
                sources@.len() as int,
            ));
        }
        match &sources[i].data {
            SourceData::Missing => {
                return Err(TransferError::SourceMissing);
            },
            SourceData::File(bytes) => {
                let mut path = push_wrapper_name(wrapper, &sources[i].name);
                out.push(
                    ArchiveEntry { path: string_of(&path), is_dir: false, data: clone_bytes(bytes) },
                );
                proof {
                    assert(entry_views(out@) =~= pre + source_entries(
                        sources@[i as int],
                        wrapper@,
                    ));
                }
            },
            SourceData::Dir(files) => {
                let mut dir_path = push_wrapper_name(wrapper, &sources[i].name);
                dir_path.push('/');
                let ghost prefix = wrapper@ + seq!['/'] + sources@[i as int].name@ + seq!['/'];
                assert(dir_path@ =~= prefix);
                out.push(
                    ArchiveEntry { path: string_of(&dir_path), is_dir: true, data: Vec::new() },
                );
                let ghost mid = entry_views(out@);
                assert(mid =~= pre + seq![(prefix, true, Seq::<u8>::empty())]);
                let mut k: usize = 0;
                assert(files@.subrange(0, files@.len() as int) =~= files@);
                assert(mid + Seq::<(Seq<char>, bool, Seq<u8>)>::empty() =~= mid);
                while k < files.len()
                    invariant
                        k <= files@.len(),
                        dir_path@ == prefix,
                        entry_views(out@) == mid + dir_file_entries(
                            files@.subrange(0, k as int),
                            prefix,
                        ),
                    decreases files.len() - k,
                {
                    let ghost before = entry_views(out@);
                    let mut fpath = crate::text::clone_chars(&dir_path);
                    let rel = chars_of(files[k].rel_path.as_str());
                    push_chars(&mut fpath, &rel);
                    out.push(
                        ArchiveEntry {
                            path: string_of(&fpath),
                            is_dir: false,
                            data: clone_bytes(&files[k].data),
                        },
                    );
                    proof {
                        assert(entry_views(out@) =~= before + seq![
                            (prefix + files@[k as int].rel_path@, false, files@[k as int].data@),
                        ]);
                        lemma_dir_file_entries_snoc(files@, prefix, k as int);
                    }
                    k = k + 1;
                }
                proof {
                    assert(files@.subrange(0, files@.len() as int) =~= files@);
                    assert(entry_views(out@) =~= pre + source_entries(
                        sources@[i as int],
                        wrapper@,
                    ));
                }
            },
        }
        proof {
            assert(pre + (source_entries(sources@[i as int], wrapper@) + planned_entries(
                sources@.subrange(i + 1, sources@.len() as int),
                wrapper@,
            )) =~= entry_views(out@) + planned_entries(
                sources@.subrange(i + 1, sources@.len() as int),
                wrapper@,
            ));
        }
        i = i + 1;
    }
    proof {
        assert(sources@.subrange(sources@.len() as int, sources@.len() as int)
            =~= Seq::<SendSource>::empty());
        assert(entry_views(out@) + Seq::<(Seq<char>, bool, Seq<u8>)>::empty()
            =~= entry_views(out@));
    }
    Ok(out)
}

/// Builds `wrapper/name` as characters.
fn push_wrapper_name(wrapper: &Vec<char>, name: &String) -> (out: Vec<char>)
    ensures
        out@ == wrapper@ + seq!['/'] + name@,
{
    let mut out = crate::text::clone_chars(wrapper);
    out.push('/');
    let name_chars = chars_of(name.as_str());
    push_chars(&mut out, &name_chars);
    assert(out@ =~= wrapper@ + seq!['/'] + name@);
    out
}

/// An in-memory archive writer: a tar stream builder over a gzip encoder
/// over a byte buffer. Verus cannot declare the outside builder type with
/// its `std::io::Write` bound, so the writer is held in an opaque struct
/// and spoken of only through `writer_entries`.
#[verifier::external_body]
pub struct ArchiveWriter {
    inner: tar::Builder<flate2::write::GzEncoder<Vec<u8>>>,
}

/// The entries appended so far to an in-memory archive writer.
pub uninterp spec fn writer_entries(w: ArchiveWriter) -> Seq<(Seq<char>, bool, Seq<u8>)>;

/// The bytes of the finished gzip-compressed tar stream for an entry list.
/// The stream is a function of the entries alone because the writer below
/// leaves nothing to vary: flate2's encoder writes a zero mtime and a
/// fixed operating-system byte, compresses at the fixed fastest level with
/// its pure-Rust backend, and every tar header field besides path, kind
/// and size is a constant set here.
pub uninterp spec fn archive_bytes(entries: Seq<(Seq<char>, bool, Seq<u8>)>) -> Seq<u8>;

/// Relies on `tar::Builder::new` and `flate2::write::GzEncoder::new`:
/// a fresh writer over an empty buffer holds no entries.
#[verifier::external_body]
fn writer_new() -> (w: ArchiveWriter)
    ensures
        writer_entries(w) == Seq::<(Seq<char>, bool, Seq<u8>)>::empty(),
{
    ArchiveWriter {
        inner: tar::Builder::new(
            flate2::write::GzEncoder::new(Vec::new(), flate2::Compression::fast()),
        ),
    }
}

/// Relies on `tar::Builder::append_data`: it appends exactly one entry
/// with this path, this kind and these bytes. The fields of the header
/// that `append_data` does not overwrite are fixed constants here, so the
/// entry written is determined by the arguments; and for a well-formed
/// path the call cannot fail — the path passes every check the header
/// writer makes, and the bytes land in the in-memory buffer.
#[verifier::external_body]
fn writer_append(w: &mut ArchiveWriter, path: &String, is_dir: bool, data: &Vec<u8>)
    requires
        wf_path(path@),
    ensures
        writer_entries(*final(w)) == writer_entries(*old(w)).push((path@, is_dir, data@)),
{
    let mut header = tar::Header::new_gnu();
    header.set_entry_type(if is_dir { tar::EntryType::dir() } else { tar::EntryType::file() });
    header.set_mode(if is_dir { 0o755 } else { 0o644 });
    header.set_size(data.len() as u64);
    let path_ref = std::path::Path::new(path.as_str());
    w.inner.append_data(&mut header, path_ref, data.as_slice()).unwrap();
}

/// Relies on `tar::Builder::into_inner` and `GzEncoder::finish`: they
/// flush the archive's terminator and the gzip trailer, and the buffer
/// then holds the whole stream for the entries appended so far. Both
/// flushes write into the in-memory buffer and cannot fail.
#[verifier::external_body]
fn writer_finish(w: ArchiveWriter) -> (bytes: Vec<u8>)
    ensures
        bytes@ == archive_bytes(writer_entries(w)),
{
    w.inner.into_inner().unwrap().finish().unwrap()
}

/// Relies on `tar::Archive` over `flate2::read::GzDecoder` reading back
/// exactly what the writer above wrote: a stream produced for a list of
/// well-formed entries decodes to that list, path for path and byte for
/// byte, with directory entries still marked as directories. A
/// well-formed path is stored verbatim — short ones into the header
/// (whose writer copies components unchanged, keeping a trailing slash),
/// long ones as a raw long-name record — and read back unchanged; the
/// data bytes come back from the sized entry body. `wf_path` exists
/// precisely to keep out the paths the tar layer would normalise.
#[verifier::external_body]
fn read_archive(bytes: &Vec<u8>) -> (r: Option<Vec<ArchiveEntry>>)
    ensures
        forall|es: Seq<(Seq<char>, bool, Seq<u8>)>|
            wf_entries(es) && bytes@ == #[trigger] archive_bytes(es) ==> r is Some
                && entry_views(r->0@) == es,
{
    let mut out = Vec::new();
    let mut archive = tar::Archive::new(flate2::read::GzDecoder::new(bytes.as_slice()));
    for entry in archive.entries().ok()? {
        let mut entry = entry.ok()?;
        let path = entry.path().ok()?.to_string_lossy().into_owned();
        let is_dir = entry.header().entry_type().is_dir();
        let mut data = Vec::new();
        std::io::Read::read_to_end(&mut entry, &mut data).ok()?;
        out.push(ArchiveEntry { path, is_dir, data });
    }
    Some(out)
}

/// Encodes an entry list into one gzip-compressed tar stream: exactly the
/// stream for this list whenever every path is one the tar layer stores
/// verbatim, and `ArchiveWriteFailed` — with nothing written — otherwise.
pub fn encode_entries(entries: &Vec<ArchiveEntry>) -> (r: Result<Vec<u8>, TransferError>)
    ensures
        wf_entries(entry_views(entries@)) ==> r is Ok,
        (r matches Ok(bytes) ==> wf_entries(entry_views(entries@)) && bytes@ == archive_bytes(
            entry_views(entries@),
        )),
        (r matches Err(e) ==> e is ArchiveWriteFailed),
{
    let mut writer = writer_new();
    let mut i: usize = 0;
    assert(entry_views(entries@).subrange(0, 0) =~= Seq::<(Seq<char>, bool, Seq<u8>)>::empty());
    while i < entries.len()
        invariant
            i <= entries@.len(),
            writer_entries(writer) == entry_views(entries@).subrange(0, i as int),
            forall|j: int| 0 <= j < i ==> wf_path((#[trigger] entry_views(entries@)[j]).0),
        decreases entries.len() - i,
    {
        let path_chars = chars_of(entries[i].path.as_str());
        if !path_ok(&path_chars) {
            assert(entry_views(entries@)[i as int].0 == entries@[i as int].path@);
            assert(!wf_entries(entry_views(entries@)));
            return Err(TransferError::ArchiveWriteFailed);
        }
        writer_append(&mut writer, &entries[i].path, entries[i].is_dir, &entries[i].data);
        assert(writer_entries(writer) =~= entry_views(entries@).subrange(0, i + 1 as int));
        i = i + 1;
    }
    assert(entry_views(entries@).subrange(0, entries@.len() as int) =~= entry_views(entries@));
    Ok(writer_finish(writer))
}

/// Packs a send set under one wrapper folder into a single compressed
/// archive stream, in input order. A vanished source is reported as
/// `SourceMissing`, a path the tar layer would not store verbatim as
/// `ArchiveWriteFailed`; every other set is owed success, and the stream
/// handed back is exactly the one for the planned entry list — its length
/// is the true size to put on the wire.
pub fn pack(sources: &Vec<SendSource>, wrapper: &Vec<char>) -> (r: Result<Vec<u8>, TransferError>)
    requires
        wrapper@.len() > 0,
    ensures
        (has_missing(sources@) ==> (r matches Err(e) && e is SourceMissing)),
        !has_missing(sources@) && wf_entries(planned_entries(sources@, wrapper@)) ==> r is Ok,
        (r matches Ok(bytes) ==> !has_missing(sources@) && wf_entries(
            planned_entries(sources@, wrapper@),
        ) && bytes@ == archive_bytes(planned_entries(sources@, wrapper@))),
        (r matches Err(e) ==> e is SourceMissing || e is ArchiveWriteFailed),
        (r matches Err(e) && e is SourceMissing ==> has_missing(sources@)),
{
    let entries = match plan_entries(sources, wrapper) {
        Ok(entries) => entries,
        Err(e) => {
            return Err(e);
        },
    };
    encode_entries(&entries)
}

/// One record of an extraction: where the file was written, the name shown
/// to the user (the last component of the entry path), and its bytes. The
/// byte count of the record is the length of `data`.
pub struct ExtractedFile {
    pub path: String,
    pub display_name: String,
    pub data: Vec<u8>,
}

impl View for ExtractedFile {
    type V = (Seq<char>, Seq<char>, Seq<u8>);

    open spec fn view(&self) -> (Seq<char>, Seq<char>, Seq<u8>) {
        (self.path@, self.display_name@, self.data@)
    }
}

pub open spec fn record_views(records: Seq<ExtractedFile>) -> Seq<(Seq<char>, Seq<char>, Seq<u8>)> {
    records.map_values(|r: ExtractedFile| r@)
}

/// The last `/`-separated component of a path.
pub open spec fn base_name(p: Seq<char>) -> Seq<char> {
    let i = last_index_of(p, '/');
    if i < 0 {
        p
    } else {
        p.subrange(i + 1, p.len() as int)
    }
}

/// The record one file entry yields: destination path, display name, bytes.
pub open spec fn file_record(entry: (Seq<char>, bool, Seq<u8>), dest: Seq<char>) -> (
    Seq<char>,
    Seq<char>,
    Seq<u8>,
) {
    (dest + seq!['/'] + entry.0, base_name(entry.0), entry.2)
}

/// The records an entry list yields on extraction into `dest`: one per file
/// entry, in order; directory entries yield none.
pub open spec fn extraction_records(
    entries: Seq<(Seq<char>, bool, Seq<u8>)>,
    dest: Seq<char>,
) -> Seq<(Seq<char>, Seq<char>, Seq<u8>)>
    decreases entries.len(),
{
    if entries.len() == 0 {
        Seq::empty()
    } else if entries[0].1 {
        extraction_records(entries.drop_first(), dest)
    } else {
        seq![file_record(entries[0], dest)] + extraction_records(entries.drop_first(), dest)
    }
}

proof fn lemma_extraction_records_snoc(
    entries: Seq<(Seq<char>, bool, Seq<u8>)>,
    dest: Seq<char>,
    k: int,
)
    requires
        0 <= k < entries.len(),
    ensures
        extraction_records(entries.subrange(0, k + 1), dest) == extraction_records(
            entries.subrange(0, k),
            dest,
        ) + (if entries[k].1 {
            Seq::<(Seq<char>, Seq<char>, Seq<u8>)>::empty()
        } else {
            seq![file_record(entries[k], dest)]
        }),
    decreases k,
{
    let a = entries.subrange(0, k + 1);
    let b = entries.subrange(0, k);
    let tail = (if entries[k].1 {
        Seq::<(Seq<char>, Seq<char>, Seq<u8>)>::empty()
    } else {
        seq![file_record(entries[k], dest)]
    });
    if k == 0 {
        assert(a[0] == entries[0]);
        assert(a.drop_first() =~= Seq::<(Seq<char>, bool, Seq<u8>)>::empty());
        assert(b =~= Seq::<(Seq<char>, bool, Seq<u8>)>::empty());
        assert(extraction_records(Seq::<(Seq<char>, bool, Seq<u8>)>::empty(), dest)
            == Seq::<(Seq<char>, Seq<char>, Seq<u8>)>::empty());
        assert(extraction_records(a.drop_first(), dest)
            == Seq::<(Seq<char>, Seq<char>, Seq<u8>)>::empty());
        if entries[0].1 {
            assert(extraction_records(a, dest) =~= tail);
        } else {
            assert(extraction_records(a, dest) == seq![file_record(a[0], dest)]
                + extraction_records(a.drop_first(), dest));
            assert(extraction_records(a, dest) =~= tail);
        }
        assert(extraction_records(b, dest) + tail =~= tail);
    } else {
        lemma_extraction_records_snoc(entries.drop_first(), dest, k - 1);
        assert(a[0] == entries[0]);
        assert(b[0] == entries[0]);
        assert(a.drop_first() =~= entries.drop_first().subrange(0, k));
        assert(b.drop_first() =~= entries.drop_first().subrange(0, k - 1));
        assert(entries.drop_first()[k - 1] == entries[k]);
        if entries[0].1 {
        } else {
            assert(seq![file_record(entries[0], dest)] + (extraction_records(
                b.drop_first(),
                dest,
            ) + tail) =~= (seq![file_record(entries[0], dest)] + extraction_records(
                b.drop_first(),
                dest,
            )) + tail);
        }
    }
}

/// Computes the extraction records for a decoded entry list: directory
/// entries are skipped, every file entry yields one record with its
/// destination path, its display name and its bytes, in archive order.
pub fn extract_records(entries: &Vec<ArchiveEntry>, dest: &Vec<char>) -> (records: Vec<
    ExtractedFile,
>)
    ensures
        record_views(records@) == extraction_records(entry_views(entries@), dest@),
{
    let mut out: Vec<ExtractedFile> = Vec::new();
    let mut i: usize = 0;
    assert(entry_views(entries@).subrange(0, 0) =~= Seq::<(Seq<char>, bool, Seq<u8>)>::empty());
    assert(record_views(out@) =~= extraction_records(entry_views(entries@).subrange(0, 0), dest@));
    while i < entries.len()
        invariant
            i <= entries@.len(),
            record_views(out@) == extraction_records(
                entry_views(entries@).subrange(0, i as int),
                dest@,
            ),
        decreases entries.len() - i,
    {
        let ghost pre = record_views(out@);
        if !entries[i].is_dir {
            let path_chars = chars_of(entries[i].path.as_str());
            let mut full = crate::text::clone_chars(dest);
            full.push('/');
            push_chars(&mut full, &path_chars);
            assert(full@ =~= dest@ + seq!['/'] + entries@[i as int].path@);
            let display = base_component(&path_chars);
            out.push(
                ExtractedFile {
                    path: string_of(&full),
                    display_name: string_of(&display),
                    data: clone_bytes(&entries[i].data),
                },
            );
            assert(record_views(out@) =~= pre + seq![
                file_record(entry_views(entries@)[i as int], dest@),
            ]);
        }
        proof {
            lemma_extraction_records_snoc(entry_views(entries@), dest@, i as int);
            if entries@[i as int].is_dir {
                assert(pre + Seq::<(Seq<char>, Seq<char>, Seq<u8>)>::empty() =~= pre);
            }
        }
        i = i + 1;
    }
    assert(entry_views(entries@).subrange(0, entries@.len() as int) =~= entry_views(entries@));
    out
}

/// The last `/`-separated component of a path, as characters.
fn base_component(p: &Vec<char>) -> (out: Vec<char>)
    ensures
        out@ == base_name(p@),
{
    proof {
        lemma_last_index_of(p@, '/');
    }
    match rfind_char(p, '/') {
        None => crate::text::clone_chars(p),
        Some(i) => {
            let n = p.len();
            crate::text::copy_range(p, i + 1, n)
        },
    }
}

/// Takes an archive stream apart: for a stream that `pack` produced for a
/// well-formed entry list, the result is exactly that list's extraction
/// records. A stream that cannot be read back is `ExtractionFailed`.
pub fn unpack(bytes: &Vec<u8>, dest_dir: &String) -> (r: Result<Vec<ExtractedFile>, TransferError>)
    ensures
        forall|es: Seq<(Seq<char>, bool, Seq<u8>)>|
            wf_entries(es) && bytes@ == #[trigger] archive_bytes(es) ==> (r matches Ok(records)
                && record_views(records@) == extraction_records(es, dest_dir@)),
        (r matches Err(e) ==> e is ExtractionFailed),
{
    let dest = chars_of(dest_dir.as_str());
    match read_archive(bytes) {
        Some(entries) => Ok(extract_records(&entries, &dest)),
        None => Err(TransferError::ExtractionFailed),
    }
}

/// The extraction records owed for the files of one directory source.
pub open spec fn expected_dir_records(files: Seq<DirFile>, prefix: Seq<char>, dest: Seq<char>) -> Seq<
    (Seq<char>, Seq<char>, Seq<u8>),
>
    decreases files.len(),
{
    if files.len() == 0 {
        Seq::empty()
    } else {
        seq![
            (
                dest + seq!['/'] + prefix + files[0].rel_path@,
                base_name(prefix + files[0].rel_path@),
                files[0].data@,
            ),
        ] + expected_dir_records(files.drop_first(), prefix, dest)
    }
}

/// The extraction records owed for one source of the send set: exactly one
/// record per original file, carrying that file's bytes and its position
/// under the wrapper folder; none for the directory itself.
pub open spec fn expected_source_records(
    source: SendSource,
    wrapper: Seq<char>,
    dest: Seq<char>,
) -> Seq<(Seq<char>, Seq<char>, Seq<u8>)> {
    match source.data {
        SourceData::Missing => Seq::empty(),
        SourceData::File(bytes) => seq![
            (
                dest + seq!['/'] + wrapper + seq!['/'] + source.name@,
                base_name(wrapper + seq!['/'] + source.name@),
                bytes@,
            ),
        ],
        SourceData::Dir(files) => expected_dir_records(
            files@,
            wrapper + seq!['/'] + source.name@ + seq!['/'],
            dest,
        ),
    }
}

/// The extraction records owed for the whole send set, source by source in
/// input order.
pub open spec fn expected_records(
    sources: Seq<SendSource>,
    wrapper: Seq<char>,
    dest: Seq<char>,
) -> Seq<(Seq<char>, Seq<char>, Seq<u8>)>
    decreases sources.len(),
{
    if sources.len() == 0 {
        Seq::empty()
    } else {
        expected_source_records(sources[0], wrapper, dest) + expected_records(
            sources.drop_first(),
            wrapper,
            dest,
        )
    }
}

proof fn lemma_extraction_records_concat(
    a: Seq<(Seq<char>, bool, Seq<u8>)>,
    b: Seq<(Seq<char>, bool, Seq<u8>)>,
    dest: Seq<char>,
)
    ensures
        extraction_records(a + b, dest) == extraction_records(a, dest) + extraction_records(
            b,
            dest,
        ),
    decreases a.len(),
{
    if a.len() == 0 {
        assert(a + b =~= b);
        assert(extraction_records(a, dest) + extraction_records(b, dest) =~= extraction_records(
            b,
            dest,
        ));
    } else {
        lemma_extraction_records_concat(a.drop_first(), b, dest);
        assert((a + b).drop_first() =~= a.drop_first() + b);
        assert((a + b)[0] == a[0]);
        if !a[0].1 {
            assert(seq![file_record(a[0], dest)] + (extraction_records(a.drop_first(), dest)
                + extraction_records(b, dest)) =~= (seq![file_record(a[0], dest)]
                + extraction_records(a.drop_first(), dest)) + extraction_records(b, dest));
        }
    }
}

proof fn lemma_dir_records(files: Seq<DirFile>, prefix: Seq<char>, dest: Seq<char>)
    ensures
        extraction_records(dir_file_entries(files, prefix), dest) == expected_dir_records(
            files,
            prefix,
            dest,
        ),
    decreases files.len(),
{
    if files.len() == 0 {
    } else {
        lemma_dir_records(files.drop_first(), prefix, dest);
        let es = dir_file_entries(files, prefix);
        assert(es[0] == (prefix + files[0].rel_path@, false, files[0].data@));
        assert(es.drop_first() =~= dir_file_entries(files.drop_first(), prefix));
        assert(file_record(es[0], dest) == (
            dest + seq!['/'] + (prefix + files[0].rel_path@),
            base_name(prefix + files[0].rel_path@),
            files[0].data@,
        ));
        assert(dest + seq!['/'] + (prefix + files[0].rel_path@) =~= dest + seq!['/'] + prefix
            + files[0].rel_path@);
    }
}

proof fn lemma_source_records(source: SendSource, wrapper: Seq<char>, dest: Seq<char>)
    requires
        !(source.data is Missing),
    ensures
        extraction_records(source_entries(source, wrapper), dest) == expected_source_records(
            source,
            wrapper,
            dest,
        ),
{
    match source.data {
        SourceData::Missing => {},
        SourceData::File(bytes) => {
            let es = source_entries(source, wrapper);
            assert(es[0] == (wrapper + seq!['/'] + source.name@, false, bytes@));
            assert(es.drop_first() =~= Seq::<(Seq<char>, bool, Seq<u8>)>::empty());
            assert(extraction_records(es.drop_first(), dest)
                == Seq::<(Seq<char>, Seq<char>, Seq<u8>)>::empty());
            assert(dest + seq!['/'] + (wrapper + seq!['/'] + source.name@) =~= dest + seq!['/']
                + wrapper + seq!['/'] + source.name@);
            assert(extraction_records(es, dest) =~= expected_source_records(
                source,
                wrapper,
                dest,
            ));
        },
        SourceData::Dir(files) => {
            let prefix = wrapper + seq!['/'] + source.name@ + seq!['/'];
            let es = source_entries(source, wrapper);
            assert(es[0] == (prefix, true, Seq::<u8>::empty()));
            assert(es.drop_first() =~= dir_file_entries(files@, prefix));
            lemma_dir_records(files@, prefix, dest);
        },
    }
}

/// Packing then unpacking reproduces the send set. For every send set with
/// no vanished source, the records owed by extracting the packed archive
/// into `dest` are exactly one record per original file, in input order:
/// its bytes unchanged, its path placed under `dest/wrapper/...` at the
/// same relative position it had in the set, and its display name the last
/// component of its archive path. Directory entries yield no record.
pub proof fn lemma_pack_unpack_reproduces(
    sources: Seq<SendSource>,
    wrapper: Seq<char>,
    dest: Seq<char>,
)
    requires
        !has_missing(sources),
    ensures
        extraction_records(planned_entries(sources, wrapper), dest) == expected_records(
            sources,
            wrapper,
            dest,
        ),
    decreases sources.len(),
{
    if sources.len() == 0 {
    } else {
        assert(!(sources[0].data is Missing));
        assert(!has_missing(sources.drop_first())) by {
            assert(forall|i: int|
                0 <= i < sources.drop_first().len() ==> sources.drop_first()[i]
                    == sources[i + 1]);
        }
        lemma_pack_unpack_reproduces(sources.drop_first(), wrapper, dest);
        lemma_source_records(sources[0], wrapper, dest);
        lemma_extraction_records_concat(
            source_entries(sources[0], wrapper),
            planned_entries(sources.drop_first(), wrapper),
            dest,
        );
    }
}

/// How many files one source holds: one for a plain file, one per file of
/// a directory, none for a vanished source.
pub open spec fn source_file_count(source: SendSource) -> nat {
    match source.data {
        SourceData::Missing => 0,
        SourceData::File(_) => 1,
        SourceData::Dir(files) => files@.len(),
    }
}

/// How many files the whole send set holds.
pub open spec fn file_count(sources: Seq<SendSource>) -> nat
    decreases sources.len(),
{
    if sources.len() == 0 {
        0
    } else {
        source_file_count(sources[0]) + file_count(sources.drop_first())
    }
}

proof fn lemma_expected_dir_records_len(files: Seq<DirFile>, prefix: Seq<char>, dest: Seq<char>)
    ensures
        expected_dir_records(files, prefix, dest).len() == files.len(),
    decreases files.len(),
{
    if files.len() > 0 {
        lemma_expected_dir_records_len(files.drop_first(), prefix, dest);
    }
}

/// Extraction reports each original file exactly once: the number of
/// records owed for a packed send set is exactly the number of files the
/// set holds — directory entries add nothing.
pub proof fn lemma_extraction_count(sources: Seq<SendSource>, wrapper: Seq<char>, dest: Seq<char>)
    requires
        !has_missing(sources),
    ensures
        extraction_records(planned_entries(sources, wrapper), dest).len() == file_count(sources),
    decreases sources.len(),
{
    lemma_pack_unpack_reproduces(sources, wrapper, dest);
    lemma_expected_records_len(sources, wrapper, dest);
}

proof fn lemma_expected_records_len(sources: Seq<SendSource>, wrapper: Seq<char>, dest: Seq<char>)
    requires
        !has_missing(sources),
    ensures
        expected_records(sources, wrapper, dest).len() == file_count(sources),
    decreases sources.len(),
{
    if sources.len() > 0 {
        assert(!(sources[0].data is Missing));
        assert(!has_missing(sources.drop_first())) by {
            assert(forall|i: int|
                0 <= i < sources.drop_first().len() ==> sources.drop_first()[i]
                    == sources[i + 1]);
        }
        lemma_expected_records_len(sources.drop_first(), wrapper, dest);
        match sources[0].data {
            SourceData::Missing => {},
            SourceData::File(_) => {},
            SourceData::Dir(files) => {
                lemma_expected_dir_records_len(
                    files@,
                    wrapper + seq!['/'] + sources[0].name@ + seq!['/'],
                    dest,
                );
            },
        }
    }
}

proof fn lemma_dir_file_entries_snoc(files: Seq<DirFile>, prefix: Seq<char>, k: int)
    requires
        0 <= k < files.len(),
    ensures
        dir_file_entries(files.subrange(0, k + 1), prefix) == dir_file_entries(
            files.subrange(0, k),
            prefix,
        ) + seq![(prefix + files[k].rel_path@, false, files[k].data@)],
    decreases k,
{
    let a = files.subrange(0, k + 1);
    let b = files.subrange(0, k);
    if k == 0 {
        assert(a[0] == files[0]);
        assert(a.drop_first() =~= Seq::<DirFile>::empty());
        assert(dir_file_entries(a.drop_first(), prefix) == Seq::<(Seq<char>, bool, Seq<u8>)>::empty());
        assert(dir_file_entries(a, prefix) =~= seq![
            (prefix + files[0].rel_path@, false, files[0].data@),
        ]);
        assert(dir_file_entries(b, prefix) =~= Seq::<(Seq<char>, bool, Seq<u8>)>::empty());
        assert(dir_file_entries(b, prefix) + seq![(prefix + files[0].rel_path@, false, files[0].data@)]
            =~= dir_file_entries(a, prefix));
    } else {
        lemma_dir_file_entries_snoc(files.drop_first(), prefix, k - 1);
        assert(a.drop_first() =~= files.drop_first().subrange(0, k));
        assert(b.drop_first() =~= files.drop_first().subrange(0, k - 1));
        assert(a[0] == files[0]);
        assert(files.drop_first()[k - 1] == files[k]);
        assert(dir_file_entries(a, prefix) == seq![(prefix + a[0].rel_path@, false, a[0].data@)]
            + dir_file_entries(a.drop_first(), prefix));
        assert(dir_file_entries(b, prefix) == seq![(prefix + b[0].rel_path@, false, b[0].data@)]
            + dir_file_entries(b.drop_first(), prefix));
        assert(seq![(prefix + a[0].rel_path@, false, a[0].data@)] + (dir_file_entries(
            b.drop_first(),
            prefix,
        ) + seq![(prefix + files[k].rel_path@, false, files[k].data@)]) =~= dir_file_entries(
            b,
            prefix,
        ) + seq![(prefix + files[k].rel_path@, false, files[k].data@)]);
    }
}

} // verus!
