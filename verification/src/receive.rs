//! The receive side of the transfer orchestrator: parsing the typed
//! receive code, tracking the connection attempt, holding the inbound
//! offer until the user answers it exactly once, resolving a collision-free
//! destination, reporting download progress, and deciding what happens to
//! a received archive.

use vstd::prelude::*;
use crate::archive::ExtractedFile;
use crate::errors::TransferError;
use crate::history::{received_record_for_extracted, ReceivedRecord};
use crate::progress::{percentage_spec, transfer_percentage, DownloadProgress};
use crate::registry::{ConnectionEntry, DownloadEntry, OfferEntry, SessionRegistry};
use crate::resolve::{joined_path, resolve_name, resolved_name};
use crate::text::{
    chars_of, copy_range, ends_with_spec, starts_with, starts_with_spec, string_of,
    trim, trim_spec, trim_start, trim_start_spec,
};

verus! {

/// The code a typed receive line denotes: the line trimmed, with a leading
/// `wormhole receive ` (as pasted from another tool's output) stripped and
/// the rest trimmed again at the front.
pub open spec fn parsed_code_spec(input: Seq<char>) -> Seq<char> {
    let t = trim_spec(input);
    if starts_with_spec(t, "wormhole receive "@) {
        trim_start_spec(t.subrange("wormhole receive "@.len() as int, t.len() as int))
    } else {
        t
    }
}

/// Extracts the rendezvous code from a typed receive line; a line with no
/// code left after trimming is refused.
pub fn parse_receive_code(input: &String) -> (r: Result<String, TransferError>)
    ensures
        parsed_code_spec(input@).len() == 0 ==> (r matches Err(e) && e matches
            TransferError::TransportFailure { message } && message@
            == "No code provided for receiving file."@),
        parsed_code_spec(input@).len() > 0 ==> (r matches Ok(code) && code@ == parsed_code_spec(
            input@,
        )),
{
    let trimmed = trim(chars_of(input.as_str()));
    let prefix = chars_of("wormhole receive ");
    let code_chars = if starts_with(&trimmed, &prefix) {
        let n = trimmed.len();
        trim_start(copy_range(&trimmed, prefix.len(), n))
    } else {
        trimmed
    };
    if code_chars.len() == 0 {
        Err(TransferError::TransportFailure {
            message: "No code provided for receiving file.".to_owned(),
        })
    } else {
        Ok(string_of(&code_chars))
    }
}

/// Opens the window between "code submitted" and "offer obtained": a
/// connection-attempt entry with its cancellation trigger. An id already
/// live is refused with `DuplicateId`.
pub fn begin_connection(
    registry: &mut SessionRegistry,
    connection_id: &String,
    cancel: tokio::sync::oneshot::Sender<()>,
) -> (r: Result<(), TransferError>)
    requires
        old(registry).wf(),
    ensures
        final(registry).wf(),
        final(registry).sends@ == old(registry).sends@,
        final(registry).downloads@ == old(registry).downloads@,
        final(registry).offers@ == old(registry).offers@,
        old(registry).connections@.dom().contains(connection_id@) ==> (r matches Err(e)
            && e is DuplicateId) && final(registry).connections@ == old(registry).connections@,
        !old(registry).connections@.dom().contains(connection_id@) ==> r is Ok && final(registry).connections@ == old(registry).connections@.insert(
            connection_id@,
            (ConnectionEntry { cancel: cancel }),
        ),
{
    registry.connections.insert(connection_id.clone(), ConnectionEntry { cancel })
}

/// Closes a connection attempt on any terminal branch — failure, no offer,
/// or an offer obtained — removing its entry if it is still there.
pub fn end_connection(registry: &mut SessionRegistry, connection_id: &String)
    requires
        old(registry).wf(),
    ensures
        final(registry).wf(),
        final(registry).sends@ == old(registry).sends@,
        final(registry).downloads@ == old(registry).downloads@,
        final(registry).offers@ == old(registry).offers@,
        final(registry).connections@ == old(registry).connections@.remove(connection_id@),
{
    let taken = registry.connections.take(connection_id);
    proof {
        if !old(registry).connections@.dom().contains(connection_id@) {
            assert(old(registry).connections@.remove(connection_id@) =~= old(registry).connections@);
        }
    }
    match taken {
        Ok(_) => (),
        Err(_) => (),
    }
}

/// What is reported back to the caller when a peer offers a file.
pub struct OfferSummary {
    pub id: String,
    pub file_name: String,
    pub file_size: u64,
}

/// Records an obtained offer: the connection attempt is over (its entry
/// goes), and the offer is stored under its own fresh id until the user
/// answers it. A clash on the offer id is refused with `DuplicateId` —
/// the connection entry is removed either way.
pub fn offer_obtained(
    registry: &mut SessionRegistry,
    connection_id: &String,
    offer_id: String,
    file_name: String,
    file_size: u64,
) -> (r: Result<OfferSummary, TransferError>)
    requires
        old(registry).wf(),
    ensures
        final(registry).wf(),
        final(registry).sends@ == old(registry).sends@,
        final(registry).downloads@ == old(registry).downloads@,
        final(registry).connections@ == old(registry).connections@.remove(connection_id@),
        old(registry).offers@.dom().contains(offer_id@) ==> (r matches Err(e) && e is DuplicateId)
            && final(registry).offers@ == old(registry).offers@,
        !old(registry).offers@.dom().contains(offer_id@) ==> (r matches Ok(summary)
            && summary.id == offer_id && summary.file_name == file_name && summary.file_size
            == file_size) && final(registry).offers@ == old(registry).offers@.insert(
            offer_id@,
            (OfferEntry { file_name: file_name, file_size: file_size }),
        ),
{
    end_connection(registry, connection_id);
    let entry = OfferEntry { file_name: file_name.clone(), file_size };
    match registry.offers.insert(offer_id.clone(), entry) {
        Ok(()) => Ok(OfferSummary { id: offer_id, file_name, file_size }),
        Err(_) => Err(TransferError::DuplicateId),
    }
}

/// Records an obtained offer under a freshly minted id, as the connection
/// phase does it: the connection entry goes, the offer is stored, and the
/// summary carries the new id the caller answers with later. Failure is
/// possible only when the random draw collides with an id already live —
/// so only when the table already holds a 36-character id.
pub fn register_offer(
    registry: &mut SessionRegistry,
    connection_id: &String,
    file_name: String,
    file_size: u64,
) -> (r: Result<OfferSummary, TransferError>)
    requires
        old(registry).wf(),
    ensures
        final(registry).wf(),
        final(registry).sends@ == old(registry).sends@,
        final(registry).downloads@ == old(registry).downloads@,
        final(registry).connections@ == old(registry).connections@.remove(connection_id@),
        (r matches Ok(summary) ==> summary.id@.len() == 36 && summary.file_name == file_name
            && summary.file_size == file_size && final(registry).offers@ == old(
            registry,
        ).offers@.insert(
            summary.id@,
            (OfferEntry { file_name: file_name, file_size: file_size }),
        )),
        (r matches Err(e) ==> e is DuplicateId && final(registry).offers@ == old(
            registry,
        ).offers@ && (exists|k: Seq<char>|
            old(registry).offers@.dom().contains(k) && k.len() == 36)),
{
    let offer_id = crate::registry::fresh_session_id();
    let ghost drawn = offer_id@;
    let r = offer_obtained(registry, connection_id, offer_id, file_name, file_size);
    proof {
        if r is Err {
            assert(old(registry).offers@.dom().contains(drawn) && drawn.len() == 36);
        }
    }
    r
}

/// Consumes a pending offer — for accept and deny alike. The entry is
/// removed in the same step that hands it out, so no two callers can both
/// resolve the same offer; an id with no pending offer is `NotFound`.
pub fn claim_offer(registry: &mut SessionRegistry, offer_id: &String) -> (r: Result<
    OfferEntry,
    TransferError,
>)
    requires
        old(registry).wf(),
    ensures
        final(registry).wf(),
        final(registry).sends@ == old(registry).sends@,
        final(registry).downloads@ == old(registry).downloads@,
        final(registry).connections@ == old(registry).connections@,
        !old(registry).offers@.dom().contains(offer_id@) ==> (r matches Err(e) && e is NotFound)
            && final(registry).offers@ == old(registry).offers@,
        old(registry).offers@.dom().contains(offer_id@) ==> (r matches Ok(entry) && entry == old(registry).offers@[offer_id@]) && final(registry).offers@ == old(registry).offers@.remove(
            offer_id@,
        ),
{
    registry.offers.take(offer_id)
}

/// Where an accepted download will be written.
pub struct DownloadPlan {
    /// The collision-free path the file is created at.
    pub final_path: String,
    /// Its final name alone — what the user sees and history records.
    pub final_name: String,
}

/// Settles the destination for an accepted offer: the offered name, made
/// collision-free against the names already in the download directory,
/// joined onto that directory.
pub fn plan_download(
    download_dir: &String,
    offered_name: &String,
    existing: &Vec<String>,
    stamp: &String,
) -> (plan: DownloadPlan)
    ensures
        plan.final_name@ == resolved_name(existing.deep_view(), offered_name@, stamp@),
        plan.final_path@ == joined_path(
            download_dir@,
            resolved_name(existing.deep_view(), offered_name@, stamp@),
        ),
{
    let names = crate::resolve::names_of(existing);
    let offered_chars = chars_of(offered_name.as_str());
    let stamp_chars = chars_of(stamp.as_str());
    let resolved = resolve_name(&names, &offered_chars, &stamp_chars);
    let mut path_chars = chars_of(download_dir.as_str());
    path_chars.push('/');
    crate::text::push_chars(&mut path_chars, &resolved);
    assert(path_chars@ =~= joined_path(
        download_dir@,
        resolved_name(existing.deep_view(), offered_name@, stamp@),
    ));
    DownloadPlan { final_path: string_of(&path_chars), final_name: string_of(&resolved) }
}

/// Registers an accepted download once its destination stream is open: the
/// entry holds the display name and the cancellation trigger.
pub fn begin_download(
    registry: &mut SessionRegistry,
    download_id: &String,
    file_name: String,
    cancel: tokio::sync::oneshot::Sender<()>,
) -> (r: Result<(), TransferError>)
    requires
        old(registry).wf(),
    ensures
        final(registry).wf(),
        final(registry).sends@ == old(registry).sends@,
        final(registry).connections@ == old(registry).connections@,
        final(registry).offers@ == old(registry).offers@,
        old(registry).downloads@.dom().contains(download_id@) ==> (r matches Err(e)
            && e is DuplicateId) && final(registry).downloads@ == old(registry).downloads@,
        !old(registry).downloads@.dom().contains(download_id@) ==> r is Ok && final(registry).downloads@ == old(registry).downloads@.insert(
            download_id@,
            (DownloadEntry { file_name: file_name, cancel: cancel }),
        ),
{
    registry.downloads.insert(download_id.clone(), DownloadEntry { file_name, cancel })
}

/// What a failed accept publishes: the download-error event, unless the
/// failure is the user's own cancellation.
pub struct DownloadError {
    pub id: String,
    pub file_name: String,
    pub error: String,
}

/// Settles a failed accept. The download entry, if still live, is removed
/// and the failure is published as a download-error event. An entry that
/// is already gone means the cancellation consumed it first: the failure
/// is the user's own doing, and no error event is published — the caller
/// that asked for the cancellation already knows.
pub fn download_failed(
    registry: &mut SessionRegistry,
    download_id: &String,
    file_name: &String,
    message: String,
) -> (r: Option<DownloadError>)
    requires
        old(registry).wf(),
    ensures
        final(registry).wf(),
        final(registry).sends@ == old(registry).sends@,
        final(registry).connections@ == old(registry).connections@,
        final(registry).offers@ == old(registry).offers@,
        final(registry).downloads@ == old(registry).downloads@.remove(download_id@),
        old(registry).downloads@.dom().contains(download_id@) ==> (r matches Some(e) && e.id@
            == download_id@ && e.file_name@ == file_name@ && e.error == message),
        !old(registry).downloads@.dom().contains(download_id@) ==> r is None,
{
    let taken = registry.downloads.take(download_id);
    proof {
        if !old(registry).downloads@.dom().contains(download_id@) {
            assert(old(registry).downloads@.remove(download_id@) =~= old(registry).downloads@);
        }
    }
    match taken {
        Ok(_) => Some(
            DownloadError {
                id: download_id.clone(),
                file_name: file_name.clone(),
                error: message,
            },
        ),
        Err(_) => None,
    }
}

/// Closes a download on any terminal branch, removing its entry if it is
/// still there.
pub fn end_download(registry: &mut SessionRegistry, download_id: &String)
    requires
        old(registry).wf(),
    ensures
        final(registry).wf(),
        final(registry).sends@ == old(registry).sends@,
        final(registry).connections@ == old(registry).connections@,
        final(registry).offers@ == old(registry).offers@,
        final(registry).downloads@ == old(registry).downloads@.remove(download_id@),
{
    let taken = registry.downloads.take(download_id);
    proof {
        if !old(registry).downloads@.dom().contains(download_id@) {
            assert(old(registry).downloads@.remove(download_id@) =~= old(registry).downloads@);
        }
    }
    match taken {
        Ok(_) => (),
        Err(_) => (),
    }
}

/// The progress event published for each (transferred, total) callback on
/// the receive side: no coalescing, the percentage computed the same way
/// as for sends.
pub fn download_progress_event(
    download_id: &String,
    file_name: &String,
    transferred: u64,
    total: u64,
) -> (event: DownloadProgress)
    ensures
        event.id@ == download_id@,
        event.file_name@ == file_name@,
        event.transferred == transferred,
        event.total == total,
        event.percentage as nat == percentage_spec(transferred as nat, total as nat),
{
    DownloadProgress {
        id: download_id.clone(),
        file_name: file_name.clone(),
        transferred,
        total,
        percentage: transfer_percentage(transferred, total),
    }
}

/// Whether a received file name is recognised as an archive: `.tar.gz`,
/// `.tgz`, or the bare `.gz` this engine gives multi-item bundles.
pub open spec fn archive_suffix_spec(name: Seq<char>) -> bool {
    ||| ends_with_spec(name, ".tar.gz"@)
    ||| ends_with_spec(name, ".tgz"@)
    ||| ends_with_spec(name, ".gz"@)
}

pub fn is_archive_file_name(name: &String) -> (r: bool)
    ensures
        r == archive_suffix_spec(name@),
{
    let name_chars = chars_of(name.as_str());
    let tar_gz = chars_of(".tar.gz");
    let tgz = chars_of(".tgz");
    let gz = chars_of(".gz");
    crate::text::ends_with(&name_chars, &tar_gz) || crate::text::ends_with(&name_chars, &tgz)
        || crate::text::ends_with(&name_chars, &gz)
}

/// Whether a finished download is unpacked in place: only when its final
/// name is a recognised archive and automatic extraction is switched on.
pub fn should_extract(final_name: &String, auto_extract: bool) -> (r: bool)
    ensures
        r == (archive_suffix_spec(final_name@) && auto_extract),
{
    auto_extract && is_archive_file_name(final_name)
}

/// One history record per extracted file, in archive order.
pub fn extraction_history(
    records: &Vec<ExtractedFile>,
    download_dir: &String,
    download_time: &String,
    connection_kind: &String,
    peer_address: &String,
) -> (out: Vec<ReceivedRecord>)
    requires
        forall|i: int| 0 <= i < records@.len() ==> (#[trigger] records@[i]).data@.len()
            <= u64::MAX,
    ensures
        out@.len() == records@.len(),
        forall|i: int|
            0 <= i < records@.len() ==> {
                let r = #[trigger] out@[i];
                &&& r.file_name@ == crate::history::history_name(records@[i].display_name@)
                &&& r.file_extension@ == crate::history::history_extension(
                    records@[i].display_name@,
                )
                &&& r.file_size == records@[i].data@.len()
                &&& r.download_dir@ == download_dir@
                &&& r.download_time@ == download_time@
                &&& r.connection_kind@ == connection_kind@
                &&& r.peer_address@ == peer_address@
            },
{
    let mut out: Vec<ReceivedRecord> = Vec::new();
    let mut i: usize = 0;
    while i < records.len()
        invariant
            i <= records@.len(),
            out@.len() == i,
            forall|k: int| 0 <= k < records@.len() ==> (#[trigger] records@[k]).data@.len()
                <= u64::MAX,
            forall|k: int|
                0 <= k < i ==> {
                    let r = #[trigger] out@[k];
                    &&& r.file_name@ == crate::history::history_name(records@[k].display_name@)
                    &&& r.file_extension@ == crate::history::history_extension(
                        records@[k].display_name@,
                    )
                    &&& r.file_size == records@[k].data@.len()
                    &&& r.download_dir@ == download_dir@
                    &&& r.download_time@ == download_time@
                    &&& r.connection_kind@ == connection_kind@
                    &&& r.peer_address@ == peer_address@
                },
        decreases records.len() - i,
    {
        let record = received_record_for_extracted(
            &records[i],
            download_dir.clone(),
            download_time.clone(),
            connection_kind.clone(),
            peer_address.clone(),
        );
        out.push(record);
        i = i + 1;
    }
    out
}

} // verus!
