//! The send side of the transfer orchestrator, as a state machine: the
//! caller performs the outside work (mailbox, handshake, streaming) and
//! feeds the outcome of each step back as an event; this module decides,
//! for every state and event, the next state, the registry bookkeeping,
//! and the actions owed — events to publish, the archive to build, the
//! payload to transmit, the temporary file to delete, the history record
//! to append.

use vstd::prelude::*;
use crate::errors::{describe_spec, TransferError};
use crate::history::{
    archive_record_name, history_extension, history_name, sent_record_for_archive,
    sent_record_for_file, SentRecord,
};
use crate::progress::{percentage_spec, transfer_percentage, SendProgress, SendStatus};
use crate::registry::{SendEntry, SessionRegistry};
use crate::text::{
    chars_of, clone_strings, dec_rep, push_chars, push_str_chars, replace_hash_spec, string_of,
    to_decimal, trim, trim_spec,
};

verus! {

/// One item of a send request: where it lives, its base name, and whether
/// it is a directory.
pub struct SourceMeta {
    pub path: String,
    pub name: String,
    pub is_dir: bool,
}

/// The fixed facts of one send session, settled before any network work.
pub struct SendPlan {
    pub session_id: String,
    /// The name shown for the item or bundle.
    pub display_name: String,
    /// The name of what actually crosses the wire: the archive's file name
    /// when packaging happens, the file's own name otherwise.
    pub payload_name: String,
    /// Whether the payload is a freshly built archive.
    pub uses_archive: bool,
    /// Whether this send came in as a list of items rather than one path.
    pub multi: bool,
    pub source_paths: Vec<String>,
}

/// The template actually used for a bundle's name: the configured one, or
/// the stock template when the configured one is blank.
pub open spec fn effective_template(template: Seq<char>) -> Seq<char> {
    if trim_spec(template).len() == 0 {
        "#-files-via-wyrmhole"@
    } else {
        template
    }
}

/// The display name of a multi-item send: the custom name when one was
/// given; a single item's own name; else the template with `#` replaced by
/// the item count.
pub open spec fn multi_display_spec(
    metas: Seq<SourceMeta>,
    custom: Option<String>,
    template: Seq<char>,
) -> Seq<char> {
    match custom {
        Option::Some(c) => c@,
        Option::None => {
            if metas.len() == 1 {
                metas[0].name@
            } else {
                replace_hash_spec(effective_template(template), dec_rep(metas.len() as nat))
            }
        },
    }
}

/// The archive file name for a display name: `display.gz`.
pub open spec fn archive_name_spec(display: Seq<char>) -> Seq<char> {
    display + ".gz"@
}

fn append_gz(display: &Vec<char>) -> (out: Vec<char>)
    ensures
        out@ == archive_name_spec(display@),
{
    let mut out = crate::text::clone_chars(display);
    push_str_chars(&mut out, ".gz");
    out
}

/// Settles the plan for sending one path: the item's own name is shown,
/// and only a directory is packaged.
pub fn plan_single_send(session_id: String, path: String, name: String, is_dir: bool) -> (plan:
    SendPlan)
    ensures
        plan.session_id == session_id,
        plan.display_name == name,
        plan.uses_archive == is_dir,
        is_dir ==> plan.payload_name@ == archive_name_spec(name@),
        !is_dir ==> plan.payload_name == name,
        plan.multi == false,
        plan.source_paths@ == seq![path],
{
    let payload_name = if is_dir {
        let name_chars = chars_of(name.as_str());
        string_of(&append_gz(&name_chars))
    } else {
        name.clone()
    };
    let mut source_paths: Vec<String> = Vec::new();
    source_paths.push(path);
    assert(source_paths@ =~= seq![source_paths@[0]]);
    SendPlan {
        session_id,
        display_name: name,
        payload_name,
        uses_archive: is_dir,
        multi: false,
        source_paths,
    }
}

/// Settles the plan for sending a list of items, which always goes out as
/// one archive. An empty list is refused as `NoSourcesProvided` — there
/// is nothing to send.
pub fn plan_multi_send(
    session_id: String,
    metas: &Vec<SourceMeta>,
    custom_name: Option<String>,
    template: &String,
) -> (r: Result<SendPlan, TransferError>)
    ensures
        metas@.len() == 0 ==> (r matches Err(e) && e is NoSourcesProvided),
        metas@.len() > 0 ==> (r matches Ok(plan) && plan.session_id == session_id
            && plan.display_name@ == multi_display_spec(metas@, custom_name, template@)
            && plan.payload_name@ == archive_name_spec(
            multi_display_spec(metas@, custom_name, template@),
        ) && plan.uses_archive == true && plan.multi == true && plan.source_paths@.len()
            == metas@.len() && (forall|i: int|
            0 <= i < metas@.len() ==> plan.source_paths@[i] == metas@[i].path)),
{
    if metas.len() == 0 {
        return Err(TransferError::NoSourcesProvided);
    }
    let display_chars: Vec<char> = match &custom_name {
        Option::Some(c) => chars_of(c.as_str()),
        Option::None => {
            if metas.len() == 1 {
                chars_of(metas[0].name.as_str())
            } else {
                let template_chars = chars_of(template.as_str());
                let trimmed = trim(crate::text::clone_chars(&template_chars));
                let effective = if trimmed.len() == 0 {
                    chars_of("#-files-via-wyrmhole")
                } else {
                    template_chars
                };
                let count = to_decimal(metas.len() as u64);
                crate::text::replace_hash(&effective, &count)
            }
        },
    };
    let payload_name = string_of(&append_gz(&display_chars));
    let mut source_paths: Vec<String> = Vec::new();
    let mut i: usize = 0;
    while i < metas.len()
        invariant
            i <= metas@.len(),
            source_paths@.len() == i,
            forall|j: int| 0 <= j < i ==> source_paths@[j] == metas@[j].path,
        decreases metas.len() - i,
    {
        source_paths.push(metas[i].path.clone());
        i = i + 1;
    }
    Ok(
        SendPlan {
            session_id,
            display_name: string_of(&display_chars),
            payload_name,
            uses_archive: true,
            multi: true,
            source_paths,
        },
    )
}

/// What the transport and the caller report back to the machine.
pub enum SendEvent {
    /// The mailbox answered: the rendezvous code is known, and the
    /// session's cancellation trigger is handed over for safekeeping.
    MailboxOpened { code: String, cancel: tokio::sync::oneshot::Sender<()> },
    MailboxFailed { message: String },
    /// The peer connected over the secure channel.
    PeerConnected,
    PeerFailed { message: String },
    /// The archive was built and opened; `size` is its true on-disk size.
    Packaged { size: u64 },
    PackFailed { error: TransferError },
    /// The single plain file was opened; `size` is its true size.
    PayloadOpened { size: u64 },
    PayloadOpenFailed { message: String },
    ProgressReported { sent: u64, total: u64 },
    Delivered { finished_at: String },
    DeliverFailed { message: String },
    /// The transport call aborted because the cancellation trigger fired.
    CancelObserved,
}

/// Where one send session stands.
pub enum SendState {
    Preparing,
    AwaitingPeer { code: String },
    Packaging { code: String },
    LoadingPayload { code: String },
    Transferring { code: String, payload_size: u64 },
    Completed,
    Failed,
    Cancelled,
}

/// What the caller must do after a step.
pub enum SendAction {
    Publish(SendProgress),
    PublishCodeReady { code: String },
    PublishCodeFailed { message: String },
    PublishError { file_name: String, message: String },
    BuildArchive,
    OpenPayload,
    Transmit { payload_size: u64 },
    DeleteTempArchive,
    RecordHistory(SentRecord),
}

/// Whether an action publishes an event to the outside sink.
pub open spec fn publishes(a: SendAction) -> bool {
    ||| a is Publish
    ||| a is PublishCodeReady
    ||| a is PublishCodeFailed
    ||| a is PublishError
}

/// The file name used in progress events before the transfer starts: the
/// archive name for a multi-item send (that is what will cross the wire),
/// the item's own name otherwise.
pub open spec fn event_file_name(plan: SendPlan) -> Seq<char> {
    if plan.multi {
        plan.payload_name@
    } else {
        plan.display_name@
    }
}

pub open spec fn is_publish(
    a: SendAction,
    id: Seq<char>,
    file_name: Seq<char>,
    sent: u64,
    total: u64,
    percentage: nat,
    code: Seq<char>,
    status: SendStatus,
) -> bool {
    a matches SendAction::Publish(p) && p.id@ == id && p.file_name@ == file_name && p.sent == sent
        && p.total == total && p.percentage as nat == percentage && p.code@ == code && p.status
        == status
}

pub open spec fn is_error(a: SendAction, file_name: Seq<char>, message: Seq<char>) -> bool {
    a matches SendAction::PublishError { file_name: f, message: m } && f@ == file_name && m@
        == message
}

pub open spec fn is_archive_history(
    a: SendAction,
    plan: SendPlan,
    size: u64,
    finished_at: String,
    code: String,
) -> bool {
    a matches SendAction::RecordHistory(r) && r.file_name@ == archive_record_name(
        plan.payload_name@,
    ) && r.file_extension@ == "gz"@ && r.file_size == size && r.file_paths@
        == plan.source_paths@ && r.send_time == finished_at && r.connection_code == code
}

pub open spec fn is_file_history(
    a: SendAction,
    plan: SendPlan,
    size: u64,
    finished_at: String,
    code: String,
) -> bool {
    a matches SendAction::RecordHistory(r) && r.file_name@ == history_name(plan.payload_name@)
        && r.file_extension@ == history_extension(plan.payload_name@) && r.file_size == size
        && r.file_paths@ == plan.source_paths@ && r.send_time == finished_at && r.connection_code
        == code
}

/// The send machine's transition relation: for a sends-table `pre`, a
/// state and an event, it fixes the table `post`, the next state and the
/// actions owed. Anything not covered changes nothing.
pub open spec fn send_transition(
    pre: Map<Seq<char>, SendEntry>,
    post: Map<Seq<char>, SendEntry>,
    plan: SendPlan,
    state: SendState,
    event: SendEvent,
    next: SendState,
    actions: Seq<SendAction>,
) -> bool {
    let id = plan.session_id@;
    match (state, event) {
        (SendState::Preparing, SendEvent::MailboxOpened { code, cancel }) => {
            if pre.dom().contains(id) {
                &&& post == pre
                &&& next is Failed
                &&& actions.len() == 1
                &&& is_error(
                    actions[0],
                    event_file_name(plan),
                    describe_spec(TransferError::DuplicateId),
                )
            } else {
                &&& post == pre.insert(id, (SendEntry { code: code, cancel: Some(cancel) }))
                &&& (next matches SendState::AwaitingPeer { code: c } && c == code)
                &&& actions.len() == 2
                &&& (actions[0] matches SendAction::PublishCodeReady { code: c } && c == code)
                &&& is_publish(
                    actions[1],
                    id,
                    event_file_name(plan),
                    0,
                    0,
                    0,
                    code@,
                    SendStatus::Waiting,
                )
            }
        },
        (SendState::Preparing, SendEvent::MailboxFailed { message }) => {
            &&& post == pre
            &&& next is Failed
            &&& actions.len() == 2
            &&& (actions[0] matches SendAction::PublishCodeFailed { message: m } && m == message)
            &&& is_error(actions[1], plan.display_name@, message@)
        },
        (SendState::AwaitingPeer { code }, SendEvent::PeerConnected) => {
            if plan.uses_archive {
                &&& post == pre
                &&& (next matches SendState::Packaging { code: c } && c == code)
                &&& actions.len() == 2
                &&& is_publish(
                    actions[0],
                    id,
                    plan.payload_name@,
                    0,
                    0,
                    0,
                    code@,
                    SendStatus::Packaging,
                )
                &&& actions[1] is BuildArchive
            } else {
                &&& post == pre
                &&& (next matches SendState::LoadingPayload { code: c } && c == code)
                &&& actions.len() == 1
                &&& actions[0] is OpenPayload
            }
        },
        (SendState::AwaitingPeer { code }, SendEvent::PeerFailed { message }) => {
            &&& post == pre.remove(id)
            &&& next is Failed
            &&& actions.len() == 1
            &&& is_error(actions[0], plan.display_name@, message@)
        },
        (SendState::Packaging { code }, SendEvent::Packaged { size }) => {
            &&& post == pre
            &&& (next matches SendState::Transferring { code: c, payload_size: s } && c == code
                && s == size)
            &&& actions.len() == 1
            &&& (actions[0] matches SendAction::Transmit { payload_size: s } && s == size)
        },
        (SendState::Packaging { code }, SendEvent::PackFailed { error }) => {
            &&& post == pre.remove(id)
            &&& next is Failed
            &&& actions.len() == 2
            &&& is_error(actions[0], plan.display_name@, describe_spec(error))
            &&& actions[1] is DeleteTempArchive
        },
        (SendState::LoadingPayload { code }, SendEvent::PayloadOpened { size }) => {
            &&& post == pre
            &&& (next matches SendState::Transferring { code: c, payload_size: s } && c == code
                && s == size)
            &&& actions.len() == 1
            &&& (actions[0] matches SendAction::Transmit { payload_size: s } && s == size)
        },
        (SendState::LoadingPayload { code }, SendEvent::PayloadOpenFailed { message }) => {
            &&& post == pre.remove(id)
            &&& next is Failed
            &&& actions.len() == 1
            &&& is_error(actions[0], plan.display_name@, message@)
        },
        (
            SendState::Transferring { code, payload_size },
            SendEvent::ProgressReported { sent, total },
        ) => {
            &&& post == pre
            &&& (next matches SendState::Transferring { code: c, payload_size: s } && c == code
                && s == payload_size)
            &&& actions.len() == 1
            &&& is_publish(
                actions[0],
                id,
                plan.payload_name@,
                sent,
                total,
                percentage_spec(sent as nat, total as nat),
                code@,
                SendStatus::Sending,
            )
        },
        (SendState::Transferring { code, payload_size }, SendEvent::Delivered { finished_at }) => {
            &&& post == pre.remove(id)
            &&& next is Completed
            &&& (if plan.uses_archive {
                actions.len() == 2 && actions[0] is DeleteTempArchive && is_archive_history(
                    actions[1],
                    plan,
                    payload_size,
                    finished_at,
                    code,
                )
            } else {
                actions.len() == 1 && is_file_history(
                    actions[0],
                    plan,
                    payload_size,
                    finished_at,
                    code,
                )
            })
        },
        (
            SendState::Transferring { code, payload_size },
            SendEvent::DeliverFailed { message },
        ) => {
            &&& post == pre.remove(id)
            &&& next is Failed
            &&& (if plan.uses_archive {
                actions.len() == 2 && is_error(actions[0], plan.display_name@, message@)
                    && actions[1] is DeleteTempArchive
            } else {
                actions.len() == 1 && is_error(actions[0], plan.display_name@, message@)
            })
        },
        (SendState::AwaitingPeer { code }, SendEvent::CancelObserved) => {
            &&& post == pre.remove(id)
            &&& next is Cancelled
            &&& actions.len() == 0
        },
        (SendState::LoadingPayload { code }, SendEvent::CancelObserved) => {
            &&& post == pre.remove(id)
            &&& next is Cancelled
            &&& actions.len() == 0
        },
        (SendState::Packaging { code }, SendEvent::CancelObserved) => {
            &&& post == pre.remove(id)
            &&& next is Cancelled
            &&& (if plan.uses_archive {
                actions.len() == 1 && actions[0] is DeleteTempArchive
            } else {
                actions.len() == 0
            })
        },
        (SendState::Transferring { code, payload_size }, SendEvent::CancelObserved) => {
            &&& post == pre.remove(id)
            &&& next is Cancelled
            &&& (if plan.uses_archive {
                actions.len() == 1 && actions[0] is DeleteTempArchive
            } else {
                actions.len() == 0
            })
        },
        _ => {
            &&& post == pre
            &&& next == state
            &&& actions.len() == 0
        },
    }
}

/// The actions owed before any network work: surface the session's name at
/// once, so the caller never shows a blank entry while the handshake is
/// pending. A list-send also shows its waiting state right away.
pub fn begin_send_actions(plan: &SendPlan) -> (actions: Vec<SendAction>)
    ensures
        !plan.multi ==> actions@.len() == 1,
        plan.multi ==> actions@.len() == 2,
        is_publish(
            actions@[0],
            plan.session_id@,
            event_file_name(*plan),
            0,
            0,
            0,
            Seq::<char>::empty(),
            SendStatus::Preparing,
        ),
        plan.multi ==> is_publish(
            actions@[1],
            plan.session_id@,
            event_file_name(*plan),
            0,
            0,
            0,
            Seq::<char>::empty(),
            SendStatus::Waiting,
        ),
{
    let name = if plan.multi {
        plan.payload_name.clone()
    } else {
        plan.display_name.clone()
    };
    let mut actions: Vec<SendAction> = Vec::new();
    actions.push(
        SendAction::Publish(
            SendProgress {
                id: plan.session_id.clone(),
                file_name: name.clone(),
                sent: 0,
                total: 0,
                percentage: 0,
                code: String::new(),
                status: SendStatus::Preparing,
            },
        ),
    );
    if plan.multi {
        actions.push(
            SendAction::Publish(
                SendProgress {
                    id: plan.session_id.clone(),
                    file_name: name,
                    sent: 0,
                    total: 0,
                    percentage: 0,
                    code: String::new(),
                    status: SendStatus::Waiting,
                },
            ),
        );
    }
    actions
}

/// One step of the send machine. The registry's other tables are never
/// touched; the sends table changes exactly as `send_transition` says.
pub fn send_step(
    registry: &mut SessionRegistry,
    plan: &SendPlan,
    state: SendState,
    event: SendEvent,
) -> (r: (SendState, Vec<SendAction>))
    requires
        old(registry).wf(),
    ensures
        final(registry).wf(),
        final(registry).downloads@ == old(registry).downloads@,
        final(registry).connections@ == old(registry).connections@,
        final(registry).offers@ == old(registry).offers@,
        send_transition(
            old(registry).sends@,
            final(registry).sends@,
            *plan,
            state,
            event,
            r.0,
            r.1@,
        ),
{
    let mut actions: Vec<SendAction> = Vec::new();
    match (state, event) {
        (SendState::Preparing, SendEvent::MailboxOpened { code, cancel }) => {
            let entry = SendEntry { code: code.clone(), cancel: Some(cancel) };
            match registry.sends.insert(plan.session_id.clone(), entry) {
                Err(_) => {
                    actions.push(
                        SendAction::PublishError {
                            file_name: event_name(plan),
                            message: TransferError::DuplicateId.describe(),
                        },
                    );
                    (SendState::Failed, actions)
                },
                Ok(()) => {
                    actions.push(SendAction::PublishCodeReady { code: code.clone() });
                    actions.push(
                        SendAction::Publish(
                            SendProgress {
                                id: plan.session_id.clone(),
                                file_name: event_name(plan),
                                sent: 0,
                                total: 0,
                                percentage: 0,
                                code: code.clone(),
                                status: SendStatus::Waiting,
                            },
                        ),
                    );
                    (SendState::AwaitingPeer { code }, actions)
                },
            }
        },
        (SendState::Preparing, SendEvent::MailboxFailed { message }) => {
            actions.push(SendAction::PublishCodeFailed { message: message.clone() });
            actions.push(
                SendAction::PublishError { file_name: plan.display_name.clone(), message },
            );
            (SendState::Failed, actions)
        },
        (SendState::AwaitingPeer { code }, SendEvent::PeerConnected) => {
            if plan.uses_archive {
                actions.push(
                    SendAction::Publish(
                        SendProgress {
                            id: plan.session_id.clone(),
                            file_name: plan.payload_name.clone(),
                            sent: 0,
                            total: 0,
                            percentage: 0,
                            code: code.clone(),
                            status: SendStatus::Packaging,
                        },
                    ),
                );
                actions.push(SendAction::BuildArchive);
                (SendState::Packaging { code }, actions)
            } else {
                actions.push(SendAction::OpenPayload);
                (SendState::LoadingPayload { code }, actions)
            }
        },
        (SendState::AwaitingPeer { code: _ }, SendEvent::PeerFailed { message }) => {
            drop_entry(registry, plan);
            actions.push(
                SendAction::PublishError { file_name: plan.display_name.clone(), message },
            );
            (SendState::Failed, actions)
        },
        (SendState::Packaging { code }, SendEvent::Packaged { size }) => {
            actions.push(SendAction::Transmit { payload_size: size });
            (SendState::Transferring { code, payload_size: size }, actions)
        },
        (SendState::Packaging { code: _ }, SendEvent::PackFailed { error }) => {
            drop_entry(registry, plan);
            actions.push(
                SendAction::PublishError {
                    file_name: plan.display_name.clone(),
                    message: error.describe(),
                },
            );
            actions.push(SendAction::DeleteTempArchive);
            (SendState::Failed, actions)
        },
        (SendState::LoadingPayload { code }, SendEvent::PayloadOpened { size }) => {
            actions.push(SendAction::Transmit { payload_size: size });
            (SendState::Transferring { code, payload_size: size }, actions)
        },
        (SendState::LoadingPayload { code: _ }, SendEvent::PayloadOpenFailed { message }) => {
            drop_entry(registry, plan);
            actions.push(
                SendAction::PublishError { file_name: plan.display_name.clone(), message },
            );
            (SendState::Failed, actions)
        },
        (
            SendState::Transferring { code, payload_size },
            SendEvent::ProgressReported { sent, total },
        ) => {
            actions.push(
                SendAction::Publish(
                    SendProgress {
                        id: plan.session_id.clone(),
                        file_name: plan.payload_name.clone(),
                        sent,
                        total,
                        percentage: transfer_percentage(sent, total),
                        code: code.clone(),
                        status: SendStatus::Sending,
                    },
                ),
            );
            (SendState::Transferring { code, payload_size }, actions)
        },
        (SendState::Transferring { code, payload_size }, SendEvent::Delivered { finished_at }) => {
            drop_entry(registry, plan);
            if plan.uses_archive {
                actions.push(SendAction::DeleteTempArchive);
                let record = sent_record_for_archive(
                    &plan.payload_name,
                    payload_size,
                    clone_strings(&plan.source_paths),
                    finished_at,
                    code,
                );
                actions.push(SendAction::RecordHistory(record));
            } else {
                let record = sent_record_for_file(
                    &plan.payload_name,
                    payload_size,
                    clone_strings(&plan.source_paths),
                    finished_at,
                    code,
                );
                actions.push(SendAction::RecordHistory(record));
            }
            (SendState::Completed, actions)
        },
        (SendState::Transferring { code: _, payload_size: _ }, SendEvent::DeliverFailed {
            message,
        }) => {
            drop_entry(registry, plan);
            actions.push(
                SendAction::PublishError { file_name: plan.display_name.clone(), message },
            );
            if plan.uses_archive {
                actions.push(SendAction::DeleteTempArchive);
            }
            (SendState::Failed, actions)
        },
        (SendState::AwaitingPeer { code: _ }, SendEvent::CancelObserved) => {
            drop_entry(registry, plan);
            (SendState::Cancelled, actions)
        },
        (SendState::LoadingPayload { code: _ }, SendEvent::CancelObserved) => {
            drop_entry(registry, plan);
            (SendState::Cancelled, actions)
        },
        (SendState::Packaging { code: _ }, SendEvent::CancelObserved) => {
            drop_entry(registry, plan);
            if plan.uses_archive {
                actions.push(SendAction::DeleteTempArchive);
            }
            (SendState::Cancelled, actions)
        },
        (SendState::Transferring { code: _, payload_size: _ }, SendEvent::CancelObserved) => {
            drop_entry(registry, plan);
            if plan.uses_archive {
                actions.push(SendAction::DeleteTempArchive);
            }
            (SendState::Cancelled, actions)
        },
        (other_state, _) => (other_state, actions),
    }
}

/// Removes the session's registry entry if it is still there.
fn drop_entry(registry: &mut SessionRegistry, plan: &SendPlan)
    requires
        old(registry).wf(),
    ensures
        final(registry).wf(),
        final(registry).sends@ == old(registry).sends@.remove(plan.session_id@),
        final(registry).downloads@ == old(registry).downloads@,
        final(registry).connections@ == old(registry).connections@,
        final(registry).offers@ == old(registry).offers@,
{
    let taken = registry.sends.take(&plan.session_id);
    proof {
        if !old(registry).sends@.dom().contains(plan.session_id@) {
            assert(old(registry).sends@.remove(plan.session_id@) =~= old(registry).sends@);
        }
    }
    match taken {
        Ok(_) => (),
        Err(_) => (),
    }
}

fn event_name(plan: &SendPlan) -> (name: String)
    ensures
        name@ == event_file_name(*plan),
{
    if plan.multi {
        plan.payload_name.clone()
    } else {
        plan.display_name.clone()
    }
}

/// Cancels a live send from outside: the registry entry is removed, its
/// trigger consumed — at most once ever, because the entry is gone — and
/// the one terminal event to publish is handed back. A send that is not
/// live (or whose trigger was already handed away) is `NotFound`.
pub fn cancel_send(registry: &mut SessionRegistry, send_id: &String) -> (r: Result<
    SendAction,
    TransferError,
>)
    requires
        old(registry).wf(),
    ensures
        final(registry).wf(),
        final(registry).downloads@ == old(registry).downloads@,
        final(registry).connections@ == old(registry).connections@,
        final(registry).offers@ == old(registry).offers@,
        !old(registry).sends@.dom().contains(send_id@) ==> (r matches Err(e) && e is NotFound)
            && final(registry).sends@ == old(registry).sends@,
        old(registry).sends@.dom().contains(send_id@) ==> final(registry).sends@ == old(
            registry,
        ).sends@.remove(send_id@) && (r is Ok <==> old(
            registry,
        ).sends@[send_id@].cancel is Some),
        (r matches Ok(a) ==> is_error(
            a,
            "Transfer cancelled"@,
            describe_spec(TransferError::UserCancelled),
        )),
        (r matches Err(e) ==> e is NotFound),
{
    match registry.cancel_send(send_id) {
        Ok(_) => Ok(
            SendAction::PublishError {
                file_name: "Transfer cancelled".to_owned(),
                message: TransferError::UserCancelled.describe(),
            },
        ),
        Err(e) => Err(e),
    }
}

/// Cancelling a send whose secure channel has not yet been established
/// leaves no trace and publishes exactly one terminal event. The
/// cancellation itself removes the entry and yields the single event
/// (`cancel_send` above); this lemma shows the machine's own later
/// cancellation step — for a session still awaiting its peer — publishes
/// nothing further and leaves the session fully removed.
pub proof fn lemma_cancel_before_channel(
    pre: Map<Seq<char>, SendEntry>,
    post: Map<Seq<char>, SendEntry>,
    plan: SendPlan,
    state: SendState,
    next: SendState,
    actions: Seq<SendAction>,
)
    requires
        state is Preparing || state is AwaitingPeer,
        send_transition(pre, post, plan, state, SendEvent::CancelObserved, next, actions),
    ensures
        !post.dom().contains(plan.session_id@) || post == pre,
        state is AwaitingPeer ==> next is Cancelled && !post.dom().contains(plan.session_id@),
        forall|i: int| 0 <= i < actions.len() ==> !publishes(actions[i]),
{
    if state is AwaitingPeer {
        assert(actions.len() == 0);
    } else {
        assert(actions.len() == 0);
    }
}

} // verus!
