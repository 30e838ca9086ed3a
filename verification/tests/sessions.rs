//! The session registry and the send machine, driven with real one-shot
//! channels.

use wyrmhole_core::errors::TransferError;
use wyrmhole_core::progress::{transfer_percentage, SendStatus};
use wyrmhole_core::receive::{
    begin_connection, begin_download, claim_offer, download_progress_event, end_connection,
    offer_obtained,
};
use wyrmhole_core::registry::{fresh_session_id, SendEntry, SessionRegistry};
use wyrmhole_core::send::{
    begin_send_actions, cancel_send, plan_single_send, send_step, SendAction, SendEvent,
    SendState,
};

fn trigger() -> tokio::sync::oneshot::Sender<()> {
    tokio::sync::oneshot::channel::<()>().0
}

#[test]
fn percentage_formula() {
    assert_eq!(transfer_percentage(0, 0), 0);
    assert_eq!(transfer_percentage(50, 200), 25);
    assert_eq!(transfer_percentage(200, 200), 100);
    assert_eq!(transfer_percentage(1, 3), 33);
    // Counters past the total still divide exactly, up to the word size.
    assert_eq!(transfer_percentage(300, 200), 150);
    assert_eq!(transfer_percentage(u64::MAX, 1), u64::MAX);
}

#[test]
fn duplicate_insert_is_refused() {
    let mut reg = SessionRegistry::new();
    let first = reg.sends.insert(
        "x".to_string(),
        SendEntry {
            code: "7-a-b".to_string(),
            cancel: Some(trigger()),
        },
    );
    assert!(first.is_ok());
    let second = reg.sends.insert(
        "x".to_string(),
        SendEntry {
            code: "8-c-d".to_string(),
            cancel: Some(trigger()),
        },
    );
    assert!(matches!(second, Err(TransferError::DuplicateId)));
    assert_eq!(reg.sends.len(), 1);
}

#[test]
fn cancel_after_take_is_not_found() {
    let mut reg = SessionRegistry::new();
    reg.sends
        .insert(
            "x".to_string(),
            SendEntry {
                code: "7-a-b".to_string(),
                cancel: Some(trigger()),
            },
        )
        .unwrap();
    let taken = reg.sends.take(&"x".to_string());
    assert!(taken.is_ok());
    assert!(matches!(
        reg.cancel_send(&"x".to_string()),
        Err(TransferError::NotFound)
    ));
}

#[test]
fn cancel_fires_the_one_shot_trigger() {
    let mut reg = SessionRegistry::new();
    let (tx, mut rx) = tokio::sync::oneshot::channel::<()>();
    reg.sends
        .insert(
            "s".to_string(),
            SendEntry {
                code: String::new(),
                cancel: Some(tx),
            },
        )
        .unwrap();
    let delivered = reg.cancel_send(&"s".to_string()).unwrap();
    assert!(delivered);
    assert!(rx.try_recv().is_ok());
    assert_eq!(reg.sends.len(), 0);
}

#[test]
fn update_code_keeps_the_entry() {
    let mut reg = SessionRegistry::new();
    reg.sends
        .insert(
            "s".to_string(),
            SendEntry {
                code: String::new(),
                cancel: Some(trigger()),
            },
        )
        .unwrap();
    reg.update_send_code(&"s".to_string(), "9-x-y".to_string())
        .unwrap();
    assert!(reg.sends.contains(&"s".to_string()));
    assert_eq!(reg.sends.get(&"s".to_string()).unwrap().code, "9-x-y");
    assert!(reg.sends.get(&"absent".to_string()).is_none());
    assert!(matches!(
        reg.update_send_code(&"missing".to_string(), "1-a-b".to_string()),
        Err(TransferError::NotFound)
    ));
}

#[test]
fn cancel_before_channel_removes_session_with_one_event() {
    let mut reg = SessionRegistry::new();
    let plan = plan_single_send(
        "send-9".to_string(),
        "/tmp/big".to_string(),
        "big".to_string(),
        true,
    );
    // Mailbox answered; the machine stores the entry with its trigger.
    let (state, actions) = send_step(
        &mut reg,
        &plan,
        SendState::Preparing,
        SendEvent::MailboxOpened {
            code: "4-axle-tango".to_string(),
            cancel: trigger(),
        },
    );
    assert!(matches!(state, SendState::AwaitingPeer { .. }));
    assert_eq!(actions.len(), 2);
    assert!(reg.sends.contains(&"send-9".to_string()));

    // The user cancels while the peer has not connected yet: exactly one
    // terminal event, from the cancellation itself.
    let event = cancel_send(&mut reg, &"send-9".to_string()).unwrap();
    match &event {
        SendAction::PublishError { file_name, message } => {
            assert_eq!(file_name, "Transfer cancelled");
            assert_eq!(message, "Transfer cancelled by user");
        }
        _ => panic!("cancellation must yield the terminal event"),
    }
    assert!(!reg.sends.contains(&"send-9".to_string()));

    // When the aborted transport call reports back, the machine publishes
    // nothing further and the session stays gone.
    let (state, actions) = send_step(&mut reg, &plan, state, SendEvent::CancelObserved);
    assert!(matches!(state, SendState::Cancelled));
    assert!(actions.iter().all(|a| !matches!(
        a,
        SendAction::Publish(_)
            | SendAction::PublishCodeReady { .. }
            | SendAction::PublishCodeFailed { .. }
            | SendAction::PublishError { .. }
    )));
    assert!(!reg.sends.contains(&"send-9".to_string()));
    // A second cancellation finds nothing.
    assert!(matches!(
        cancel_send(&mut reg, &"send-9".to_string()),
        Err(TransferError::NotFound)
    ));
}

#[test]
fn send_machine_walks_a_file_transfer_to_history() {
    let mut reg = SessionRegistry::new();
    let plan = plan_single_send(
        "send-1".to_string(),
        "/tmp/notes.txt".to_string(),
        "notes.txt".to_string(),
        false,
    );
    let begin = begin_send_actions(&plan);
    assert_eq!(begin.len(), 1);
    match &begin[0] {
        SendAction::Publish(p) => {
            assert_eq!(p.file_name, "notes.txt");
            assert!(matches!(p.status, SendStatus::Preparing));
            assert_eq!(p.code, "");
        }
        _ => panic!("the first action surfaces the name"),
    }

    let (state, actions) = send_step(
        &mut reg,
        &plan,
        SendState::Preparing,
        SendEvent::MailboxOpened {
            code: "7-hazel-crab".to_string(),
            cancel: trigger(),
        },
    );
    match &actions[0] {
        SendAction::PublishCodeReady { code } => assert_eq!(code, "7-hazel-crab"),
        _ => panic!("the code event comes first"),
    }
    match &actions[1] {
        SendAction::Publish(p) => {
            assert!(matches!(p.status, SendStatus::Waiting));
            assert_eq!(p.code, "7-hazel-crab");
        }
        _ => panic!("the waiting event follows"),
    }

    let (state, actions) = send_step(&mut reg, &plan, state, SendEvent::PeerConnected);
    assert!(matches!(state, SendState::LoadingPayload { .. }));
    assert!(matches!(actions[0], SendAction::OpenPayload));

    let (state, actions) = send_step(&mut reg, &plan, state, SendEvent::PayloadOpened { size: 11 });
    assert!(matches!(
        state,
        SendState::Transferring {
            payload_size: 11,
            ..
        }
    ));
    assert!(matches!(
        actions[0],
        SendAction::Transmit { payload_size: 11 }
    ));

    let (state, actions) = send_step(
        &mut reg,
        &plan,
        state,
        SendEvent::ProgressReported { sent: 5, total: 11 },
    );
    match &actions[0] {
        SendAction::Publish(p) => {
            assert_eq!(p.sent, 5);
            assert_eq!(p.total, 11);
            assert_eq!(p.percentage, 45);
            assert!(matches!(p.status, SendStatus::Sending));
        }
        _ => panic!("progress is republished"),
    }

    let (state, actions) = send_step(
        &mut reg,
        &plan,
        state,
        SendEvent::Delivered {
            finished_at: "2024-01-01T12:00:00".to_string(),
        },
    );
    assert!(matches!(state, SendState::Completed));
    assert_eq!(actions.len(), 1);
    match &actions[0] {
        SendAction::RecordHistory(r) => {
            assert_eq!(r.file_name, "notes");
            assert_eq!(r.file_extension, "txt");
            assert_eq!(r.file_size, 11);
            assert_eq!(r.connection_code, "7-hazel-crab");
            assert_eq!(r.file_paths, vec!["/tmp/notes.txt".to_string()]);
        }
        _ => panic!("completion records history"),
    }
    assert!(!reg.sends.contains(&"send-1".to_string()));
}

#[test]
fn send_machine_archives_a_folder() {
    let mut reg = SessionRegistry::new();
    let plan = plan_single_send(
        "send-2".to_string(),
        "/tmp/photos".to_string(),
        "photos".to_string(),
        true,
    );
    let (state, _) = send_step(
        &mut reg,
        &plan,
        SendState::Preparing,
        SendEvent::MailboxOpened {
            code: "3-a-b".to_string(),
            cancel: trigger(),
        },
    );
    let (state, actions) = send_step(&mut reg, &plan, state, SendEvent::PeerConnected);
    assert!(matches!(state, SendState::Packaging { .. }));
    match &actions[0] {
        SendAction::Publish(p) => {
            assert_eq!(p.file_name, "photos.gz");
            assert!(matches!(p.status, SendStatus::Packaging));
        }
        _ => panic!("packaging is surfaced"),
    }
    assert!(matches!(actions[1], SendAction::BuildArchive));

    let (state, actions) = send_step(&mut reg, &plan, state, SendEvent::Packaged { size: 999 });
    assert!(matches!(
        actions[0],
        SendAction::Transmit { payload_size: 999 }
    ));

    let (state, actions) = send_step(
        &mut reg,
        &plan,
        state,
        SendEvent::Delivered {
            finished_at: "t".to_string(),
        },
    );
    assert!(matches!(state, SendState::Completed));
    assert!(matches!(actions[0], SendAction::DeleteTempArchive));
    match &actions[1] {
        SendAction::RecordHistory(r) => {
            assert_eq!(r.file_name, "photos");
            assert_eq!(r.file_extension, "gz");
            assert_eq!(r.file_size, 999);
        }
        _ => panic!("completion records history"),
    }
}

#[test]
fn failed_packaging_cleans_up() {
    let mut reg = SessionRegistry::new();
    let plan = plan_single_send(
        "send-3".to_string(),
        "/tmp/photos".to_string(),
        "photos".to_string(),
        true,
    );
    let (state, _) = send_step(
        &mut reg,
        &plan,
        SendState::Preparing,
        SendEvent::MailboxOpened {
            code: "3-a-b".to_string(),
            cancel: trigger(),
        },
    );
    let (state, _) = send_step(&mut reg, &plan, state, SendEvent::PeerConnected);
    let (state, actions) = send_step(
        &mut reg,
        &plan,
        state,
        SendEvent::PackFailed {
            error: TransferError::SourceMissing,
        },
    );
    assert!(matches!(state, SendState::Failed));
    match &actions[0] {
        SendAction::PublishError { file_name, message } => {
            assert_eq!(file_name, "photos");
            assert_eq!(message, "File or folder does not exist");
        }
        _ => panic!("failure is published"),
    }
    assert!(matches!(actions[1], SendAction::DeleteTempArchive));
    assert!(!reg.sends.contains(&"send-3".to_string()));
}

#[test]
fn connection_attempt_and_offer_lifecycle() {
    let mut reg = SessionRegistry::new();
    begin_connection(&mut reg, &"conn-1".to_string(), trigger()).unwrap();
    assert!(matches!(
        begin_connection(&mut reg, &"conn-1".to_string(), trigger()),
        Err(TransferError::DuplicateId)
    ));

    let offer_id = fresh_session_id();
    assert_eq!(offer_id.len(), 36);
    let summary = offer_obtained(
        &mut reg,
        &"conn-1".to_string(),
        offer_id.clone(),
        "report.tar.gz".to_string(),
        4096,
    )
    .unwrap();
    assert!(!reg.connections.contains(&"conn-1".to_string()));
    assert_eq!(summary.file_name, "report.tar.gz");
    assert_eq!(summary.file_size, 4096);

    // The offer is consumed exactly once.
    let entry = claim_offer(&mut reg, &offer_id).unwrap();
    assert_eq!(entry.file_name, "report.tar.gz");
    assert!(matches!(
        claim_offer(&mut reg, &offer_id),
        Err(TransferError::NotFound)
    ));
}

#[test]
fn cancel_connection_consumes_the_trigger() {
    let mut reg = SessionRegistry::new();
    let (tx, mut rx) = tokio::sync::oneshot::channel::<()>();
    reg.connections
        .insert(
            "conn-2".to_string(),
            wyrmhole_core::registry::ConnectionEntry { cancel: tx },
        )
        .unwrap();
    assert!(reg.cancel_connection(&"conn-2".to_string()).unwrap());
    assert!(rx.try_recv().is_ok());
    assert!(matches!(
        reg.cancel_connection(&"conn-2".to_string()),
        Err(TransferError::NotFound)
    ));
    // A closed attempt can also just be ended.
    begin_connection(&mut reg, &"conn-3".to_string(), trigger()).unwrap();
    end_connection(&mut reg, &"conn-3".to_string());
    assert!(!reg.connections.contains(&"conn-3".to_string()));
}

#[test]
fn download_lifecycle_and_progress() {
    let mut reg = SessionRegistry::new();
    let (tx, mut rx) = tokio::sync::oneshot::channel::<()>();
    begin_download(&mut reg, &"dl-1".to_string(), "report.tar.gz".to_string(), tx).unwrap();
    assert!(matches!(
        begin_download(
            &mut reg,
            &"dl-1".to_string(),
            "again".to_string(),
            trigger()
        ),
        Err(TransferError::DuplicateId)
    ));

    let event = download_progress_event(&"dl-1".to_string(), &"report.tar.gz".to_string(), 10, 40);
    assert_eq!(event.percentage, 25);
    assert_eq!(event.transferred, 10);
    assert_eq!(event.total, 40);

    assert!(reg.cancel_download(&"dl-1".to_string()).unwrap());
    assert!(rx.try_recv().is_ok());
    assert!(matches!(
        reg.cancel_download(&"dl-1".to_string()),
        Err(TransferError::NotFound)
    ));
}

#[test]
fn failed_accept_publishes_unless_cancelled() {
    let mut reg = SessionRegistry::new();
    begin_download(&mut reg, &"dl-7".to_string(), "big.bin".to_string(), trigger()).unwrap();

    // An ordinary failure: the entry goes and the error event is owed.
    let event = wyrmhole_core::receive::download_failed(
        &mut reg,
        &"dl-7".to_string(),
        &"big.bin".to_string(),
        "connection reset".to_string(),
    );
    let event = event.expect("an ordinary failure is published");
    assert_eq!(event.id, "dl-7");
    assert_eq!(event.file_name, "big.bin");
    assert_eq!(event.error, "connection reset");
    assert!(!reg.downloads.contains(&"dl-7".to_string()));

    // A failure after the user's cancellation consumed the entry: nothing
    // further is published.
    begin_download(&mut reg, &"dl-8".to_string(), "big.bin".to_string(), trigger()).unwrap();
    reg.cancel_download(&"dl-8".to_string()).unwrap();
    let suppressed = wyrmhole_core::receive::download_failed(
        &mut reg,
        &"dl-8".to_string(),
        &"big.bin".to_string(),
        "transfer aborted".to_string(),
    );
    assert!(suppressed.is_none());
}

#[test]
fn register_offer_mints_a_fresh_id() {
    let mut reg = SessionRegistry::new();
    begin_connection(&mut reg, &"conn-9".to_string(), trigger()).unwrap();
    let summary = wyrmhole_core::receive::register_offer(
        &mut reg,
        &"conn-9".to_string(),
        "notes.txt".to_string(),
        12,
    )
    .unwrap();
    assert_eq!(summary.id.len(), 36);
    assert!(!reg.connections.contains(&"conn-9".to_string()));
    assert!(reg.offers.contains(&summary.id));
}

#[test]
fn resolve_now_draws_a_usable_stamp() {
    let existing: Vec<String> = Vec::new();
    let (stamp, path) =
        wyrmhole_core::resolve::resolve_now(&"dl".to_string(), &"a.txt".to_string(), &existing);
    assert!(stamp.len() >= 15);
    assert_eq!(path, "dl/a.txt");
}

#[test]
fn download_plan_resolves_collisions() {
    let existing = vec!["report.tar.gz".to_string()];
    let plan = wyrmhole_core::receive::plan_download(
        &"dl".to_string(),
        &"report.tar.gz".to_string(),
        &existing,
        &"20240101_120000".to_string(),
    );
    assert_eq!(plan.final_name, "report.tar(1).gz");
    assert_eq!(plan.final_path, "dl/report.tar(1).gz");
}
