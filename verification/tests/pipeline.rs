//! The submission pipeline: event extraction from a finalized log, and
//! classification of lifecycle notification streams.

use sugarfunge_api::error::GatewayError;
use sugarfunge_api::event::{find_first, EventRecord, EventTag};
use sugarfunge_api::outcome::{classify, LedgerNotice, SubmissionOutcome, SubmissionWatch};
use sugarfunge_api::ss58::AccountIdentity;

fn acct(fill: u8) -> AccountIdentity {
    AccountIdentity::from_bytes(vec![fill; 32]).unwrap()
}

fn transfer_event(from: u8, to: u8, amount: u128) -> EventRecord {
    EventRecord::Transfer { from: acct(from), to: acct(to), amount }
}

#[test]
fn extraction_finds_event_between_unrelated_entries() {
    let log = vec![
        EventRecord::Unrelated,
        transfer_event(1, 2, 77),
        EventRecord::Created { escrow: acct(3), operator: acct(4), owner: acct(5) },
    ];
    let hit = find_first(&log, EventTag::BalancesTransfer).unwrap();
    assert_eq!(hit, Some(1));
    match &log[1] {
        EventRecord::Transfer { amount, .. } => assert_eq!(*amount, 77),
        _ => panic!("the matching entry is the transfer"),
    }
}

#[test]
fn extraction_is_position_independent() {
    let bare = vec![transfer_event(1, 2, 77)];
    let padded = vec![
        EventRecord::Unrelated,
        EventRecord::Unrelated,
        transfer_event(1, 2, 77),
        EventRecord::Unrelated,
    ];
    assert_eq!(find_first(&bare, EventTag::BalancesTransfer).unwrap(), Some(0));
    assert_eq!(find_first(&padded, EventTag::BalancesTransfer).unwrap(), Some(2));
}

#[test]
fn extraction_takes_the_first_match() {
    let log = vec![transfer_event(1, 2, 10), transfer_event(3, 4, 20)];
    assert_eq!(find_first(&log, EventTag::BalancesTransfer).unwrap(), Some(0));
}

#[test]
fn extraction_absent_is_none_not_error() {
    let log = vec![EventRecord::Unrelated, EventRecord::Unrelated];
    assert_eq!(find_first(&log, EventTag::EscrowCreated).unwrap(), None);
    let empty: Vec<EventRecord> = vec![];
    assert_eq!(find_first(&empty, EventTag::EscrowCreated).unwrap(), None);
}

#[test]
fn extraction_garbled_payload_is_decode_error() {
    let log = vec![EventRecord::Unrelated, EventRecord::Garbled(EventTag::BalancesTransfer)];
    assert_eq!(
        find_first(&log, EventTag::BalancesTransfer),
        Err(GatewayError::EventDecodeError)
    );
    // A garbled entry of another type does not disturb the scan.
    let log2 = vec![EventRecord::Garbled(EventTag::EscrowRefund), transfer_event(1, 2, 3)];
    assert_eq!(find_first(&log2, EventTag::BalancesTransfer).unwrap(), Some(1));
}

#[test]
fn invalid_before_finalized_is_rejected_verbatim() {
    let mut notices = vec![
        LedgerNotice::Broadcast,
        LedgerNotice::InBlock,
        LedgerNotice::Invalid("Transaction is outdated".to_string()),
        LedgerNotice::Finalized(vec![transfer_event(1, 2, 3)]),
    ];
    match classify(&mut notices) {
        SubmissionOutcome::Rejected(reason) => {
            assert_eq!(reason.as_str(), "Transaction is outdated");
        }
        _ => panic!("the first terminal notice decides"),
    }
}

#[test]
fn dropped_is_rejected_verbatim() {
    let mut notices = vec![LedgerNotice::Dropped("Usurped".to_string())];
    match classify(&mut notices) {
        SubmissionOutcome::Rejected(reason) => assert_eq!(reason.as_str(), "Usurped"),
        _ => panic!("a dropped submission is a rejection"),
    }
}

#[test]
fn finalized_first_wins_and_carries_its_log() {
    let mut notices = vec![
        LedgerNotice::Broadcast,
        LedgerNotice::Finalized(vec![transfer_event(1, 2, 99)]),
        LedgerNotice::Invalid("too late to matter".to_string()),
    ];
    match classify(&mut notices) {
        SubmissionOutcome::Finalized(log) => {
            assert_eq!(log.len(), 1);
            match &log[0] {
                EventRecord::Transfer { amount, .. } => assert_eq!(*amount, 99),
                _ => panic!("the log came through unchanged"),
            }
        }
        _ => panic!("the first terminal notice decides"),
    }
}

#[test]
fn stalled_stream_stays_pending() {
    // No terminal notification ever arrives: the submission is
    // observable as still pending — there is no timeout.
    let mut notices = vec![LedgerNotice::Broadcast, LedgerNotice::InBlock];
    assert!(matches!(classify(&mut notices), SubmissionOutcome::Pending));
    let mut empty: Vec<LedgerNotice> = vec![];
    assert!(matches!(classify(&mut empty), SubmissionOutcome::Pending));
}

#[test]
fn watch_acts_on_first_terminal_only() {
    let mut watch = SubmissionWatch::new();
    assert!(!watch.is_done());
    watch.observe(LedgerNotice::Broadcast);
    assert!(!watch.is_done());
    watch.observe(LedgerNotice::Invalid("first terminal".to_string()));
    assert!(watch.is_done());
    watch.observe(LedgerNotice::Finalized(vec![]));
    match watch.outcome() {
        SubmissionOutcome::Rejected(reason) => assert_eq!(reason.as_str(), "first terminal"),
        _ => panic!("later notifications are ignored"),
    }
}

#[test]
fn watch_without_terminal_is_pending() {
    let mut watch = SubmissionWatch::new();
    watch.observe(LedgerNotice::Broadcast);
    watch.observe(LedgerNotice::InBlock);
    assert!(!watch.is_done());
    assert!(matches!(watch.outcome(), SubmissionOutcome::Pending));
}

#[test]
fn rejection_message_is_the_reason() {
    let e = GatewayError::SubmissionRejected("Invalid Transaction".to_string());
    assert_eq!(e.message().as_str(), "Invalid Transaction");
    assert_eq!(
        GatewayError::EventDecodeError.message().as_str(),
        "Failed to decode event"
    );
}
