use chess_mate::protocol::{check_journal, check_receipt, HostFault};
use risc0_zkvm::{FakeReceipt, InnerReceipt, Receipt, ReceiptClaim};

const SCHOLAR: &str = "r1bqkbnr/pppp1ppp/2n5/4p2Q/2B1P3/8/PPPP1PPP/RNB1K1NR b KQkq - 4 4";

fn journal_bytes(initial: &str, count: u64) -> Vec<u8> {
    let words = risc0_zkvm::serde::to_vec(&(initial.to_string(), count)).unwrap();
    words.iter().flat_map(|w| w.to_le_bytes()).collect()
}

#[test]
fn committed_journal_checks_out() {
    let bytes = journal_bytes(SCHOLAR, 2);
    let out = check_journal(true, &bytes, &SCHOLAR.to_string()).unwrap();
    assert_eq!(out.count, 2);
    assert!(!out.initial_white_to_move);
    assert!(!out.final_white_to_move);
    assert!(chess_mate::rules::white_to_move(&out.position) == out.initial_white_to_move);
}

#[test]
fn odd_count_passes_the_turn() {
    let bytes = journal_bytes(SCHOLAR, 1);
    let out = check_journal(true, &bytes, &SCHOLAR.to_string()).unwrap();
    assert_eq!(out.count, 1);
    assert!(out.final_white_to_move);
}

#[test]
fn unverified_receipt_is_invalid() {
    let bytes = journal_bytes(SCHOLAR, 2);
    assert_eq!(
        check_journal(false, &bytes, &SCHOLAR.to_string()).err(),
        Some(HostFault::InvalidReceipt)
    );
}

#[test]
fn journal_of_other_position_mismatches() {
    let bytes = journal_bytes(SCHOLAR, 2);
    let other = "rnbqkbnr/pppppppp/8/8/8/8/PPPPPPPP/RNBQKBNR w KQkq - 0 1".to_string();
    assert_eq!(check_journal(true, &bytes, &other).err(), Some(HostFault::ClaimMismatch));
}

#[test]
fn broken_journal_is_malformed() {
    let expected = SCHOLAR.to_string();
    assert_eq!(
        check_journal(true, &vec![1, 2, 3], &expected).err(),
        Some(HostFault::MalformedJournal)
    );
    assert_eq!(
        check_journal(true, &vec![100, 0, 0, 0], &expected).err(),
        Some(HostFault::MalformedJournal)
    );
    assert_eq!(check_journal(true, &Vec::new(), &expected).err(), Some(HostFault::MalformedJournal));
}

#[test]
fn journal_with_bad_position_is_refused() {
    let bytes = journal_bytes("garbage", 2);
    assert_eq!(
        check_journal(true, &bytes, &"garbage".to_string()).err(),
        Some(HostFault::MalformedPosition)
    );
}

#[test]
fn fake_receipt_is_refused_or_checked_by_its_journal() {
    let journal = journal_bytes(SCHOLAR, 2);
    let image_id = [7u32; 8];
    let claim = ReceiptClaim::ok(image_id, journal.clone());
    let receipt = Receipt::new(InnerReceipt::Fake(FakeReceipt::new(claim)), journal);
    // a fake receipt passes verification only in development mode
    match check_receipt(&receipt, image_id, &SCHOLAR.to_string()) {
        Ok(out) => {
            assert_eq!(out.count, 2);
            assert!(!out.final_white_to_move);
        }
        Err(e) => assert_eq!(e, HostFault::InvalidReceipt),
    }
    let other = "rnbqkbnr/pppppppp/8/8/8/8/PPPPPPPP/RNBQKBNR w KQkq - 0 1".to_string();
    let r = check_receipt(&receipt, image_id, &other).err();
    assert!(r == Some(HostFault::InvalidReceipt) || r == Some(HostFault::ClaimMismatch));
}
