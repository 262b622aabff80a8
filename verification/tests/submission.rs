use t_vault_web_server::ledger::LedgerError;
use t_vault_web_server::payload::{decode_payload, encode_payload};
use t_vault_web_server::solana_transactions_repository::{
    SolanaTransaction, StoreError, TransactionStore,
};
use t_vault_web_server::status::{STATUS_CREATED, STATUS_SENT};
use t_vault_web_server::submission::{
    begin_submission, check_submission, conclude_submission, new_pending, pending_record,
    submission_reply, SubmitError,
};
use t_vault_web_server::status::STATUS_FAILED;
use t_vault_web_server::timestamp::Timestamp;

fn at(millis: i64) -> Timestamp {
    Timestamp { millis }
}

fn store_with_pending() -> (TransactionStore, i32) {
    let mut store = TransactionStore::new();
    let new_tx = new_pending("hash".to_string(), 1000, &[1, 2, 3], at(1_000)).unwrap();
    let id = SolanaTransaction::create(&mut store, new_tx).unwrap();
    (store, id)
}

#[test]
fn encode_payload_gives_standard_base64() {
    assert_eq!(encode_payload(&[1, 2, 3]), Some("AQID".to_string()));
    assert_eq!(encode_payload(&[]), Some("".to_string()));
    assert_eq!(encode_payload(&[0xff]), Some("/w==".to_string()));
    assert_eq!(encode_payload(&[0xfb, 0xef]), Some("++8=".to_string()));
    assert_eq!(encode_payload(b"hello world~"), Some("aGVsbG8gd29ybGR+".to_string()));
}

#[test]
fn decode_payload_reads_standard_base64() {
    assert_eq!(decode_payload("AQID"), Some(vec![1, 2, 3]));
    assert_eq!(decode_payload(""), Some(vec![]));
    assert_eq!(decode_payload("/w=="), Some(vec![0xff]));
    assert_eq!(decode_payload("aGVsbG8gd29ybGR+Cg=="), Some(b"hello world~\n".to_vec()));
}

#[test]
fn decode_payload_refuses_other_text() {
    assert_eq!(decode_payload("AQI"), None);
    assert_eq!(decode_payload("/w"), None);
    assert_eq!(decode_payload("AQID\n"), None);
    assert_eq!(decode_payload("A-ID"), None);
    assert_eq!(decode_payload("not base64!"), None);
    assert_eq!(decode_payload("/x=="), None);
}

#[test]
fn payload_survives_the_round_trip() {
    let payload: Vec<u8> = (0..=255).collect();
    let text = encode_payload(&payload).unwrap();
    assert_eq!(text.len(), 344);
    assert_eq!(decode_payload(&text), Some(payload));
}

#[test]
fn new_pending_starts_in_the_created_state() {
    let new_tx = new_pending("hash".to_string(), 1000, &[1, 2, 3], at(1_000)).unwrap();
    assert_eq!(new_tx.blockhash, "hash");
    assert_eq!(new_tx.last_valid_block_height, 1000);
    assert_eq!(new_tx.status, STATUS_CREATED);
    assert_eq!(new_tx.tx, "AQID");
    assert_eq!(new_tx.created_at, at(1_000));
    assert_eq!(new_tx.sent_at, None);
}

#[test]
fn submission_of_a_pending_record_is_admitted() {
    let (store, id) = store_with_pending();
    let lookup = SolanaTransaction::get_by_id(&store, id);
    assert_eq!(begin_submission(&lookup, "BAUG"), Ok(vec![4, 5, 6]));
    assert_eq!(check_submission(&lookup, Some(vec![9])), Ok(vec![9]));
}

#[test]
fn submission_for_an_unknown_record_is_refused() {
    let (store, _) = store_with_pending();
    let lookup = SolanaTransaction::get_by_id(&store, 12);
    assert_eq!(
        begin_submission(&lookup, "BAUG"),
        Err(SubmitError::Store(StoreError::NotFound))
    );
    assert_eq!(
        begin_submission(&lookup, "not base64!"),
        Err(SubmitError::Store(StoreError::NotFound))
    );
    let unavailable = Err(StoreError::Unavailable);
    assert_eq!(
        begin_submission(&unavailable, "BAUG"),
        Err(SubmitError::Store(StoreError::Unavailable))
    );
}

#[test]
fn submission_of_a_malformed_payload_is_refused() {
    let (store, id) = store_with_pending();
    let lookup = SolanaTransaction::get_by_id(&store, id);
    assert_eq!(begin_submission(&lookup, "not base64!"), Err(SubmitError::MalformedPayload));
    assert_eq!(check_submission(&lookup, None), Err(SubmitError::MalformedPayload));
}

#[test]
fn second_submission_is_refused() {
    let (mut store, id) = store_with_pending();
    SolanaTransaction::mark_sent(
        &mut store,
        id,
        "sig-1".to_string(),
        at(2_000),
        "BAUG".to_string(),
        at(2_001),
    )
    .unwrap();
    let lookup = SolanaTransaction::get_by_id(&store, id);
    assert_eq!(begin_submission(&lookup, "BAUG"), Err(SubmitError::AlreadySubmitted));
    assert_eq!(begin_submission(&lookup, "not base64!"), Err(SubmitError::AlreadySubmitted));
}

#[test]
fn accepted_submission_marks_the_record_as_sent() {
    let (mut store, id) = store_with_pending();
    let mark =
        conclude_submission(id, Ok("sig-1".to_string()), at(2_000), "BAUG".to_string()).unwrap();
    assert_eq!(mark.tx_id, id);
    assert_eq!(mark.signature, "sig-1");
    assert_eq!(mark.sent_at, at(2_000));
    assert_eq!(mark.signed_tx, "BAUG");
    assert_eq!(mark.record(&mut store, at(2_001)), Ok(()));
    let record = SolanaTransaction::get_by_signature(&store, "sig-1".to_string()).unwrap();
    assert_eq!(record.id, id);
    assert_eq!(record.status, STATUS_SENT);
    assert_eq!(record.tx, "BAUG");
    assert_eq!(record.sent_at, Some(at(2_000)));
    assert_eq!(record.updated_at, Some(at(2_001)));
}

#[test]
fn rejected_submission_writes_nothing() {
    let (store, id) = store_with_pending();
    let result = conclude_submission(id, Err(LedgerError::Rejected), at(2_000), "BAUG".to_string());
    assert_eq!(result.err(), Some(SubmitError::Ledger(LedgerError::Rejected)));
    let result =
        conclude_submission(id, Err(LedgerError::Unavailable), at(2_000), "BAUG".to_string());
    assert_eq!(result.err(), Some(SubmitError::Ledger(LedgerError::Unavailable)));
    let record = SolanaTransaction::get_by_id(&store, id).unwrap();
    assert_eq!(record.status, STATUS_CREATED);
    assert_eq!(record.tx, "AQID");
    assert_eq!(record.tx_signature, None);
    let lookup = SolanaTransaction::get_by_id(&store, id);
    assert_eq!(begin_submission(&lookup, "BAUG"), Ok(vec![4, 5, 6]));
}

#[test]
fn now_is_after_the_year_2020() {
    let now = Timestamp::now();
    assert!(now.millis > 1_577_836_800_000);
    let later = Timestamp::now();
    assert!(later.millis >= now.millis - 60_000);
}

#[test]
fn pending_record_keeps_the_stored_form() {
    let new_tx = pending_record("hash".to_string(), 55, "AQID".to_string(), at(7));
    assert_eq!(new_tx.blockhash, "hash");
    assert_eq!(new_tx.last_valid_block_height, 55);
    assert_eq!(new_tx.status, STATUS_CREATED);
    assert_eq!(new_tx.tx, "AQID");
    assert_eq!(new_tx.created_at, at(7));
    assert_eq!(new_tx.sent_at, None);
}

#[test]
fn reply_succeeds_when_ledger_and_store_both_did() {
    let taken = conclude_submission(1, Ok("sig-1".to_string()), at(2_000), "BAUG".to_string());
    assert_eq!(submission_reply(&taken, &Ok(())), Ok(()));
    assert_eq!(
        submission_reply(&taken, &Err(StoreError::Unavailable)),
        Err(SubmitError::Store(StoreError::Unavailable))
    );
    assert_eq!(
        submission_reply(&taken, &Err(StoreError::NotFound)),
        Err(SubmitError::Store(StoreError::NotFound))
    );
}

#[test]
fn reply_passes_the_refusal_of_the_ledger_on() {
    let refused = conclude_submission(1, Err(LedgerError::Rejected), at(2_000), "BAUG".to_string());
    assert_eq!(
        submission_reply(&refused, &Ok(())),
        Err(SubmitError::Ledger(LedgerError::Rejected))
    );
    assert_eq!(
        submission_reply(&refused, &Err(StoreError::Unavailable)),
        Err(SubmitError::Ledger(LedgerError::Rejected))
    );
}

#[test]
fn mark_that_comes_after_the_failure_changes_nothing() {
    let (mut store, id) = store_with_pending();
    let lookup = SolanaTransaction::get_by_id(&store, id);
    assert!(begin_submission(&lookup, "BAUG").is_ok());
    SolanaTransaction::set_status_failed(&mut store, id).unwrap();
    let mark =
        conclude_submission(id, Ok("sig-1".to_string()), at(2_000), "BAUG".to_string()).unwrap();
    assert_eq!(mark.record(&mut store, at(2_001)), Ok(()));
    let record = SolanaTransaction::get_by_id(&store, id).unwrap();
    assert_eq!(record.status, STATUS_FAILED);
    assert_eq!(record.tx, "AQID");
    assert_eq!(record.tx_signature, None);
    assert_eq!(record.sent_at, None);
    assert_eq!(record.updated_at, None);
}
