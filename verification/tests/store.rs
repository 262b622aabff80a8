use t_vault_web_server::solana_transactions_repository::{
    status_timestamp, NewSolanaTransaction, SolanaTransaction, StatusTimestamp, StoreError,
    TransactionStore,
};
use t_vault_web_server::status::{
    Transition, STATUS_CONFIRMED, STATUS_CREATED, STATUS_FAILED, STATUS_FINALIZED,
    STATUS_PROCESSING, STATUS_SENT,
};
use t_vault_web_server::timestamp::Timestamp;

fn at(millis: i64) -> Timestamp {
    Timestamp { millis }
}

fn pending(last_valid_block_height: u64) -> NewSolanaTransaction {
    NewSolanaTransaction {
        blockhash: "9sHcv6xwn9YkB8nxTUGKDwPwNnmqVp5oAXxU8Fdkm4J6".to_string(),
        last_valid_block_height,
        status: STATUS_CREATED,
        tx: "AQID".to_string(),
        created_at: at(1_700_000_000_000),
        sent_at: None,
    }
}

fn sent(store: &mut TransactionStore, last_valid_block_height: u64, signature: &str) -> i32 {
    let id = SolanaTransaction::create(store, pending(last_valid_block_height)).unwrap();
    SolanaTransaction::mark_sent(
        store,
        id,
        signature.to_string(),
        at(1_700_000_000_500),
        "BAUG".to_string(),
        at(1_700_000_000_501),
    )
    .unwrap();
    id
}

#[test]
fn new_store_is_empty() {
    let store = TransactionStore::new();
    assert_eq!(store.len(), 0);
    assert_eq!(SolanaTransaction::get_by_id(&store, 1).err(), Some(StoreError::NotFound));
    assert!(SolanaTransaction::get_all_not_finalized_or_failed(&store).unwrap().is_empty());
}

#[test]
fn create_assigns_identifiers_in_sequence() {
    let mut store = TransactionStore::new();
    assert_eq!(SolanaTransaction::create(&mut store, pending(1000)), Ok(1));
    assert_eq!(SolanaTransaction::create(&mut store, pending(1001)), Ok(2));
    assert_eq!(SolanaTransaction::create(&mut store, pending(1002)), Ok(3));
    assert_eq!(store.len(), 3);
    let second = SolanaTransaction::get_by_id(&store, 2).unwrap();
    assert_eq!(second.id, 2);
    assert_eq!(second.last_valid_block_height, 1001);
}

#[test]
fn create_writes_the_initial_fields() {
    let mut store = TransactionStore::new();
    let id = SolanaTransaction::create(
        &mut store,
        NewSolanaTransaction {
            blockhash: "hash".to_string(),
            last_valid_block_height: 77,
            status: STATUS_SENT,
            tx: "payload".to_string(),
            created_at: at(5),
            sent_at: Some(at(6)),
        },
    )
    .unwrap();
    let record = SolanaTransaction::get_by_id(&store, id).unwrap();
    assert_eq!(record.id, 1);
    assert_eq!(record.blockhash, "hash");
    assert_eq!(record.last_valid_block_height, 77);
    assert_eq!(record.status, STATUS_SENT);
    assert_eq!(record.tx, "payload");
    assert_eq!(record.created_at, at(5));
    assert_eq!(record.sent_at, Some(at(6)));
    assert_eq!(record.updated_at, None);
    assert_eq!(record.confirmed_at, None);
    assert_eq!(record.finalized_at, None);
    assert_eq!(record.time_to_send, None);
    assert_eq!(record.time_to_confirmed, None);
    assert_eq!(record.time_to_finalized, None);
    assert_eq!(record.priority_fee, None);
    assert_eq!(record.tx_signature, None);
}

#[test]
fn get_by_id_misses_outside_the_table() {
    let mut store = TransactionStore::new();
    SolanaTransaction::create(&mut store, pending(1000)).unwrap();
    assert!(SolanaTransaction::get_by_id(&store, 1).is_ok());
    assert_eq!(SolanaTransaction::get_by_id(&store, 0).err(), Some(StoreError::NotFound));
    assert_eq!(SolanaTransaction::get_by_id(&store, 2).err(), Some(StoreError::NotFound));
    assert_eq!(SolanaTransaction::get_by_id(&store, -1).err(), Some(StoreError::NotFound));
    assert_eq!(SolanaTransaction::get_by_id(&store, i32::MAX).err(), Some(StoreError::NotFound));
    assert_eq!(SolanaTransaction::get_by_id(&store, i32::MIN).err(), Some(StoreError::NotFound));
}

#[test]
fn mark_sent_records_signature_and_payload() {
    let mut store = TransactionStore::new();
    let id = SolanaTransaction::create(&mut store, pending(1000)).unwrap();
    assert_eq!(
        SolanaTransaction::mark_sent(
            &mut store,
            id,
            "sig-1".to_string(),
            at(1_700_000_000_500),
            "BAUG".to_string(),
            at(1_700_000_000_501),
        ),
        Ok(())
    );
    let record = SolanaTransaction::get_by_signature(&store, "sig-1".to_string()).unwrap();
    assert_eq!(record.id, id);
    assert_eq!(record.status, STATUS_SENT);
    assert_eq!(record.tx, "BAUG");
    assert_eq!(record.tx_signature, Some("sig-1".to_string()));
    assert_eq!(record.sent_at, Some(at(1_700_000_000_500)));
    assert_eq!(record.updated_at, Some(at(1_700_000_000_501)));
    assert_eq!(record.created_at, at(1_700_000_000_000));
    assert_eq!(record.last_valid_block_height, 1000);
    assert_eq!(record.blockhash, "9sHcv6xwn9YkB8nxTUGKDwPwNnmqVp5oAXxU8Fdkm4J6");
}

#[test]
fn mark_sent_touches_no_other_record() {
    let mut store = TransactionStore::new();
    let first = SolanaTransaction::create(&mut store, pending(1000)).unwrap();
    let second = SolanaTransaction::create(&mut store, pending(2000)).unwrap();
    SolanaTransaction::mark_sent(
        &mut store,
        second,
        "sig-2".to_string(),
        at(10),
        "signed".to_string(),
        at(11),
    )
    .unwrap();
    let untouched = SolanaTransaction::get_by_id(&store, first).unwrap();
    assert_eq!(untouched.status, STATUS_CREATED);
    assert_eq!(untouched.tx, "AQID");
    assert_eq!(untouched.tx_signature, None);
    assert_eq!(untouched.sent_at, None);
}

#[test]
fn mark_sent_for_a_missing_record_changes_nothing() {
    let mut store = TransactionStore::new();
    SolanaTransaction::create(&mut store, pending(1000)).unwrap();
    assert_eq!(
        SolanaTransaction::mark_sent(
            &mut store,
            9,
            "sig-9".to_string(),
            at(10),
            "signed".to_string(),
            at(11),
        ),
        Ok(())
    );
    assert_eq!(store.len(), 1);
    assert_eq!(
        SolanaTransaction::get_by_signature(&store, "sig-9".to_string()).err(),
        Some(StoreError::NotFound)
    );
    assert_eq!(SolanaTransaction::get_by_id(&store, 1).unwrap().status, STATUS_CREATED);
}

#[test]
fn set_status_sent_stamps_the_update() {
    let mut store = TransactionStore::new();
    let id = SolanaTransaction::create(&mut store, pending(1000)).unwrap();
    assert_eq!(
        SolanaTransaction::set_status_sent(
            &mut store,
            id,
            "sig-1".to_string(),
            at(42),
            "signed".to_string(),
        ),
        Ok(())
    );
    let record = SolanaTransaction::get_by_id(&store, id).unwrap();
    assert_eq!(record.status, STATUS_SENT);
    assert_eq!(record.sent_at, Some(at(42)));
    assert_eq!(record.tx, "signed");
    assert_eq!(record.tx_signature, Some("sig-1".to_string()));
    assert!(record.updated_at.is_some());
}

#[test]
fn get_by_signature_returns_the_first_match() {
    let mut store = TransactionStore::new();
    sent(&mut store, 1000, "sig-a");
    let first = sent(&mut store, 1000, "sig-b");
    sent(&mut store, 1000, "sig-b");
    let found = SolanaTransaction::get_by_signature(&store, "sig-b".to_string()).unwrap();
    assert_eq!(found.id, first);
    assert_eq!(
        SolanaTransaction::get_by_signature(&store, "sig-c".to_string()).err(),
        Some(StoreError::NotFound)
    );
    assert_eq!(
        SolanaTransaction::get_by_signature(&store, "".to_string()).err(),
        Some(StoreError::NotFound)
    );
}

#[test]
fn update_status_sets_the_timestamp_of_the_status() {
    let mut store = TransactionStore::new();
    let id = sent(&mut store, 1000, "sig-1");
    assert_eq!(
        SolanaTransaction::update_status(&mut store, id, STATUS_CONFIRMED, Some(at(70))),
        Ok(())
    );
    let confirmed = SolanaTransaction::get_by_id(&store, id).unwrap();
    assert_eq!(confirmed.status, STATUS_CONFIRMED);
    assert_eq!(confirmed.confirmed_at, Some(at(70)));
    assert_eq!(confirmed.finalized_at, None);

    assert_eq!(
        SolanaTransaction::update_status(&mut store, id, STATUS_FINALIZED, Some(at(90))),
        Ok(())
    );
    let finalized = SolanaTransaction::get_by_id(&store, id).unwrap();
    assert_eq!(finalized.status, STATUS_FINALIZED);
    assert_eq!(finalized.confirmed_at, Some(at(70)));
    assert_eq!(finalized.finalized_at, Some(at(90)));
    assert_eq!(finalized.sent_at, Some(at(1_700_000_000_500)));
    assert_eq!(finalized.updated_at, Some(at(1_700_000_000_501)));
}

#[test]
fn update_status_without_a_timestamp_of_its_own() {
    let mut store = TransactionStore::new();
    let id = sent(&mut store, 1000, "sig-1");
    assert_eq!(
        SolanaTransaction::update_status(&mut store, id, STATUS_PROCESSING, Some(at(70))),
        Ok(())
    );
    let processing = SolanaTransaction::get_by_id(&store, id).unwrap();
    assert_eq!(processing.status, STATUS_PROCESSING);
    assert_eq!(processing.confirmed_at, None);
    assert_eq!(processing.finalized_at, None);
    assert_eq!(processing.updated_at, Some(at(1_700_000_000_501)));

    assert_eq!(
        SolanaTransaction::update_status(&mut store, id, STATUS_FAILED, Some(at(80))),
        Ok(())
    );
    let failed = SolanaTransaction::get_by_id(&store, id).unwrap();
    assert_eq!(failed.status, STATUS_FAILED);
    assert_eq!(failed.confirmed_at, None);
    assert_eq!(failed.finalized_at, None);
}

#[test]
fn update_status_refuses_undefined_codes() {
    let mut store = TransactionStore::new();
    let id = sent(&mut store, 1000, "sig-1");
    for status in [6, 7, 100, u16::MAX] {
        assert_eq!(
            SolanaTransaction::update_status(&mut store, id, status, Some(at(70))),
            Err(StoreError::UnsupportedStatus)
        );
    }
    assert_eq!(
        SolanaTransaction::update_status(&mut store, 99, 6, None),
        Err(StoreError::UnsupportedStatus)
    );
    assert_eq!(SolanaTransaction::get_by_id(&store, id).unwrap().status, STATUS_SENT);
}

#[test]
fn update_status_sets_every_defined_status() {
    for status in [
        STATUS_CREATED,
        STATUS_SENT,
        STATUS_PROCESSING,
        STATUS_CONFIRMED,
        STATUS_FINALIZED,
        STATUS_FAILED,
    ] {
        let mut store = TransactionStore::new();
        let other = sent(&mut store, 900, "sig-0");
        let id = sent(&mut store, 1000, "sig-1");
        let before = SolanaTransaction::get_by_id(&store, id).unwrap();
        let beside = SolanaTransaction::get_by_id(&store, other).unwrap();
        assert_eq!(
            SolanaTransaction::update_status(&mut store, id, status, Some(at(70))),
            Ok(())
        );
        let after = SolanaTransaction::get_by_id(&store, id).unwrap();
        assert_eq!(after.status, status);
        let confirmed_at = if status == STATUS_CONFIRMED { Some(at(70)) } else { None };
        let finalized_at = if status == STATUS_FINALIZED { Some(at(70)) } else { None };
        assert_eq!(after.confirmed_at, confirmed_at);
        assert_eq!(after.finalized_at, finalized_at);
        assert_eq!(after.id, before.id);
        assert_eq!(after.blockhash, before.blockhash);
        assert_eq!(after.last_valid_block_height, before.last_valid_block_height);
        assert_eq!(after.tx, before.tx);
        assert_eq!(after.tx_signature, before.tx_signature);
        assert_eq!(after.created_at, before.created_at);
        assert_eq!(after.sent_at, before.sent_at);
        assert_eq!(after.updated_at, before.updated_at);
        assert_eq!(
            format!("{:?}", SolanaTransaction::get_by_id(&store, other).unwrap()),
            format!("{:?}", beside)
        );
    }
}

#[test]
fn update_status_to_created_and_sent_writes_the_status_alone() {
    let mut store = TransactionStore::new();
    let id = SolanaTransaction::create(&mut store, pending(1000)).unwrap();
    assert_eq!(SolanaTransaction::update_status(&mut store, id, STATUS_SENT, Some(at(70))), Ok(()));
    let record = SolanaTransaction::get_by_id(&store, id).unwrap();
    assert_eq!(record.status, STATUS_SENT);
    assert_eq!(record.sent_at, None);
    assert_eq!(record.tx_signature, None);
    assert_eq!(record.updated_at, None);
    assert_eq!(SolanaTransaction::update_status(&mut store, id, STATUS_CREATED, None), Ok(()));
    assert_eq!(SolanaTransaction::get_by_id(&store, id).unwrap().status, STATUS_CREATED);
}

#[test]
fn mark_sent_leaves_a_record_beyond_the_created_state() {
    for status in [STATUS_SENT, STATUS_PROCESSING, STATUS_CONFIRMED, STATUS_FINALIZED, STATUS_FAILED]
    {
        let mut store = TransactionStore::new();
        let id = sent(&mut store, 1000, "sig-1");
        SolanaTransaction::update_status(&mut store, id, status, Some(at(70))).unwrap();
        let before = SolanaTransaction::get_by_id(&store, id).unwrap();
        assert_eq!(
            SolanaTransaction::mark_sent(
                &mut store,
                id,
                "sig-2".to_string(),
                at(80),
                "other".to_string(),
                at(81),
            ),
            Ok(())
        );
        let after = SolanaTransaction::get_by_id(&store, id).unwrap();
        assert_eq!(after.status, status);
        assert_eq!(after.tx_signature, Some("sig-1".to_string()));
        assert_eq!(after.tx, "BAUG");
        assert_eq!(after.sent_at, Some(at(1_700_000_000_500)));
        assert_eq!(after.updated_at, Some(at(1_700_000_000_501)));
        assert_eq!(format!("{:?}", after), format!("{:?}", before));
        assert_eq!(
            SolanaTransaction::get_by_signature(&store, "sig-2".to_string()).err(),
            Some(StoreError::NotFound)
        );
    }
}

#[test]
fn set_status_sent_does_not_undo_finalization() {
    let mut store = TransactionStore::new();
    let id = sent(&mut store, 1000, "sig-1");
    SolanaTransaction::update_status(&mut store, id, STATUS_FINALIZED, Some(at(90))).unwrap();
    assert_eq!(
        SolanaTransaction::set_status_sent(
            &mut store,
            id,
            "sig-2".to_string(),
            at(95),
            "other".to_string(),
        ),
        Ok(())
    );
    let record = SolanaTransaction::get_by_id(&store, id).unwrap();
    assert_eq!(record.status, STATUS_FINALIZED);
    assert_eq!(record.finalized_at, Some(at(90)));
    assert_eq!(record.tx_signature, Some("sig-1".to_string()));
    assert_eq!(record.sent_at, Some(at(1_700_000_000_500)));
    assert!(SolanaTransaction::get_all_not_finalized_or_failed(&store).unwrap().is_empty());
}

#[test]
fn update_status_for_a_missing_record_changes_nothing() {
    let mut store = TransactionStore::new();
    let id = sent(&mut store, 1000, "sig-1");
    assert_eq!(
        SolanaTransaction::update_status(&mut store, 2, STATUS_FINALIZED, Some(at(70))),
        Ok(())
    );
    assert_eq!(
        SolanaTransaction::update_status(&mut store, 0, STATUS_FINALIZED, Some(at(70))),
        Ok(())
    );
    assert_eq!(
        SolanaTransaction::update_status(&mut store, -3, STATUS_FAILED, None),
        Ok(())
    );
    let record = SolanaTransaction::get_by_id(&store, id).unwrap();
    assert_eq!(record.status, STATUS_SENT);
    assert_eq!(record.finalized_at, None);
    assert_eq!(store.len(), 1);
}

#[test]
fn update_status_does_not_validate_the_transition() {
    let mut store = TransactionStore::new();
    let id = sent(&mut store, 1000, "sig-1");
    SolanaTransaction::update_status(&mut store, id, STATUS_FINALIZED, Some(at(90))).unwrap();
    SolanaTransaction::update_status(&mut store, id, STATUS_PROCESSING, None).unwrap();
    assert_eq!(SolanaTransaction::get_by_id(&store, id).unwrap().status, STATUS_PROCESSING);
}

#[test]
fn set_status_confirmed_and_finalized_stamp_their_fields() {
    let mut store = TransactionStore::new();
    let id = sent(&mut store, 1000, "sig-1");
    assert_eq!(SolanaTransaction::set_status_confirmed(&mut store, id), Ok(()));
    let confirmed = SolanaTransaction::get_by_id(&store, id).unwrap();
    assert_eq!(confirmed.status, STATUS_CONFIRMED);
    assert!(confirmed.confirmed_at.is_some());
    assert_eq!(confirmed.finalized_at, None);

    assert_eq!(SolanaTransaction::set_status_finalized(&mut store, id), Ok(()));
    let finalized = SolanaTransaction::get_by_id(&store, id).unwrap();
    assert_eq!(finalized.status, STATUS_FINALIZED);
    assert_eq!(finalized.confirmed_at, confirmed.confirmed_at);
    assert!(finalized.finalized_at.is_some());
}

#[test]
fn set_status_processing_and_failed_write_the_status_alone() {
    let mut store = TransactionStore::new();
    let id = sent(&mut store, 1000, "sig-1");
    assert_eq!(SolanaTransaction::set_status_processing(&mut store, id), Ok(()));
    assert_eq!(SolanaTransaction::get_by_id(&store, id).unwrap().status, STATUS_PROCESSING);
    assert_eq!(SolanaTransaction::set_status_failed(&mut store, id), Ok(()));
    let failed = SolanaTransaction::get_by_id(&store, id).unwrap();
    assert_eq!(failed.status, STATUS_FAILED);
    assert_eq!(failed.confirmed_at, None);
    assert_eq!(failed.finalized_at, None);
    assert_eq!(failed.tx_signature, Some("sig-1".to_string()));
}

#[test]
fn apply_transition_writes_each_transition() {
    let mut store = TransactionStore::new();
    let id = sent(&mut store, 1000, "sig-1");
    SolanaTransaction::apply_transition(&mut store, id, Transition::Processing, at(1)).unwrap();
    let record = SolanaTransaction::get_by_id(&store, id).unwrap();
    assert_eq!((record.status, record.confirmed_at, record.finalized_at), (2, None, None));
    SolanaTransaction::apply_transition(&mut store, id, Transition::Confirmed, at(2)).unwrap();
    let record = SolanaTransaction::get_by_id(&store, id).unwrap();
    assert_eq!((record.status, record.confirmed_at, record.finalized_at), (3, Some(at(2)), None));
    SolanaTransaction::apply_transition(&mut store, id, Transition::Finalized, at(3)).unwrap();
    let record = SolanaTransaction::get_by_id(&store, id).unwrap();
    assert_eq!(
        (record.status, record.confirmed_at, record.finalized_at),
        (4, Some(at(2)), Some(at(3)))
    );
    SolanaTransaction::apply_transition(&mut store, id, Transition::Failed, at(4)).unwrap();
    let record = SolanaTransaction::get_by_id(&store, id).unwrap();
    assert_eq!(
        (record.status, record.confirmed_at, record.finalized_at),
        (5, Some(at(2)), Some(at(3)))
    );
}

#[test]
fn outstanding_records_leave_out_the_terminal_ones() {
    let mut store = TransactionStore::new();
    let created = SolanaTransaction::create(&mut store, pending(1000)).unwrap();
    let sent_one = sent(&mut store, 1000, "sig-2");
    let finalized = sent(&mut store, 1000, "sig-3");
    let failed = sent(&mut store, 1000, "sig-4");
    let confirmed = sent(&mut store, 1000, "sig-5");
    SolanaTransaction::set_status_finalized(&mut store, finalized).unwrap();
    SolanaTransaction::set_status_failed(&mut store, failed).unwrap();
    SolanaTransaction::set_status_confirmed(&mut store, confirmed).unwrap();
    let listed = SolanaTransaction::get_all_not_finalized_or_failed(&store).unwrap();
    let ids: Vec<i32> = listed.iter().map(|r| r.id).collect();
    assert_eq!(ids, vec![created, sent_one, confirmed]);
    let statuses: Vec<u16> = listed.iter().map(|r| r.status).collect();
    assert_eq!(statuses, vec![STATUS_CREATED, STATUS_SENT, STATUS_CONFIRMED]);
    assert_eq!(store.len(), 5);
}

#[test]
fn duplicate_copies_every_field() {
    let mut store = TransactionStore::new();
    let id = sent(&mut store, 1000, "sig-1");
    SolanaTransaction::update_status(&mut store, id, STATUS_CONFIRMED, Some(at(70))).unwrap();
    let record = SolanaTransaction::get_by_id(&store, id).unwrap();
    let copy = record.duplicate();
    assert_eq!(format!("{:?}", copy), format!("{:?}", record));
}

#[test]
fn status_codes_are_in_order() {
    assert_eq!(
        [
            STATUS_CREATED,
            STATUS_SENT,
            STATUS_PROCESSING,
            STATUS_CONFIRMED,
            STATUS_FINALIZED,
            STATUS_FAILED
        ],
        [0, 1, 2, 3, 4, 5]
    );
    assert_eq!(Transition::Processing.status(), 2);
    assert_eq!(Transition::Confirmed.status(), 3);
    assert_eq!(Transition::Finalized.status(), 4);
    assert_eq!(Transition::Failed.status(), 5);
}

#[test]
fn status_timestamp_names_the_field_of_each_status() {
    assert_eq!(status_timestamp(STATUS_CREATED), Ok(None));
    assert_eq!(status_timestamp(STATUS_SENT), Ok(None));
    assert_eq!(status_timestamp(STATUS_PROCESSING), Ok(None));
    assert_eq!(status_timestamp(STATUS_CONFIRMED), Ok(Some(StatusTimestamp::ConfirmedAt)));
    assert_eq!(status_timestamp(STATUS_FINALIZED), Ok(Some(StatusTimestamp::FinalizedAt)));
    assert_eq!(status_timestamp(STATUS_FAILED), Ok(None));
    for status in [6, 100, u16::MAX] {
        assert_eq!(status_timestamp(status), Err(StoreError::UnsupportedStatus));
    }
}

#[test]
fn transitions_stamp_confirmation_and_finalization() {
    assert_eq!(Transition::Processing.stamp(at(9)), None);
    assert_eq!(Transition::Confirmed.stamp(at(9)), Some(at(9)));
    assert_eq!(Transition::Finalized.stamp(at(9)), Some(at(9)));
    assert_eq!(Transition::Failed.stamp(at(9)), None);
}

#[test]
fn record_is_reachable_under_its_model_name() {
    let mut store = TransactionStore::new();
    let id = sent(&mut store, 1000, "sig-1");
    let record: t_vault_web_server::models::SolanaTransaction =
        SolanaTransaction::get_by_id(&store, id).unwrap();
    assert_eq!(record.id, id);
}

#[test]
fn identifiers_and_windows_survive_every_update() {
    let mut store = TransactionStore::new();
    let id = sent(&mut store, 1234, "sig-1");
    SolanaTransaction::set_status_processing(&mut store, id).unwrap();
    SolanaTransaction::set_status_confirmed(&mut store, id).unwrap();
    SolanaTransaction::set_status_finalized(&mut store, id).unwrap();
    let record = SolanaTransaction::get_by_id(&store, id).unwrap();
    assert_eq!(record.id, id);
    assert_eq!(record.last_valid_block_height, 1234);
    assert_eq!(record.blockhash, "9sHcv6xwn9YkB8nxTUGKDwPwNnmqVp5oAXxU8Fdkm4J6");
    assert_eq!(record.created_at, at(1_700_000_000_000));
    assert_eq!(record.tx_signature, Some("sig-1".to_string()));
    assert_eq!(record.tx, "BAUG");
}
