use transfer_indexer::checkpoint::{checkpoint_due, CHECKPOINT_INTERVAL};
use transfer_indexer::envelope::open_envelope;
use transfer_indexer::fetcher::{FetchPlan, Fetcher};
use transfer_indexer::model::{checkpoint_key_name, highest_indexed, ConfigurationModel, TxdataModel};
use transfer_indexer::processor::{
    classify, process_block, transfer_record, Block, DecodedTx, Section, TransferPayload, TxClass,
    TxKind,
};
use transfer_indexer::storage::{judge_upsert, UpsertOutcome};

fn payload(source: &str, destination: &str, token: &str, amount: &str) -> TransferPayload {
    TransferPayload {
        source: source.to_string(),
        destination: destination.to_string(),
        token: token.to_string(),
        amount: amount.to_string(),
    }
}

fn transfer_tx(hash: &str, p: TransferPayload) -> DecodedTx {
    DecodedTx {
        kind: TxKind::Decrypted,
        sections: vec![
            Section::Code { tag: Some("tx_transfer.wasm".to_string()) },
            Section::Data { transfer: Some(p) },
        ],
        txhash: hash.to_string(),
        timestamp: "2024-01-02T03:04:05+00:00".to_string(),
    }
}

fn plain_tx(kind: TxKind) -> DecodedTx {
    DecodedTx {
        kind,
        sections: vec![],
        txhash: "00".to_string(),
        timestamp: "2024-01-02T03:04:05+00:00".to_string(),
    }
}

fn upsert(rows: &mut Vec<TxdataModel>, record: TxdataModel) -> UpsertOutcome {
    if rows.iter().any(|r| r.txhash == record.txhash) {
        judge_upsert(Some(
            "error returned from database: duplicate key value violates unique constraint \"txdata_pkey\"",
        ))
    } else {
        rows.push(record);
        judge_upsert(None)
    }
}

#[test]
fn checkpoint_is_due_at_multiples_of_one_hundred() {
    assert_eq!(CHECKPOINT_INTERVAL, 100);
    assert_eq!(checkpoint_due(0), Some(0));
    assert_eq!(checkpoint_due(1), None);
    assert_eq!(checkpoint_due(99), None);
    assert_eq!(checkpoint_due(100), Some(100));
    assert_eq!(checkpoint_due(101), None);
    assert_eq!(checkpoint_due(150), None);
    assert_eq!(checkpoint_due(1200), Some(1200));
    assert_eq!(checkpoint_due(-100), Some(-100));
    assert_eq!(checkpoint_due(-150), None);
    assert_eq!(checkpoint_due(i64::MAX), None);
    assert_eq!(checkpoint_due(i64::MIN), None);
}

#[test]
fn checkpoints_written_in_order_never_decrease() {
    let mut written: Vec<i64> = Vec::new();
    let heights: Vec<i64> = vec![98, 99, 100, 101, 98, 99, 100, 101, 102, 199, 200, 201, 300];
    for h in heights {
        if let Some(c) = checkpoint_due(h) {
            assert_eq!(c % 100, 0);
            written.push(c);
        }
    }
    assert_eq!(written, vec![100, 100, 200, 300]);
    for pair in written.windows(2) {
        assert!(pair[0] <= pair[1]);
    }
}

#[test]
fn checkpoint_row_is_read_with_zero_for_absent() {
    assert_eq!(checkpoint_key_name(), "highest_indexed");
    assert_eq!(highest_indexed(&None), 0);
    let unset = ConfigurationModel { key: "highest_indexed".to_string(), value: None };
    assert_eq!(highest_indexed(&Some(unset)), 0);
    let set = ConfigurationModel { key: "highest_indexed".to_string(), value: Some(4200) };
    assert_eq!(highest_indexed(&Some(set)), 4200);
}

#[test]
fn variants_other_than_transfers_are_ignored() {
    assert_eq!(classify(&Some(plain_tx(TxKind::Raw))), TxClass::Ignored(TxKind::Raw));
    assert_eq!(classify(&Some(plain_tx(TxKind::Wrapper))), TxClass::Ignored(TxKind::Wrapper));
    assert_eq!(classify(&Some(plain_tx(TxKind::Protocol))), TxClass::Ignored(TxKind::Protocol));
    assert_eq!(classify(&Some(plain_tx(TxKind::Decrypted))), TxClass::Ignored(TxKind::Decrypted));
    let mut other = transfer_tx("aa", payload("a", "b", "t", "1"));
    other.sections[0] = Section::Code { tag: Some("tx_bond.wasm".to_string()) };
    assert_eq!(classify(&Some(other)), TxClass::Ignored(TxKind::Decrypted));
    let mut untagged = transfer_tx("aa", payload("a", "b", "t", "1"));
    untagged.sections[0] = Section::Code { tag: None };
    assert_eq!(classify(&Some(untagged)), TxClass::Ignored(TxKind::Decrypted));
    let mut no_code = transfer_tx("aa", payload("a", "b", "t", "1"));
    no_code.sections[0] = Section::Other;
    assert_eq!(classify(&Some(no_code)), TxClass::Ignored(TxKind::Decrypted));
    let mut wrapped = transfer_tx("aa", payload("a", "b", "t", "1"));
    wrapped.kind = TxKind::Wrapper;
    assert_eq!(classify(&Some(wrapped)), TxClass::Ignored(TxKind::Wrapper));
}

#[test]
fn tagged_transfer_with_payload_is_a_transfer() {
    let tx = transfer_tx("aa", payload("alice", "bob", "NAM", "5"));
    assert!(tx.is_tagged_transfer());
    assert_eq!(tx.payload().map(|p| p.amount.clone()), Some("5".to_string()));
    assert_eq!(classify(&Some(tx)), TxClass::Transfer);
}

#[test]
fn malformed_transactions_are_skipped() {
    assert_eq!(classify(&None), TxClass::Malformed);
    assert!(transfer_record(7, &None).is_none());

    let mut missing = transfer_tx("aa", payload("a", "b", "t", "1"));
    missing.sections.truncate(1);
    assert!(missing.payload().is_none());
    assert_eq!(classify(&Some(missing.clone())), TxClass::Malformed);
    assert!(transfer_record(7, &Some(missing)).is_none());

    let mut undecodable = transfer_tx("aa", payload("a", "b", "t", "1"));
    undecodable.sections[1] = Section::Data { transfer: None };
    assert_eq!(classify(&Some(undecodable.clone())), TxClass::Malformed);
    assert!(transfer_record(7, &Some(undecodable)).is_none());

    let mut wrong = transfer_tx("aa", payload("a", "b", "t", "1"));
    wrong.sections[1] = Section::Other;
    assert_eq!(classify(&Some(wrong)), TxClass::Malformed);
}

#[test]
fn transfer_record_takes_height_from_the_block() {
    let tx = transfer_tx("AB12", payload("alice", "bob", "NAM", "5"));
    let r = transfer_record(12, &Some(tx)).expect("a transfer gives a record");
    assert_eq!(r.txhash, "AB12");
    assert_eq!(r.height, 12);
    assert_eq!(r.source, "alice");
    assert_eq!(r.destination, "bob");
    assert_eq!(r.token, "NAM");
    assert_eq!(r.amount, "5");
    assert_eq!(r.timestamp, "2024-01-02T03:04:05+00:00");
    assert!(transfer_record(12, &Some(plain_tx(TxKind::Raw))).is_none());
}

#[test]
fn block_gives_records_in_order_and_skips_the_rest() {
    let block = Block {
        height: 300,
        txs: vec![
            Some(plain_tx(TxKind::Wrapper)),
            Some(transfer_tx("h1", payload("a", "b", "NAM", "1"))),
            None,
            Some(plain_tx(TxKind::Protocol)),
            Some(transfer_tx("h2", payload("c", "d", "ETH", "2"))),
            Some(plain_tx(TxKind::Raw)),
        ],
    };
    let actions = process_block(&block);
    assert_eq!(actions.checkpoint, Some(300));
    let hashes: Vec<&str> = actions.records.iter().map(|r| r.txhash.as_str()).collect();
    assert_eq!(hashes, vec!["h1", "h2"]);
    for r in &actions.records {
        assert_eq!(r.height, 300);
    }
    assert_eq!(actions.records[1].source, "c");
    assert_eq!(actions.records[1].token, "ETH");
}

#[test]
fn empty_block_gives_nothing() {
    let actions = process_block(&Block { height: 7, txs: vec![] });
    assert_eq!(actions.checkpoint, None);
    assert!(actions.records.is_empty());
}

#[test]
fn upsert_answers_are_read() {
    assert_eq!(judge_upsert(None), UpsertOutcome::Inserted);
    assert_eq!(
        judge_upsert(Some(
            "error returned from database: duplicate key value violates unique constraint \"txdata_pkey\""
        )),
        UpsertOutcome::AlreadyPresent
    );
    assert_eq!(judge_upsert(Some("connection reset by peer")), UpsertOutcome::Dropped);
    assert_eq!(judge_upsert(Some("")), UpsertOutcome::Dropped);
}

#[test]
fn redelivered_block_adds_no_record() {
    let block = Block {
        height: 41,
        txs: vec![
            Some(transfer_tx("h1", payload("a", "b", "NAM", "1"))),
            Some(transfer_tx("h2", payload("c", "d", "NAM", "2"))),
        ],
    };
    let mut rows: Vec<TxdataModel> = Vec::new();
    for r in process_block(&block).records {
        assert_eq!(upsert(&mut rows, r), UpsertOutcome::Inserted);
    }
    assert_eq!(rows.len(), 2);
    for r in process_block(&block).records {
        assert_eq!(upsert(&mut rows, r), UpsertOutcome::AlreadyPresent);
    }
    assert_eq!(rows.len(), 2);
    assert_eq!(rows[0].txhash, "h1");
    assert_eq!(rows[1].txhash, "h2");
}

#[test]
fn catch_up_from_ten_stores_the_one_transfer_of_block_twelve() {
    let mut fetcher = Fetcher::new(10);
    let heights = match fetcher.begin(false) {
        FetchPlan::Fetch { heights } => heights,
        FetchPlan::Stop => panic!("the fetcher stopped without shutdown"),
    };
    assert_eq!(heights, vec![10, 11, 12, 13, 14]);
    let mut queue: Vec<Block> = Vec::new();
    for h in heights {
        let txs = if h == 12 {
            vec![Some(transfer_tx("C0FFEE", payload("alice", "bob", "NAM", "5")))]
        } else {
            vec![]
        };
        queue.push(Block { height: h as i64, txs });
        assert!(fetcher.record_push(true));
    }
    assert_eq!(fetcher.finish(), 10);
    assert_eq!(fetcher.cursor(), 15);

    let mut rows: Vec<TxdataModel> = Vec::new();
    let mut checkpoints: Vec<i64> = Vec::new();
    for block in &queue {
        let actions = process_block(block);
        checkpoints.extend(actions.checkpoint);
        for r in actions.records {
            assert_eq!(upsert(&mut rows, r), UpsertOutcome::Inserted);
        }
    }
    assert!(checkpoints.is_empty());
    assert_eq!(rows.len(), 1);
    assert_eq!(rows[0].txhash, "C0FFEE");
    assert_eq!(rows[0].height, 12);
    assert_eq!(rows[0].source, "alice");
    assert_eq!(rows[0].destination, "bob");
    assert_eq!(rows[0].token, "NAM");
    assert_eq!(rows[0].amount, "5");
}

#[test]
fn envelope_gives_the_bytes_of_its_first_field() {
    assert_eq!(open_envelope(&[0x0a, 0x03, 1, 2, 3]), Some(vec![1, 2, 3]));
    assert_eq!(open_envelope(&[]), Some(vec![]));
    assert_eq!(open_envelope(&[0x0a, 0x00]), Some(vec![]));
    assert_eq!(open_envelope(&[0x10, 0x01, 0x0a, 0x01, 0x07]), Some(vec![7]));
}

#[test]
fn envelope_refuses_bytes_that_are_no_message() {
    assert_eq!(open_envelope(&[0x0a, 0x05, 1]), None);
    assert_eq!(open_envelope(&[0x0a]), None);
    assert_eq!(open_envelope(&[0x08, 0x01]), None);
    assert_eq!(open_envelope(&[0xff]), None);
}

#[test]
fn envelope_opens_what_prost_wrote() {
    let inner: Vec<u8> = (0u8..200).collect();
    let wire = prost::Message::encode_to_vec(&inner);
    assert_ne!(wire, inner);
    assert_eq!(open_envelope(&wire), Some(inner));
}
