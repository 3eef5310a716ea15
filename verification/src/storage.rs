//! What the processor expects of storage: an upsert keyed by transaction
//! hash that leaves a record already present untouched. The rows are modelled
//! as a sequence; the statements below are about that model.

use vstd::prelude::*;
use crate::model::TransferView;
use crate::processor::records_of;
use crate::processor::TxView;
use crate::text::contains_text;
use crate::text::text_contains;

verus! {

/// The words by which storage reports that a hash is already present.
pub open spec fn conflict_marker() -> Seq<char> {
    "duplicate key value violates unique constraint"@
}

/// How an upsert of one record ended.
#[derive(Clone, Copy, Debug, PartialEq, Eq, Structural)]
pub enum UpsertOutcome {
    /// The record was inserted.
    Inserted,
    /// A record with this hash was already present: nothing changed, and
    /// this is no error.
    AlreadyPresent,
    /// Storage failed otherwise: the record is dropped and not tried again.
    Dropped,
}

/// The outcome that an upsert's error message stands for, `None` standing
/// for no error.
pub open spec fn upsert_outcome(error: Option<Seq<char>>) -> UpsertOutcome {
    match error {
        None => UpsertOutcome::Inserted,
        Some(message) => if contains_text(message, conflict_marker()) {
            UpsertOutcome::AlreadyPresent
        } else {
            UpsertOutcome::Dropped
        },
    }
}

/// Reads what storage answered to an upsert: no error is an insert, an error
/// that holds the conflict marker means the record was already present, any
/// other error means the record is dropped.
pub fn judge_upsert(error: Option<&str>) -> (outcome: UpsertOutcome)
    ensures
        outcome == upsert_outcome(
            match error {
                Some(message) => Some(message@),
                None => None,
            },
        ),
{
    match error {
        None => UpsertOutcome::Inserted,
        Some(message) => {
            if text_contains(message, "duplicate key value violates unique constraint") {
                UpsertOutcome::AlreadyPresent
            } else {
                UpsertOutcome::Dropped
            }
        },
    }
}

/// Some row has this hash.
pub open spec fn holds_hash(rows: Seq<TransferView>, txhash: Seq<char>) -> bool {
    exists|i: int| 0 <= i < rows.len() && (#[trigger] rows[i]).txhash == txhash
}

/// No two rows share a hash.
pub open spec fn hashes_unique(rows: Seq<TransferView>) -> bool {
    forall|i: int, j: int|
        0 <= i < rows.len() && 0 <= j < rows.len() && i != j ==> (#[trigger] rows[i]).txhash != (
        #[trigger] rows[j]).txhash
}

/// The rows after an upsert of `record`: unchanged where its hash is present,
/// else with the record added.
pub open spec fn upsert(rows: Seq<TransferView>, record: TransferView) -> Seq<TransferView> {
    if holds_hash(rows, record.txhash) {
        rows
    } else {
        rows.push(record)
    }
}

/// The rows after the upserts of `records`, one after the other.
pub open spec fn upsert_all(rows: Seq<TransferView>, records: Seq<TransferView>) -> Seq<
    TransferView,
>
    decreases records.len(),
{
    if records.len() == 0 {
        rows
    } else {
        upsert(upsert_all(rows, records.drop_last()), records.last())
    }
}

/// An upsert keeps every row, in place, and keeps the hashes unique.
pub proof fn upsert_keeps_rows(rows: Seq<TransferView>, record: TransferView)
    ensures
        rows.len() <= upsert(rows, record).len(),
        forall|i: int| 0 <= i < rows.len() ==> upsert(rows, record)[i] == rows[i],
        holds_hash(upsert(rows, record), record.txhash),
        forall|h: Seq<char>| holds_hash(rows, h) ==> holds_hash(upsert(rows, record), h),
        hashes_unique(rows) ==> hashes_unique(upsert(rows, record)),
{
    let after = upsert(rows, record);
    if !holds_hash(rows, record.txhash) {
        assert(after[rows.len() as int].txhash == record.txhash);
    }
    assert forall|h: Seq<char>| holds_hash(rows, h) implies holds_hash(after, h) by {
        let i = choose|i: int| 0 <= i < rows.len() && (#[trigger] rows[i]).txhash == h;
        assert(after[i].txhash == h);
    }
    if hashes_unique(rows) {
        assert forall|i: int, j: int|
            0 <= i < after.len() && 0 <= j < after.len() && i != j implies (#[trigger] after[i]).txhash
            != (#[trigger] after[j]).txhash by {
            if i < rows.len() && j < rows.len() {
                assert(rows[i].txhash != rows[j].txhash);
            } else if i < rows.len() {
                assert(rows[i].txhash == after[i].txhash);
            } else {
                assert(rows[j].txhash == after[j].txhash);
            }
        }
    }
}

/// A run of upserts keeps every row, in place, keeps the hashes unique, and
/// leaves the hash of each of its records present.
pub proof fn upsert_all_keeps_rows(rows: Seq<TransferView>, records: Seq<TransferView>)
    ensures
        rows.len() <= upsert_all(rows, records).len(),
        forall|i: int| 0 <= i < rows.len() ==> upsert_all(rows, records)[i] == rows[i],
        forall|h: Seq<char>| holds_hash(rows, h) ==> holds_hash(upsert_all(rows, records), h),
        forall|k: int|
            0 <= k < records.len() ==> holds_hash(
                upsert_all(rows, records),
                (#[trigger] records[k]).txhash,
            ),
        hashes_unique(rows) ==> hashes_unique(upsert_all(rows, records)),
    decreases records.len(),
{
    if records.len() > 0 {
        let before = upsert_all(rows, records.drop_last());
        upsert_all_keeps_rows(rows, records.drop_last());
        upsert_keeps_rows(before, records.last());
        assert forall|k: int| 0 <= k < records.len() implies holds_hash(
            upsert_all(rows, records),
            (#[trigger] records[k]).txhash,
        ) by {
            if k < records.len() - 1 {
                assert(records.drop_last()[k] == records[k]);
            }
        }
    }
}

/// Upserts of records whose hashes are all present change nothing.
pub proof fn upsert_all_of_present(rows: Seq<TransferView>, records: Seq<TransferView>)
    requires
        forall|k: int| 0 <= k < records.len() ==> holds_hash(rows, (#[trigger] records[k]).txhash),
    ensures
        upsert_all(rows, records) == rows,
    decreases records.len(),
{
    if records.len() > 0 {
        assert forall|k: int| 0 <= k < records.drop_last().len() implies holds_hash(
            rows,
            (#[trigger] records.drop_last()[k]).txhash,
        ) by {
            assert(records.drop_last()[k] == records[k]);
        }
        upsert_all_of_present(rows, records.drop_last());
        assert(holds_hash(rows, records[records.len() - 1].txhash));
    }
}

/// Records are unique by hash: starting from rows with unique hashes, the
/// rows after any run of upserts have unique hashes.
pub proof fn stored_hashes_stay_unique(rows: Seq<TransferView>, records: Seq<TransferView>)
    requires
        hashes_unique(rows),
    ensures
        hashes_unique(upsert_all(rows, records)),
{
    upsert_all_keeps_rows(rows, records);
}

/// Persisting the same records a second time changes nothing: no row is
/// added and none is altered.
pub proof fn second_delivery_changes_nothing(rows: Seq<TransferView>, records: Seq<TransferView>)
    ensures
        upsert_all(upsert_all(rows, records), records) == upsert_all(rows, records),
{
    upsert_all_keeps_rows(rows, records);
    upsert_all_of_present(upsert_all(rows, records), records);
}

/// Delivering a block a second time adds no record: the rows after both
/// deliveries are the rows after the first.
pub proof fn redelivered_block_adds_nothing(
    rows: Seq<TransferView>,
    height: int,
    txs: Seq<Option<TxView>>,
)
    ensures
        upsert_all(upsert_all(rows, records_of(height, txs)), records_of(height, txs))
            == upsert_all(rows, records_of(height, txs)),
{
    second_delivery_changes_nothing(rows, records_of(height, txs));
}

} // verus!
