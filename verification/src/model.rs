//! The rows that storage holds.

use vstd::prelude::*;

verus! {

/// The key under which storage keeps the checkpoint.
pub open spec fn checkpoint_key() -> Seq<char> {
    "highest_indexed"@
}

/// A transfer record as plain values.
pub struct TransferView {
    pub txhash: Seq<char>,
    pub height: int,
    pub source: Seq<char>,
    pub destination: Seq<char>,
    pub token: Seq<char>,
    pub amount: Seq<char>,
    pub timestamp: Seq<char>,
}

/// One transfer as storage holds it. `txhash` identifies the record: storage
/// holds at most one record per hash.
#[derive(Debug, Clone)]
pub struct TxdataModel {
    pub txhash: String,
    pub height: i64,
    pub source: String,
    pub destination: String,
    pub token: String,
    pub amount: String,
    pub timestamp: String,
}

impl View for TxdataModel {
    type V = TransferView;

    open spec fn view(&self) -> TransferView {
        TransferView {
            txhash: self.txhash@,
            height: self.height as int,
            source: self.source@,
            destination: self.destination@,
            token: self.token@,
            amount: self.amount@,
            timestamp: self.timestamp@,
        }
    }
}

/// The views of a list of records, in order.
pub open spec fn record_views(records: Seq<TxdataModel>) -> Seq<TransferView> {
    Seq::new(records.len(), |i: int| records[i]@)
}

/// One configuration row of storage: a key and, where set, its value.
#[derive(Debug, Clone)]
pub struct ConfigurationModel {
    pub key: String,
    pub value: Option<i64>,
}

/// The checkpoint that a configuration row stands for: its value, or 0 where
/// the row or its value is absent.
pub open spec fn checkpoint_of(row: Option<ConfigurationModel>) -> int {
    match row {
        Some(r) => match r.value {
            Some(v) => v as int,
            None => 0,
        },
        None => 0,
    }
}

/// The name of the checkpoint's row.
pub fn checkpoint_key_name() -> (key: String)
    ensures
        key@ == checkpoint_key(),
{
    "highest_indexed".to_owned()
}

/// Reads the checkpoint from the row that storage gave for it: the row's
/// value, or 0 where storage holds no row or no value.
pub fn highest_indexed(row: &Option<ConfigurationModel>) -> (height: i64)
    ensures
        height == checkpoint_of(*row),
{
    match row {
        Some(r) => match r.value {
            Some(v) => v,
            None => 0,
        },
        None => 0,
    }
}

} // verus!
