//! The stream processor's decisions: which transactions of a block are
//! transfers, and which records and which checkpoint a block gives.

use vstd::prelude::*;
use crate::checkpoint::checkpoint_at;
use crate::checkpoint::checkpoint_due;
use crate::model::TransferView;
use crate::model::TxdataModel;
use crate::model::record_views;

verus! {

/// The tag that marks a transaction's code as a transfer.
pub open spec fn transfer_tag() -> Seq<char> {
    "tx_transfer.wasm"@
}

/// The variants of a decoded transaction.
#[derive(Clone, Copy, Debug, PartialEq, Eq, Structural)]
pub enum TxKind {
    Raw,
    Wrapper,
    Protocol,
    Decrypted,
}

/// A transfer payload as plain values.
pub struct PayloadView {
    pub source: Seq<char>,
    pub destination: Seq<char>,
    pub token: Seq<char>,
    pub amount: Seq<char>,
}

/// What a transfer moves: from whom, to whom, which token and how much, the
/// amount as decimal text.
#[derive(Debug, Clone)]
pub struct TransferPayload {
    pub source: String,
    pub destination: String,
    pub token: String,
    pub amount: String,
}

impl View for TransferPayload {
    type V = PayloadView;

    open spec fn view(&self) -> PayloadView {
        PayloadView {
            source: self.source@,
            destination: self.destination@,
            token: self.token@,
            amount: self.amount@,
        }
    }
}

/// A section as plain values.
pub enum SectionView {
    Code { tag: Option<Seq<char>> },
    Data { transfer: Option<PayloadView> },
    Other,
}

/// One section of a decoded transaction, as far as the processor reads it.
#[derive(Debug, Clone)]
pub enum Section {
    /// A code section, with its classification tag where it has one.
    Code { tag: Option<String> },
    /// A data section, with the transfer payload that its bytes decode to,
    /// where they decode to one.
    Data { transfer: Option<TransferPayload> },
    /// Any other section.
    Other,
}

impl View for Section {
    type V = SectionView;

    open spec fn view(&self) -> SectionView {
        match self {
            Section::Code { tag } => SectionView::Code {
                tag: match tag {
                    Some(t) => Some(t@),
                    None => None,
                },
            },
            Section::Data { transfer } => SectionView::Data {
                transfer: match transfer {
                    Some(p) => Some(p@),
                    None => None,
                },
            },
            Section::Other => SectionView::Other,
        }
    }
}

/// A decoded transaction as plain values.
pub struct TxView {
    pub kind: TxKind,
    pub sections: Seq<SectionView>,
    pub txhash: Seq<char>,
    pub timestamp: Seq<char>,
}

/// A decoded transaction: its variant, its sections in order, the hash that
/// identifies it and the timestamp it carries.
#[derive(Debug, Clone)]
pub struct DecodedTx {
    pub kind: TxKind,
    pub sections: Vec<Section>,
    pub txhash: String,
    pub timestamp: String,
}

impl View for DecodedTx {
    type V = TxView;

    open spec fn view(&self) -> TxView {
        TxView {
            kind: self.kind,
            sections: Seq::new(self.sections@.len(), |i: int| self.sections@[i]@),
            txhash: self.txhash@,
            timestamp: self.timestamp@,
        }
    }
}

/// What the processor makes of one transaction.
#[derive(Clone, Copy, Debug, PartialEq, Eq, Structural)]
pub enum TxClass {
    /// The bytes did not decode, or a transfer's payload is missing or does
    /// not decode: skipped.
    Malformed,
    /// A decoded transaction that is no transfer: discarded.
    Ignored(TxKind),
    /// A decrypted transaction tagged as a transfer, with its payload.
    Transfer,
}

impl TxView {
    /// The classification tag: that of the first section where it is a code
    /// section with a tag, else none.
    pub open spec fn tag(self) -> Option<Seq<char>> {
        if self.sections.len() > 0 {
            match self.sections[0] {
                SectionView::Code { tag } => tag,
                _ => None,
            }
        } else {
            None
        }
    }

    /// Whether the transaction is decrypted and tagged as a transfer.
    pub open spec fn is_tagged_transfer(self) -> bool {
        self.kind == TxKind::Decrypted && self.tag() == Some(transfer_tag())
    }

    /// The transfer payload: that of the second section where it is a data
    /// section that decodes to one, else none.
    pub open spec fn payload(self) -> Option<PayloadView> {
        if self.sections.len() > 1 {
            match self.sections[1] {
                SectionView::Data { transfer } => transfer,
                _ => None,
            }
        } else {
            None
        }
    }

    /// The record that the transaction gives in a block of this height.
    pub open spec fn record(self, height: int, payload: PayloadView) -> TransferView {
        TransferView {
            txhash: self.txhash,
            height,
            source: payload.source,
            destination: payload.destination,
            token: payload.token,
            amount: payload.amount,
            timestamp: self.timestamp,
        }
    }
}

/// What the processor makes of one transaction of a block, `None` standing
/// for bytes that did not decode.
pub open spec fn class_of(tx: Option<TxView>) -> TxClass {
    match tx {
        None => TxClass::Malformed,
        Some(t) => if !t.is_tagged_transfer() {
            TxClass::Ignored(t.kind)
        } else if t.payload().is_some() {
            TxClass::Transfer
        } else {
            TxClass::Malformed
        },
    }
}

/// The record to persist for one transaction of a block of this height: one
/// for a transfer, none for anything else.
pub open spec fn record_of(height: int, tx: Option<TxView>) -> Option<TransferView> {
    match tx {
        Some(t) => if t.is_tagged_transfer() && t.payload().is_some() {
            Some(t.record(height, t.payload().unwrap()))
        } else {
            None
        },
        None => None,
    }
}

/// The records to persist for the transactions of a block of this height, in
/// the order of the transactions.
pub open spec fn records_of(height: int, txs: Seq<Option<TxView>>) -> Seq<TransferView>
    decreases txs.len(),
{
    if txs.len() == 0 {
        Seq::empty()
    } else {
        let before = records_of(height, txs.drop_last());
        match record_of(height, txs.last()) {
            Some(r) => before.push(r),
            None => before,
        }
    }
}

/// Every record of a block carries the block's height, and a block gives at
/// most one record per transaction.
pub proof fn records_carry_block_height(height: int, txs: Seq<Option<TxView>>)
    ensures
        records_of(height, txs).len() <= txs.len(),
        forall|k: int|
            0 <= k < records_of(height, txs).len() ==> (#[trigger] records_of(
                height,
                txs,
            )[k]).height == height,
    decreases txs.len(),
{
    if txs.len() > 0 {
        records_carry_block_height(height, txs.drop_last());
    }
}

/// The view of a transaction that may not have decoded.
pub open spec fn input_view(tx: Option<DecodedTx>) -> Option<TxView> {
    match tx {
        Some(t) => Some(t@),
        None => None,
    }
}

/// A block as plain values.
pub struct BlockView {
    pub height: int,
    pub txs: Seq<Option<TxView>>,
}

/// A fetched block: its height and its transactions in order, each decoded
/// or, where its bytes did not decode, `None`.
#[derive(Debug, Clone)]
pub struct Block {
    pub height: i64,
    pub txs: Vec<Option<DecodedTx>>,
}

impl View for Block {
    type V = BlockView;

    open spec fn view(&self) -> BlockView {
        BlockView {
            height: self.height as int,
            txs: Seq::new(self.txs@.len(), |i: int| input_view(self.txs@[i])),
        }
    }
}

/// What processing a block asks of storage.
#[derive(Debug)]
pub struct BlockActions {
    /// The checkpoint to write first, if one is due.
    pub checkpoint: Option<i64>,
    /// The records to persist, in order.
    pub records: Vec<TxdataModel>,
}

/// Whether the text is the transfer tag.
fn is_transfer_tag(tag: &String) -> (r: bool)
    ensures
        r == (tag@ == transfer_tag()),
{
    let marker: String = "tx_transfer.wasm".to_owned();
    *tag == marker
}

impl DecodedTx {
    /// Whether the transaction is decrypted and its first section is a code
    /// section tagged as a transfer.
    pub fn is_tagged_transfer(&self) -> (r: bool)
        ensures
            r == self@.is_tagged_transfer(),
    {
        if self.kind != TxKind::Decrypted {
            return false;
        }
        if self.sections.len() == 0 {
            return false;
        }
        match &self.sections[0] {
            Section::Code { tag: Some(t) } => is_transfer_tag(t),
            _ => false,
        }
    }

    /// The transfer payload in the second section, if that is a data section
    /// that decodes to one.
    pub fn payload(&self) -> (p: Option<&TransferPayload>)
        ensures
            p.is_some() == self@.payload().is_some(),
            p matches Some(found) ==> self@.payload() == Some(found@),
    {
        if self.sections.len() < 2 {
            return None;
        }
        match &self.sections[1] {
            Section::Data { transfer: Some(found) } => Some(found),
            _ => None,
        }
    }
}

/// Classifies one transaction of a block: a decrypted transaction tagged as
/// a transfer and carrying a payload is a transfer; any other decoded
/// transaction is ignored; bytes that did not decode, and a tagged transfer
/// without a payload that decodes, are malformed.
pub fn classify(tx: &Option<DecodedTx>) -> (class: TxClass)
    ensures
        class == class_of(input_view(*tx)),
{
    match tx {
        None => TxClass::Malformed,
        Some(t) => {
            if !t.is_tagged_transfer() {
                TxClass::Ignored(t.kind)
            } else if t.payload().is_some() {
                TxClass::Transfer
            } else {
                TxClass::Malformed
            }
        },
    }
}

/// The record to persist for one transaction of a block of this height: for
/// a transfer, its hash, the block's height, the payload's four fields and
/// its timestamp; for anything else none.
pub fn transfer_record(height: i64, tx: &Option<DecodedTx>) -> (record: Option<TxdataModel>)
    ensures
        record.is_some() == record_of(height as int, input_view(*tx)).is_some(),
        record matches Some(r) ==> record_of(height as int, input_view(*tx)) == Some(r@),
{
    match tx {
        None => None,
        Some(t) => {
            if !t.is_tagged_transfer() {
                return None;
            }
            match t.payload() {
                None => None,
                Some(p) => Some(
                    TxdataModel {
                        txhash: t.txhash.clone(),
                        height,
                        source: p.source.clone(),
                        destination: p.destination.clone(),
                        token: p.token.clone(),
                        amount: p.amount.clone(),
                        timestamp: t.timestamp.clone(),
                    },
                ),
            }
        },
    }
}

/// Processes one block: the checkpoint is due at every hundredth height, and
/// the records are those of the block's transfers, in the order of its
/// transactions. A transaction that is malformed or no transfer gives no
/// record and does not stop the block.
pub fn process_block(block: &Block) -> (actions: BlockActions)
    ensures
        actions.checkpoint.is_some() == checkpoint_at(block@.height).is_some(),
        actions.checkpoint matches Some(value) ==> checkpoint_at(block@.height) == Some(
            value as int,
        ),
        record_views(actions.records@) == records_of(block@.height, block@.txs),
{
    let checkpoint: Option<i64> = checkpoint_due(block.height);
    let mut records: Vec<TxdataModel> = Vec::new();
    let n: usize = block.txs.len();
    let mut i: usize = 0;
    while i < n
        invariant
            n == block.txs@.len(),
            i <= n,
            record_views(records@) == records_of(block@.height, block@.txs.subrange(0, i as int)),
        decreases n - i,
    {
        let ghost before = records@;
        let ghost upto = block@.txs.subrange(0, i as int + 1);
        assert(upto.drop_last() =~= block@.txs.subrange(0, i as int));
        assert(upto.last() == input_view(block.txs@[i as int]));
        match transfer_record(block.height, &block.txs[i]) {
            Some(r) => {
                records.push(r);
                assert(record_views(records@) =~= record_views(before).push(r@));
            },
            None => {},
        }
        i = i + 1;
    }
    assert(block@.txs.subrange(0, n as int) =~= block@.txs);
    BlockActions { checkpoint, records }
}

} // verus!
