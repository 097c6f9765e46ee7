use vstd::prelude::*;

verus! {

/// One transaction of a block, with every amount in satoshis.
pub struct TxData {
    pub is_coinbase: bool,
    /// For each input, the value of the output it spends, or `None` where
    /// the node could not resolve that output (pruned node, mempool race).
    pub inputs: Vec<Option<u64>>,
    /// The value of each output.
    pub outputs: Vec<u64>,
}

/// A fetched block reduced to what the metrics are derived from.
pub struct BlockData {
    pub height: u64,
    pub size_bytes: u64,
    pub txs: Vec<TxData>,
}

/// The metrics that depend on the block alone.
#[derive(Clone, Copy, Debug, PartialEq, Eq, Structural)]
pub struct BlockMetrics {
    pub block_height: u64,
    /// Sum of all output values of all transactions, in satoshis.
    pub tx_volume_sat: u64,
    pub transaction_count: u64,
    pub block_size_bytes: u64,
    /// Sum of the per-transaction fees, in satoshis.
    pub total_fees_sat: u64,
    /// Total fees are zero while the block holds more than one transaction:
    /// suspicious, but still recorded.
    pub fee_anomaly: bool,
}

#[derive(Clone, Copy, Debug, PartialEq, Eq, Structural)]
pub enum ExtractError {
    /// A sum of amounts does not fit in 64 bits.
    AmountOverflow,
}

/// Sum of a sequence of amounts.
pub open spec fn sum_sat(s: Seq<u64>) -> int
    decreases s.len(),
{
    if s.len() == 0 {
        0
    } else {
        sum_sat(s.drop_last()) + s.last()
    }
}

/// Sum of the resolved input values; an unresolved input counts as zero.
pub open spec fn resolved_sum(s: Seq<Option<u64>>) -> int
    decreases s.len(),
{
    if s.len() == 0 {
        0
    } else {
        resolved_sum(s.drop_last()) + match s.last() {
            Some(v) => v as int,
            None => 0,
        }
    }
}

/// The fee of one transaction: resolved inputs minus outputs, never below
/// zero; a coinbase pays none.
pub open spec fn fee_of(tx: TxData) -> int {
    if tx.is_coinbase {
        0
    } else if resolved_sum(tx.inputs@) > sum_sat(tx.outputs@) {
        resolved_sum(tx.inputs@) - sum_sat(tx.outputs@)
    } else {
        0
    }
}

/// Total value of all outputs of the transactions.
pub open spec fn block_volume(txs: Seq<TxData>) -> int
    decreases txs.len(),
{
    if txs.len() == 0 {
        0
    } else {
        block_volume(txs.drop_last()) + sum_sat(txs.last().outputs@)
    }
}

/// Total of the per-transaction fees.
pub open spec fn block_fees(txs: Seq<TxData>) -> int
    decreases txs.len(),
{
    if txs.len() == 0 {
        0
    } else {
        block_fees(txs.drop_last()) + fee_of(txs.last())
    }
}

/// Every sum that extraction forms fits in a `u64`.
pub open spec fn amounts_fit(txs: Seq<TxData>) -> bool {
    &&& block_volume(txs) <= u64::MAX
    &&& block_fees(txs) <= u64::MAX
    &&& forall|i: int|
        0 <= i < txs.len() && !(#[trigger] txs[i]).is_coinbase ==> resolved_sum(
            txs[i].inputs@,
        ) <= u64::MAX
}

/// The metrics that `extract_metrics` derives from a block whose amounts fit.
pub open spec fn metrics_of(b: BlockData) -> BlockMetrics {
    BlockMetrics {
        block_height: b.height,
        tx_volume_sat: block_volume(b.txs@) as u64,
        transaction_count: b.txs@.len() as u64,
        block_size_bytes: b.size_bytes,
        total_fees_sat: block_fees(b.txs@) as u64,
        fee_anomaly: block_fees(b.txs@) == 0 && b.txs@.len() > 1,
    }
}

pub proof fn lemma_sum_sat_prefix(s: Seq<u64>, j: int)
    requires
        0 <= j <= s.len(),
    ensures
        0 <= sum_sat(s.take(j)) <= sum_sat(s),
    decreases s.len(),
{
    if s.len() > 0 {
        if j == s.len() {
            assert(s.take(j) =~= s);
            lemma_sum_sat_prefix(s.drop_last(), s.len() - 1);
            assert(s.drop_last().take(s.len() - 1) =~= s.drop_last());
        } else {
            lemma_sum_sat_prefix(s.drop_last(), j);
            assert(s.drop_last().take(j) =~= s.take(j));
        }
    }
}

pub proof fn lemma_resolved_sum_prefix(s: Seq<Option<u64>>, j: int)
    requires
        0 <= j <= s.len(),
    ensures
        0 <= resolved_sum(s.take(j)) <= resolved_sum(s),
    decreases s.len(),
{
    if s.len() > 0 {
        if j == s.len() {
            assert(s.take(j) =~= s);
            lemma_resolved_sum_prefix(s.drop_last(), s.len() - 1);
            assert(s.drop_last().take(s.len() - 1) =~= s.drop_last());
        } else {
            lemma_resolved_sum_prefix(s.drop_last(), j);
            assert(s.drop_last().take(j) =~= s.take(j));
        }
    }
}

pub proof fn lemma_block_volume_prefix(txs: Seq<TxData>, j: int)
    requires
        0 <= j <= txs.len(),
    ensures
        0 <= block_volume(txs.take(j)) <= block_volume(txs),
    decreases txs.len(),
{
    if txs.len() > 0 {
        lemma_sum_sat_prefix(txs.last().outputs@, txs.last().outputs@.len() as int);
        if j == txs.len() {
            assert(txs.take(j) =~= txs);
            lemma_block_volume_prefix(txs.drop_last(), txs.len() - 1);
            assert(txs.drop_last().take(txs.len() - 1) =~= txs.drop_last());
        } else {
            lemma_block_volume_prefix(txs.drop_last(), j);
            assert(txs.drop_last().take(j) =~= txs.take(j));
        }
    }
}

pub proof fn lemma_fee_nonneg(tx: TxData)
    ensures
        fee_of(tx) >= 0,
{
}

pub proof fn lemma_block_fees_prefix(txs: Seq<TxData>, j: int)
    requires
        0 <= j <= txs.len(),
    ensures
        0 <= block_fees(txs.take(j)) <= block_fees(txs),
    decreases txs.len(),
{
    if txs.len() > 0 {
        lemma_fee_nonneg(txs.last());
        if j == txs.len() {
            assert(txs.take(j) =~= txs);
            lemma_block_fees_prefix(txs.drop_last(), txs.len() - 1);
            assert(txs.drop_last().take(txs.len() - 1) =~= txs.drop_last());
        } else {
            lemma_block_fees_prefix(txs.drop_last(), j);
            assert(txs.drop_last().take(j) =~= txs.take(j));
        }
    }
}

/// A block whose transactions are all coinbase transactions pays no fees.
pub proof fn lemma_coinbase_only_block_has_no_fees(txs: Seq<TxData>)
    requires
        forall|i: int| 0 <= i < txs.len() ==> (#[trigger] txs[i]).is_coinbase,
    ensures
        block_fees(txs) == 0,
    decreases txs.len(),
{
    if txs.len() > 0 {
        assert(txs.last() == txs[txs.len() - 1]);
        let rest = txs.drop_last();
        assert forall|i: int| 0 <= i < rest.len() implies (#[trigger] rest[i]).is_coinbase by {
            assert(rest[i] == txs[i]);
        }
        lemma_coinbase_only_block_has_no_fees(rest);
    }
}

/// Where every input resolves, the resolved sum is the sum of the input values.
pub proof fn lemma_resolved_sum_all_known(s: Seq<Option<u64>>)
    requires
        forall|i: int| 0 <= i < s.len() ==> (#[trigger] s[i]).is_some(),
    ensures
        resolved_sum(s) == sum_sat(s.map_values(|o: Option<u64>| o.unwrap())),
    decreases s.len(),
{
    if s.len() > 0 {
        let f = |o: Option<u64>| o.unwrap();
        assert(s.map_values(f).drop_last() =~= s.drop_last().map_values(f));
        assert(s.last() == s[s.len() - 1]);
        lemma_resolved_sum_all_known(s.drop_last());
    }
}

/// A non-coinbase transaction whose inputs all resolve and cover its outputs
/// pays exactly the input values minus the output values, which is not negative.
pub proof fn lemma_fee_of_fully_resolved(tx: TxData)
    requires
        !tx.is_coinbase,
        forall|i: int| 0 <= i < tx.inputs@.len() ==> (#[trigger] tx.inputs@[i]).is_some(),
        sum_sat(tx.inputs@.map_values(|o: Option<u64>| o.unwrap())) >= sum_sat(tx.outputs@),
    ensures
        fee_of(tx) == sum_sat(tx.inputs@.map_values(|o: Option<u64>| o.unwrap())) - sum_sat(
            tx.outputs@,
        ),
        fee_of(tx) >= 0,
{
    lemma_resolved_sum_all_known(tx.inputs@);
}

/// A transaction none of whose inputs resolves contributes no fee.
pub proof fn lemma_fee_of_unresolved(tx: TxData)
    requires
        forall|i: int| 0 <= i < tx.inputs@.len() ==> (#[trigger] tx.inputs@[i]).is_none(),
    ensures
        fee_of(tx) == 0,
{
    lemma_resolved_sum_none(tx.inputs@);
    lemma_sum_sat_prefix(tx.outputs@, 0);
}

proof fn lemma_resolved_sum_none(s: Seq<Option<u64>>)
    requires
        forall|i: int| 0 <= i < s.len() ==> (#[trigger] s[i]).is_none(),
    ensures
        resolved_sum(s) == 0,
    decreases s.len(),
{
    if s.len() > 0 {
        assert(s.last() == s[s.len() - 1]);
        let rest = s.drop_last();
        assert forall|i: int| 0 <= i < rest.len() implies (#[trigger] rest[i]).is_none() by {
            assert(rest[i] == s[i]);
        }
        lemma_resolved_sum_none(rest);
    }
}

/// Sum of the output values, or `None` where it does not fit in a `u64`.
pub fn sum_outputs(outs: &Vec<u64>) -> (r: Option<u64>)
    ensures
        r.is_none() <==> sum_sat(outs@) > u64::MAX,
        r matches Some(v) ==> v == sum_sat(outs@),
{
    let mut acc: u64 = 0;
    let mut i: usize = 0;
    while i < outs.len()
        invariant
            i <= outs@.len(),
            acc == sum_sat(outs@.take(i as int)),
        decreases outs@.len() - i,
    {
        assert(outs@.take(i as int + 1).drop_last() =~= outs@.take(i as int));
        match acc.checked_add(outs[i]) {
            Some(v) => {
                acc = v;
            },
            None => {
                proof {
                    lemma_sum_sat_prefix(outs@, i as int + 1);
                }
                return None;
            },
        }
        i = i + 1;
    }
    assert(outs@.take(i as int) =~= outs@);
    Some(acc)
}

/// Sum of the resolved input values, or `None` where it does not fit in a `u64`.
pub fn sum_resolved_inputs(ins: &Vec<Option<u64>>) -> (r: Option<u64>)
    ensures
        r.is_none() <==> resolved_sum(ins@) > u64::MAX,
        r matches Some(v) ==> v == resolved_sum(ins@),
{
    let mut acc: u64 = 0;
    let mut i: usize = 0;
    while i < ins.len()
        invariant
            i <= ins@.len(),
            acc == resolved_sum(ins@.take(i as int)),
        decreases ins@.len() - i,
    {
        assert(ins@.take(i as int + 1).drop_last() =~= ins@.take(i as int));
        let v: u64 = match ins[i] {
            Some(v) => v,
            None => 0,
        };
        match acc.checked_add(v) {
            Some(s) => {
                acc = s;
            },
            None => {
                proof {
                    lemma_resolved_sum_prefix(ins@, i as int + 1);
                }
                return None;
            },
        }
        i = i + 1;
    }
    assert(ins@.take(i as int) =~= ins@);
    Some(acc)
}

/// Fee of one transaction, or `None` where its input or output sum does
/// not fit in a `u64`.
pub fn transaction_fee(tx: &TxData) -> (r: Option<u64>)
    ensures
        r.is_none() <==> (sum_sat(tx.outputs@) > u64::MAX || (!tx.is_coinbase && resolved_sum(
            tx.inputs@,
        ) > u64::MAX)),
        r matches Some(v) ==> v == fee_of(*tx),
{
    let out = sum_outputs(&tx.outputs);
    match out {
        None => None,
        Some(out) => {
            if tx.is_coinbase {
                Some(0)
            } else {
                match sum_resolved_inputs(&tx.inputs) {
                    None => None,
                    Some(ins) => {
                        if ins > out {
                            Some(ins - out)
                        } else {
                            Some(0)
                        }
                    },
                }
            }
        },
    }
}

/// Derives volume, fee total, count, size and the zero-fee flag from a block.
/// Unresolved inputs count as zero; it fails only where an amount sum does
/// not fit in a `u64`.
pub fn extract_metrics(block: &BlockData) -> (r: Result<BlockMetrics, ExtractError>)
    ensures
        r.is_err() <==> !amounts_fit(block.txs@),
        r matches Ok(m) ==> m == metrics_of(*block),
{
    let mut volume: u64 = 0;
    let mut fees: u64 = 0;
    let mut i: usize = 0;
    while i < block.txs.len()
        invariant
            i <= block.txs@.len(),
            volume == block_volume(block.txs@.take(i as int)),
            fees == block_fees(block.txs@.take(i as int)),
            forall|k: int|
                0 <= k < i && !(#[trigger] block.txs@[k]).is_coinbase ==> resolved_sum(
                    block.txs@[k].inputs@,
                ) <= u64::MAX,
        decreases block.txs@.len() - i,
    {
        let ghost next = block.txs@.take(i as int + 1);
        assert(next.drop_last() =~= block.txs@.take(i as int));
        assert(next.last() == block.txs@[i as int]);
        let tx = &block.txs[i];
        let out = sum_outputs(&tx.outputs);
        let fee = transaction_fee(tx);
        match (out, fee) {
            (Some(o), Some(f)) => {
                match (volume.checked_add(o), fees.checked_add(f)) {
                    (Some(v), Some(t)) => {
                        volume = v;
                        fees = t;
                    },
                    _ => {
                        proof {
                            assert(block_volume(next) == volume + o);
                            assert(block_fees(next) == fees + f);
                            lemma_block_volume_prefix(block.txs@, i as int + 1);
                            lemma_block_fees_prefix(block.txs@, i as int + 1);
                            assert(block_volume(block.txs@) > u64::MAX || block_fees(block.txs@) > u64::MAX);
                        }
                        return Err(ExtractError::AmountOverflow);
                    },
                }
            },
            _ => {
                proof {
                    lemma_block_volume_prefix(block.txs@, i as int + 1);
                    lemma_block_volume_prefix(block.txs@, i as int);
                    lemma_sum_sat_prefix(tx.outputs@, tx.outputs@.len() as int);
                    assert(block_volume(next) == volume + sum_sat(tx.outputs@));
                    if !(sum_sat(tx.outputs@) > u64::MAX) {
                        assert(!block.txs@[i as int].is_coinbase && resolved_sum(
                            block.txs@[i as int].inputs@,
                        ) > u64::MAX);
                    } else {
                        assert(block_volume(block.txs@) > u64::MAX);
                    }
                }
                return Err(ExtractError::AmountOverflow);
            },
        }
        i = i + 1;
    }
    assert(block.txs@.take(i as int) =~= block.txs@);
    let count = block.txs.len() as u64;
    Ok(
        BlockMetrics {
            block_height: block.height,
            tx_volume_sat: volume,
            transaction_count: count,
            block_size_bytes: block.size_bytes,
            total_fees_sat: fees,
            fee_anomaly: fees == 0 && count > 1,
        },
    )
}

} // verus!
