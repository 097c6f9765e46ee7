use vstd::prelude::*;
use crate::extract::BlockMetrics;
use crate::metric::MetricName;

verus! {

/// Raw hashes per second in one micro-exahash per second.
pub const HASHES_PER_MICRO_EH: u128 = 1_000_000_000_000;

/// A market quote: price in USD and change over 24 hours in percent, both
/// fixed-point: a field named `..._micros` holds the value times one million.
#[derive(Clone, Copy, Debug, PartialEq, Eq, Structural)]
pub struct Quote {
    pub price_micros: i128,
    pub change_24h_micros: i128,
}

/// Chain-wide figures sampled beside the block.
#[derive(Clone, Copy, Debug, PartialEq, Eq, Structural)]
pub struct ChainStats {
    pub difficulty_micros: i128,
    /// Network hash rate over the trailing window, in hashes per second.
    pub network_hash_ps: u128,
    /// Number of transactions pending in the mempool.
    pub mempool_size: u64,
}

/// One sample of every metric; immutable once committed.
#[derive(Clone, Copy, Debug, PartialEq, Eq, Structural)]
pub struct Snapshot {
    pub block_height: u64,
    pub tx_volume_sat: u64,
    pub market_price_micros: i128,
    pub price_change_24h_micros: i128,
    pub transaction_count: u64,
    pub block_size_bytes: u64,
    pub total_fees_sat: u64,
    pub difficulty_micros: i128,
    pub hash_rate_micro_ehs: i128,
    pub mempool_size: u64,
}

/// The snapshot that `assemble` builds.
pub open spec fn snapshot_of(m: BlockMetrics, c: ChainStats, q: Quote) -> Snapshot {
    Snapshot {
        block_height: m.block_height,
        tx_volume_sat: m.tx_volume_sat,
        market_price_micros: q.price_micros,
        price_change_24h_micros: q.change_24h_micros,
        transaction_count: m.transaction_count,
        block_size_bytes: m.block_size_bytes,
        total_fees_sat: m.total_fees_sat,
        difficulty_micros: c.difficulty_micros,
        hash_rate_micro_ehs: (c.network_hash_ps / HASHES_PER_MICRO_EH) as i128,
        mempool_size: c.mempool_size,
    }
}

/// A snapshot field read as a number in the field's own unit.
pub open spec fn metric_value(s: Snapshot, m: MetricName) -> i128 {
    match m {
        MetricName::BlockHeight => s.block_height as i128,
        MetricName::TxVolume => s.tx_volume_sat as i128,
        MetricName::MarketPrice => s.market_price_micros,
        MetricName::PriceChange24h => s.price_change_24h_micros,
        MetricName::TransactionCount => s.transaction_count as i128,
        MetricName::BlockSize => s.block_size_bytes as i128,
        MetricName::TotalFees => s.total_fees_sat as i128,
        MetricName::Difficulty => s.difficulty_micros,
        MetricName::HashRate => s.hash_rate_micro_ehs,
        MetricName::MempoolSize => s.mempool_size as i128,
    }
}

/// Converts a hash rate in hashes per second to micro-exahashes per second,
/// rounding down.
pub fn hash_rate_micro_ehs(hashes_per_sec: u128) -> (r: i128)
    ensures
        r == hashes_per_sec / HASHES_PER_MICRO_EH,
{
    (hashes_per_sec / HASHES_PER_MICRO_EH) as i128
}

impl Snapshot {
    /// Combines the block metrics, the chain figures and the quote of one cycle.
    pub fn assemble(m: &BlockMetrics, c: &ChainStats, q: &Quote) -> (r: Snapshot)
        ensures
            r == snapshot_of(*m, *c, *q),
    {
        Snapshot {
            block_height: m.block_height,
            tx_volume_sat: m.tx_volume_sat,
            market_price_micros: q.price_micros,
            price_change_24h_micros: q.change_24h_micros,
            transaction_count: m.transaction_count,
            block_size_bytes: m.block_size_bytes,
            total_fees_sat: m.total_fees_sat,
            difficulty_micros: c.difficulty_micros,
            hash_rate_micro_ehs: hash_rate_micro_ehs(c.network_hash_ps),
            mempool_size: c.mempool_size,
        }
    }

    /// The value of one metric of this snapshot.
    pub fn value(&self, m: MetricName) -> (r: i128)
        ensures
            r == metric_value(*self, m),
    {
        match m {
            MetricName::BlockHeight => self.block_height as i128,
            MetricName::TxVolume => self.tx_volume_sat as i128,
            MetricName::MarketPrice => self.market_price_micros,
            MetricName::PriceChange24h => self.price_change_24h_micros,
            MetricName::TransactionCount => self.transaction_count as i128,
            MetricName::BlockSize => self.block_size_bytes as i128,
            MetricName::TotalFees => self.total_fees_sat as i128,
            MetricName::Difficulty => self.difficulty_micros,
            MetricName::HashRate => self.hash_rate_micro_ehs,
            MetricName::MempoolSize => self.mempool_size as i128,
        }
    }
}

} // verus!
