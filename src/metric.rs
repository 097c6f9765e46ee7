use vstd::prelude::*;

verus! {

/// The fixed set of metric fields that a snapshot holds and that the
/// historical query may be asked for.
#[derive(Clone, Copy, Debug, PartialEq, Eq, Structural)]
pub enum MetricName {
    BlockHeight,
    TxVolume,
    MarketPrice,
    PriceChange24h,
    TransactionCount,
    BlockSize,
    TotalFees,
    Difficulty,
    HashRate,
    MempoolSize,
}

#[derive(Clone, Copy, Debug, PartialEq, Eq, Structural)]
pub enum QueryError {
    /// The name is not one of the known metric fields.
    UnknownMetric,
}

/// The metrics in the order in which they are listed.
pub open spec fn all_metrics() -> Seq<MetricName> {
    seq![
        MetricName::BlockHeight,
        MetricName::TxVolume,
        MetricName::MarketPrice,
        MetricName::PriceChange24h,
        MetricName::TransactionCount,
        MetricName::BlockSize,
        MetricName::TotalFees,
        MetricName::Difficulty,
        MetricName::HashRate,
        MetricName::MempoolSize,
    ]
}

/// The metric whose field name is `s`, if any.
pub open spec fn metric_named(s: Seq<char>) -> Option<MetricName> {
    if s == "block_height"@ {
        Some(MetricName::BlockHeight)
    } else if s == "tx_volume"@ {
        Some(MetricName::TxVolume)
    } else if s == "market_price"@ {
        Some(MetricName::MarketPrice)
    } else if s == "price_change_24h"@ {
        Some(MetricName::PriceChange24h)
    } else if s == "transaction_count"@ {
        Some(MetricName::TransactionCount)
    } else if s == "block_size"@ {
        Some(MetricName::BlockSize)
    } else if s == "total_fees"@ {
        Some(MetricName::TotalFees)
    } else if s == "difficulty"@ {
        Some(MetricName::Difficulty)
    } else if s == "hash_rate"@ {
        Some(MetricName::HashRate)
    } else if s == "mempool_size"@ {
        Some(MetricName::MempoolSize)
    } else {
        None
    }
}

impl MetricName {
    /// The field name of the metric.
    pub open spec fn spec_name(self) -> Seq<char> {
        match self {
            MetricName::BlockHeight => "block_height"@,
            MetricName::TxVolume => "tx_volume"@,
            MetricName::MarketPrice => "market_price"@,
            MetricName::PriceChange24h => "price_change_24h"@,
            MetricName::TransactionCount => "transaction_count"@,
            MetricName::BlockSize => "block_size"@,
            MetricName::TotalFees => "total_fees"@,
            MetricName::Difficulty => "difficulty"@,
            MetricName::HashRate => "hash_rate"@,
            MetricName::MempoolSize => "mempool_size"@,
        }
    }

    /// The field name of the metric, which is also its column name.
    pub fn name(&self) -> (r: &'static str)
        ensures
            r@ == self.spec_name(),
    {
        match self {
            MetricName::BlockHeight => "block_height",
            MetricName::TxVolume => "tx_volume",
            MetricName::MarketPrice => "market_price",
            MetricName::PriceChange24h => "price_change_24h",
            MetricName::TransactionCount => "transaction_count",
            MetricName::BlockSize => "block_size",
            MetricName::TotalFees => "total_fees",
            MetricName::Difficulty => "difficulty",
            MetricName::HashRate => "hash_rate",
            MetricName::MempoolSize => "mempool_size",
        }
    }

    /// Validates a caller-supplied name against the known metric fields.
    pub fn parse(name: &str) -> (r: Result<MetricName, QueryError>)
        ensures
            r == (match metric_named(name@) {
                Some(m) => Ok(m),
                None => Err(QueryError::UnknownMetric),
            }),
    {
        let s = name.to_owned();
        if s == "block_height".to_owned() {
            Ok(MetricName::BlockHeight)
        } else if s == "tx_volume".to_owned() {
            Ok(MetricName::TxVolume)
        } else if s == "market_price".to_owned() {
            Ok(MetricName::MarketPrice)
        } else if s == "price_change_24h".to_owned() {
            Ok(MetricName::PriceChange24h)
        } else if s == "transaction_count".to_owned() {
            Ok(MetricName::TransactionCount)
        } else if s == "block_size".to_owned() {
            Ok(MetricName::BlockSize)
        } else if s == "total_fees".to_owned() {
            Ok(MetricName::TotalFees)
        } else if s == "difficulty".to_owned() {
            Ok(MetricName::Difficulty)
        } else if s == "hash_rate".to_owned() {
            Ok(MetricName::HashRate)
        } else if s == "mempool_size".to_owned() {
            Ok(MetricName::MempoolSize)
        } else {
            Err(QueryError::UnknownMetric)
        }
    }
}

/// Names a metric by its field name and reads it back: every metric parses
/// from its own name.
pub proof fn lemma_name_round_trip(m: MetricName)
    ensures
        metric_named(m.spec_name()) == Some(m),
{
    reveal_strlit("block_height");
    reveal_strlit("tx_volume");
    reveal_strlit("market_price");
    reveal_strlit("price_change_24h");
    reveal_strlit("transaction_count");
    reveal_strlit("block_size");
    reveal_strlit("total_fees");
    reveal_strlit("difficulty");
    reveal_strlit("hash_rate");
    reveal_strlit("mempool_size");
    assert("block_height"@.len() == 12 && "block_height"@[0] == 'b' && "block_height"@[1] == 'l');
    assert("tx_volume"@.len() == 9 && "tx_volume"@[0] == 't' && "tx_volume"@[1] == 'x');
    assert("market_price"@.len() == 12 && "market_price"@[0] == 'm' && "market_price"@[1] == 'a');
    assert("price_change_24h"@.len() == 16 && "price_change_24h"@[0] == 'p' && "price_change_24h"@[1] == 'r');
    assert("transaction_count"@.len() == 17 && "transaction_count"@[0] == 't' && "transaction_count"@[1] == 'r');
    assert("block_size"@.len() == 10 && "block_size"@[0] == 'b' && "block_size"@[1] == 'l');
    assert("total_fees"@.len() == 10 && "total_fees"@[0] == 't' && "total_fees"@[1] == 'o');
    assert("difficulty"@.len() == 10 && "difficulty"@[0] == 'd' && "difficulty"@[1] == 'i');
    assert("hash_rate"@.len() == 9 && "hash_rate"@[0] == 'h' && "hash_rate"@[1] == 'a');
    assert("mempool_size"@.len() == 12 && "mempool_size"@[0] == 'm' && "mempool_size"@[1] == 'e');
    match m {
        MetricName::BlockHeight => {},
        MetricName::TxVolume => {},
        MetricName::MarketPrice => {},
        MetricName::PriceChange24h => {},
        MetricName::TransactionCount => {},
        MetricName::BlockSize => {},
        MetricName::TotalFees => {},
        MetricName::Difficulty => {},
        MetricName::HashRate => {},
        MetricName::MempoolSize => {},
    }
}

/// The field names of all known metrics, in a fixed order.
pub fn available_metrics() -> (r: Vec<String>)
    ensures
        r@.len() == all_metrics().len(),
        forall|i: int| 0 <= i < r@.len() ==> (#[trigger] r@[i])@ == all_metrics()[i].spec_name(),
{
    let names: Vec<MetricName> = vec![
        MetricName::BlockHeight,
        MetricName::TxVolume,
        MetricName::MarketPrice,
        MetricName::PriceChange24h,
        MetricName::TransactionCount,
        MetricName::BlockSize,
        MetricName::TotalFees,
        MetricName::Difficulty,
        MetricName::HashRate,
        MetricName::MempoolSize,
    ];
    assert(names@ =~= all_metrics());
    let mut out: Vec<String> = Vec::new();
    let mut i: usize = 0;
    while i < names.len()
        invariant
            i <= names@.len(),
            names@ == all_metrics(),
            out@.len() == i,
            forall|k: int| 0 <= k < i ==> (#[trigger] out@[k])@ == all_metrics()[k].spec_name(),
        decreases names@.len() - i,
    {
        out.push(names[i].name().to_owned());
        i = i + 1;
    }
    out
}

} // verus!
