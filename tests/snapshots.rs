use chain_metrics::extract::BlockMetrics;
use chain_metrics::metric::{available_metrics, MetricName, QueryError};
use chain_metrics::snapshot::{hash_rate_micro_ehs, ChainStats, Quote, Snapshot};
use chain_metrics::store::{HistoryPoint, SnapshotLog, MAX_HISTORY};

fn sample(height: u64) -> Snapshot {
    Snapshot {
        block_height: height,
        tx_volume_sat: 10 * height,
        market_price_micros: 64_000_000_000,
        price_change_24h_micros: -1_250_000,
        transaction_count: 3,
        block_size_bytes: 1_200_000,
        total_fees_sat: 30_000_000,
        difficulty_micros: 57_000_000_000_000_000_000,
        hash_rate_micro_ehs: 400_000_000,
        mempool_size: 12_345,
    }
}

#[test]
fn hash_rate_is_converted_to_exahashes() {
    assert_eq!(hash_rate_micro_ehs(400_000_000_000_000_000_000), 400_000_000);
    assert_eq!(hash_rate_micro_ehs(999_999_999_999), 0);
    assert_eq!(hash_rate_micro_ehs(1_000_000_000_000), 1);
}

#[test]
fn snapshot_assembly() {
    let m = BlockMetrics {
        block_height: 800_000,
        tx_volume_sat: 1_425_000_000,
        transaction_count: 3,
        block_size_bytes: 1_500_000,
        total_fees_sat: 30_000_000,
        fee_anomaly: false,
    };
    let c = ChainStats {
        difficulty_micros: 52_350_439_455_487_470_000,
        network_hash_ps: 370_000_000_000_000_000_000,
        mempool_size: 4_000,
    };
    let q = Quote { price_micros: 29_000_500_000, change_24h_micros: 2_500_000 };
    let s = Snapshot::assemble(&m, &c, &q);
    assert_eq!(s.block_height, 800_000);
    assert_eq!(s.tx_volume_sat, 1_425_000_000);
    assert_eq!(s.total_fees_sat, 30_000_000);
    assert_eq!(s.market_price_micros, 29_000_500_000);
    assert_eq!(s.price_change_24h_micros, 2_500_000);
    assert_eq!(s.difficulty_micros, 52_350_439_455_487_470_000);
    assert_eq!(s.hash_rate_micro_ehs, 370_000_000);
    assert_eq!(s.mempool_size, 4_000);
    assert_eq!(s.value(MetricName::HashRate), 370_000_000);
    assert_eq!(s.value(MetricName::TotalFees), 30_000_000);
    assert_eq!(s.value(MetricName::PriceChange24h), 2_500_000);
}

#[test]
fn metric_names_parse_and_list() {
    let names = available_metrics();
    assert_eq!(names.len(), 10);
    assert_eq!(names[0], "block_height");
    assert_eq!(names[9], "mempool_size");
    for n in &names {
        let m = MetricName::parse(n).unwrap();
        assert_eq!(m.name(), n.as_str());
    }
    assert_eq!(MetricName::parse("total_fees"), Ok(MetricName::TotalFees));
}

#[test]
fn injected_metric_name_is_rejected() {
    let mut log = SnapshotLog::new();
    log.commit(sample(1), 100).unwrap();
    assert_eq!(log.historical("; DROP TABLE metrics", 10), Err(QueryError::UnknownMetric));
    assert_eq!(log.historical("", 10), Err(QueryError::UnknownMetric));
    assert_eq!(log.historical("Block_Height", 10), Err(QueryError::UnknownMetric));
    assert_eq!(log.len(), 1);
}

#[test]
fn latest_of_empty_log_is_none() {
    let log = SnapshotLog::new();
    assert_eq!(log.latest(), None);
    assert_eq!(log.historical("block_height", MAX_HISTORY), Ok(vec![]));
}

#[test]
fn commit_assigns_keys_and_latest_follows() {
    let mut log = SnapshotLog::new();
    assert_eq!(log.commit(sample(1), 100), Ok(1));
    assert_eq!(log.commit(sample(2), 130), Ok(2));
    assert_eq!(log.latest(), Some(sample(2)));
    assert_eq!(log.len(), 2);
}

#[test]
fn historical_is_bounded_and_descending() {
    let mut log = SnapshotLog::new();
    for k in 0..150u64 {
        log.commit(sample(k), 1_000 + 30 * k as i64).unwrap();
    }
    let series = log.historical("block_height", MAX_HISTORY).unwrap();
    assert_eq!(series.len(), 100);
    assert_eq!(series[0], HistoryPoint { timestamp: 1_000 + 30 * 149, value: 149 });
    assert_eq!(series[99], HistoryPoint { timestamp: 1_000 + 30 * 50, value: 50 });
    for w in series.windows(2) {
        assert!(w[0].timestamp >= w[1].timestamp);
    }
    let short = log.historical("tx_volume", 3).unwrap();
    assert_eq!(short.iter().map(|p| p.value).collect::<Vec<_>>(), vec![1490, 1480, 1470]);
    assert_eq!(log.historical("tx_volume", 0), Ok(vec![]));
}

#[test]
fn commit_time_never_runs_backwards() {
    let mut log = SnapshotLog::new();
    log.commit(sample(1), 500).unwrap();
    log.commit(sample(2), 400).unwrap();
    log.commit(sample(3), 600).unwrap();
    let series = log.historical("block_height", 10).unwrap();
    let stamps: Vec<i64> = series.iter().map(|p| p.timestamp).collect();
    assert_eq!(stamps, vec![600, 500, 500]);
}

#[test]
fn repeated_queries_return_identical_results() {
    let mut log = SnapshotLog::new();
    log.commit(sample(5), 10).unwrap();
    log.commit(sample(6), 40).unwrap();
    assert_eq!(log.latest(), log.latest());
    let a = log.historical("mempool_size", 100);
    let b = log.historical("mempool_size", 100);
    assert_eq!(a, b);
    assert_eq!(a.unwrap().len(), 2);
}
