use chain_metrics::extract::{BlockData, TxData};
use chain_metrics::ingest::{step, Action, Event, Outcome, Phase, POLL_INTERVAL_SECS};
use chain_metrics::snapshot::{ChainStats, Quote};
use chain_metrics::store::SnapshotLog;

fn chain() -> ChainStats {
    ChainStats {
        difficulty_micros: 1_000_000,
        network_hash_ps: 500_000_000_000_000_000_000,
        mempool_size: 77,
    }
}

fn block(height: u64) -> BlockData {
    BlockData {
        height,
        size_bytes: 2_000_000,
        txs: vec![
            TxData { is_coinbase: true, inputs: vec![None], outputs: vec![625_000_000] },
            TxData { is_coinbase: false, inputs: vec![Some(1_000)], outputs: vec![900] },
        ],
    }
}

fn quote() -> Quote {
    Quote { price_micros: 30_000_000_000, change_24h_micros: 1_000_000 }
}

/// Runs one cycle from `Idle`, answering each action from the given
/// outcomes and committing into `log`.
fn run_cycle(log: &mut SnapshotLog, height: u64, quote_ok: bool, now: i64) -> Action {
    let (p, a) = step(Phase::Idle, Event::TimerFired);
    assert_eq!(a, Action::FetchBlock);
    let (p, a) = step(p, Event::BlockFetched { block: block(height), chain: chain() });
    assert_eq!(a, Action::FetchQuote { fee_anomaly: false });
    let ev = if quote_ok { Event::QuoteFetched(quote()) } else { Event::QuoteFetchFailed };
    let (p, a) = step(p, ev);
    match a {
        Action::Commit(s) => {
            let ok = log.commit(s, now).is_ok();
            let (p, a) = step(p, if ok { Event::CommitSucceeded } else { Event::CommitFailed });
            assert_eq!(p, Phase::Idle);
            a
        },
        other => {
            assert_eq!(p, Phase::Idle);
            other
        },
    }
}

#[test]
fn connection_failure_halts_ingestion() {
    let (p, a) = step(Phase::Connecting, Event::ConnectFailed);
    assert_eq!(p, Phase::Halted);
    assert_eq!(a, Action::ReportFatal);
    let (p, a) = step(p, Event::TimerFired);
    assert_eq!(p, Phase::Halted);
    assert_eq!(a, Action::Ignore);
    // the read side still answers, against an empty store
    let log = SnapshotLog::new();
    assert_eq!(log.latest(), None);
    assert_eq!(log.historical("difficulty", 100), Ok(vec![]));
}

#[test]
fn connection_starts_first_cycle() {
    let (p, a) = step(Phase::Connecting, Event::Connected);
    assert_eq!(p, Phase::FetchingBlock);
    assert_eq!(a, Action::FetchBlock);
}

#[test]
fn quote_failure_commits_nothing() {
    let mut log = SnapshotLog::new();
    let a = run_cycle(&mut log, 800_000, true, 100);
    assert_eq!(a, Action::Wait { secs: POLL_INTERVAL_SECS, outcome: Outcome::Committed });
    let before = log.latest().unwrap();
    assert_eq!(before.block_height, 800_000);
    assert_eq!(before.total_fees_sat, 100);
    assert_eq!(before.hash_rate_micro_ehs, 500_000_000);
    let a = run_cycle(&mut log, 800_001, false, 130);
    assert_eq!(a, Action::Wait { secs: 30, outcome: Outcome::QuoteFetchFailed });
    assert_eq!(log.latest(), Some(before));
    assert_eq!(log.len(), 1);
}

#[test]
fn block_fetch_failure_returns_to_idle() {
    let (p, a) = step(Phase::FetchingBlock, Event::BlockFetchFailed);
    assert_eq!(p, Phase::Idle);
    assert_eq!(a, Action::Wait { secs: 30, outcome: Outcome::NodeFetchFailed });
}

#[test]
fn extraction_failure_returns_to_idle() {
    let bad = BlockData {
        height: 1,
        size_bytes: 1,
        txs: vec![TxData { is_coinbase: true, inputs: vec![], outputs: vec![u64::MAX, 1] }],
    };
    let (p, a) = step(Phase::FetchingBlock, Event::BlockFetched { block: bad, chain: chain() });
    assert_eq!(p, Phase::Idle);
    assert_eq!(a, Action::Wait { secs: 30, outcome: Outcome::ExtractionFailed });
}

#[test]
fn commit_failure_returns_to_idle() {
    let (p, a) = step(Phase::Committing, Event::CommitFailed);
    assert_eq!(p, Phase::Idle);
    assert_eq!(a, Action::Wait { secs: 30, outcome: Outcome::CommitFailed });
}

#[test]
fn zero_fee_block_asks_for_warning() {
    let b = BlockData {
        height: 9,
        size_bytes: 500,
        txs: vec![
            TxData { is_coinbase: true, inputs: vec![None], outputs: vec![50] },
            TxData { is_coinbase: false, inputs: vec![None], outputs: vec![10] },
        ],
    };
    let (p, a) = step(Phase::FetchingBlock, Event::BlockFetched { block: b, chain: chain() });
    assert_eq!(a, Action::FetchQuote { fee_anomaly: true });
    assert!(matches!(p, Phase::FetchingQuote { .. }));
}

#[test]
fn out_of_phase_events_are_ignored() {
    let (p, a) = step(Phase::Idle, Event::QuoteFetched(quote()));
    assert_eq!(p, Phase::Idle);
    assert_eq!(a, Action::Ignore);
    let (p, a) = step(Phase::FetchingBlock, Event::TimerFired);
    assert_eq!(p, Phase::FetchingBlock);
    assert_eq!(a, Action::Ignore);
}
