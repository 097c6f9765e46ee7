use vstd::prelude::*;
use crate::extract::{BlockData, BlockMetrics, amounts_fit, extract_metrics, metrics_of};
use crate::snapshot::{ChainStats, Quote, Snapshot, snapshot_of};

verus! {

/// Seconds from the end of one cycle to the start of the next.
pub const POLL_INTERVAL_SECS: u64 = 30;

/// Number of trailing blocks the network hash rate is estimated over.
pub const HASH_RATE_WINDOW_BLOCKS: u64 = 144;

/// Where the ingestion loop stands. `Idle` waits for the timer; the three
/// fetching and committing phases make up one running cycle.
#[derive(Clone, Copy, Debug, PartialEq, Eq, Structural)]
pub enum Phase {
    /// The node connection is being opened.
    Connecting,
    /// The node connection failed at startup; ingestion never starts.
    Halted,
    Idle,
    FetchingBlock,
    FetchingQuote { metrics: BlockMetrics, chain: ChainStats },
    Committing,
}

/// What the outside world reports back to the loop.
pub enum Event {
    Connected,
    ConnectFailed,
    TimerFired,
    BlockFetched { block: BlockData, chain: ChainStats },
    BlockFetchFailed,
    QuoteFetched(Quote),
    QuoteFetchFailed,
    CommitSucceeded,
    CommitFailed,
}

/// How a cycle ended, for the log.
#[derive(Clone, Copy, Debug, PartialEq, Eq, Structural)]
pub enum Outcome {
    NodeFetchFailed,
    ExtractionFailed,
    QuoteFetchFailed,
    Committed,
    CommitFailed,
}

/// What the loop asks the outside world to do next.
#[derive(Clone, Copy, Debug, PartialEq, Eq, Structural)]
pub enum Action {
    /// Report that ingestion cannot start.
    ReportFatal,
    /// Fetch the chain tip, its block with resolved inputs, and the chain figures.
    FetchBlock,
    /// Fetch a market quote; `fee_anomaly` asks for a data-quality warning.
    FetchQuote { fee_anomaly: bool },
    /// Persist the snapshot.
    Commit(Snapshot),
    /// Sleep, then deliver `TimerFired`.
    Wait { secs: u64, outcome: Outcome },
    /// The event does not belong to this phase and changes nothing.
    Ignore,
}

impl Phase {
    /// A cycle is in flight.
    pub open spec fn is_running(self) -> bool {
        match self {
            Phase::FetchingBlock | Phase::FetchingQuote { .. } | Phase::Committing => true,
            _ => false,
        }
    }
}

/// Ends the cycle: back to `Idle`, waiting a full interval.
pub open spec fn finish(outcome: Outcome) -> (Phase, Action) {
    (Phase::Idle, Action::Wait { secs: POLL_INTERVAL_SECS, outcome })
}

/// The transition of the ingestion loop.
pub open spec fn step_spec(p: Phase, e: Event) -> (Phase, Action) {
    match (p, e) {
        (Phase::Connecting, Event::Connected) => (Phase::FetchingBlock, Action::FetchBlock),
        (Phase::Connecting, Event::ConnectFailed) => (Phase::Halted, Action::ReportFatal),
        (Phase::Idle, Event::TimerFired) => (Phase::FetchingBlock, Action::FetchBlock),
        (Phase::FetchingBlock, Event::BlockFetched { block, chain }) => {
            if amounts_fit(block.txs@) {
                let m = metrics_of(block);
                (
                    Phase::FetchingQuote { metrics: m, chain },
                    Action::FetchQuote { fee_anomaly: m.fee_anomaly },
                )
            } else {
                finish(Outcome::ExtractionFailed)
            }
        },
        (Phase::FetchingBlock, Event::BlockFetchFailed) => finish(Outcome::NodeFetchFailed),
        (Phase::FetchingQuote { metrics, chain }, Event::QuoteFetched(q)) => (
            Phase::Committing,
            Action::Commit(snapshot_of(metrics, chain, q)),
        ),
        (Phase::FetchingQuote { .. }, Event::QuoteFetchFailed) => finish(Outcome::QuoteFetchFailed),
        (Phase::Committing, Event::CommitSucceeded) => finish(Outcome::Committed),
        (Phase::Committing, Event::CommitFailed) => finish(Outcome::CommitFailed),
        _ => (p, Action::Ignore),
    }
}

/// Advances the loop by one event and names the next action.
pub fn step(p: Phase, e: Event) -> (r: (Phase, Action))
    ensures
        r == step_spec(p, e),
{
    match (p, e) {
        (Phase::Connecting, Event::Connected) => (Phase::FetchingBlock, Action::FetchBlock),
        (Phase::Connecting, Event::ConnectFailed) => (Phase::Halted, Action::ReportFatal),
        (Phase::Idle, Event::TimerFired) => (Phase::FetchingBlock, Action::FetchBlock),
        (Phase::FetchingBlock, Event::BlockFetched { block, chain }) => {
            match extract_metrics(&block) {
                Ok(m) => (
                    Phase::FetchingQuote { metrics: m, chain },
                    Action::FetchQuote { fee_anomaly: m.fee_anomaly },
                ),
                Err(_) => finish_cycle(Outcome::ExtractionFailed),
            }
        },
        (Phase::FetchingBlock, Event::BlockFetchFailed) => finish_cycle(Outcome::NodeFetchFailed),
        (Phase::FetchingQuote { metrics, chain }, Event::QuoteFetched(q)) => (
            Phase::Committing,
            Action::Commit(Snapshot::assemble(&metrics, &chain, &q)),
        ),
        (Phase::FetchingQuote { .. }, Event::QuoteFetchFailed) => finish_cycle(
            Outcome::QuoteFetchFailed,
        ),
        (Phase::Committing, Event::CommitSucceeded) => finish_cycle(Outcome::Committed),
        (Phase::Committing, Event::CommitFailed) => finish_cycle(Outcome::CommitFailed),
        _ => (p, Action::Ignore),
    }
}

fn finish_cycle(outcome: Outcome) -> (r: (Phase, Action))
    ensures
        r == finish(outcome),
{
    (Phase::Idle, Action::Wait { secs: POLL_INTERVAL_SECS, outcome })
}

/// A failed node connection at startup halts ingestion for good: nothing is
/// ever fetched or committed afterwards.
pub proof fn lemma_halted_stays_halted(e: Event)
    ensures
        step_spec(Phase::Halted, e) == (Phase::Halted, Action::Ignore),
{
}

/// A failed quote fetch ends the cycle without a commit, so the block
/// metrics of that cycle are discarded.
pub proof fn lemma_quote_failure_commits_nothing(p: Phase)
    requires
        p is FetchingQuote,
    ensures
        step_spec(p, Event::QuoteFetchFailed) == finish(Outcome::QuoteFetchFailed),
        !(step_spec(p, Event::QuoteFetchFailed).1 is Commit),
{
}

/// A snapshot is committed only when a quote arrives for fetched block
/// metrics, and it is exactly those metrics with that quote.
pub proof fn lemma_commit_only_after_quote(p: Phase, e: Event)
    ensures
        step_spec(p, e).1 is Commit ==> (p matches Phase::FetchingQuote { metrics, chain } && e matches Event::QuoteFetched(
            q,
        ) && step_spec(p, e).1 == Action::Commit(snapshot_of(metrics, chain, q))),
{
}

/// Every event that ends a running cycle, success or failure, leaves the loop
/// idle and waiting a full interval; no cycle outcome stops the loop.
pub proof fn lemma_cycle_end_returns_to_idle(p: Phase, e: Event)
    requires
        p.is_running(),
        step_spec(p, e).1 is Wait,
    ensures
        step_spec(p, e).0 == Phase::Idle,
        step_spec(p, e).1->secs == POLL_INTERVAL_SECS,
{
}

/// An idle loop starts a cycle only when its timer fires; a running loop
/// never starts a second one.
pub proof fn lemma_one_cycle_at_a_time(p: Phase, e: Event)
    requires
        step_spec(p, e).1 is FetchBlock,
    ensures
        p is Connecting || (p is Idle && e is TimerFired),
{
}

} // verus!
