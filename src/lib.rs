//! Block and market metrics for a blockchain node: fee reconstruction over
//! partly resolvable inputs, snapshot assembly, an append-only snapshot log
//! with validated metric queries, and the transition function of the
//! ingestion loop. Amounts are satoshis; decimals are fixed-point integers.

pub mod extract;
pub mod metric;
pub mod snapshot;
pub mod store;
pub mod ingest;
