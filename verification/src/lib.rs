//! A Firehose tracer for an Ethereum node: the state machine that follows
//! blocks, transactions and calls, and the exact text of each line it emits.
pub mod encoding;
pub mod u256;
pub mod firehose;
pub mod mem;
pub mod fields;
