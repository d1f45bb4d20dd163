//! What the operations are for: laws that relate what an operation is given to what it gives back,
//! and one call to the next.

pub mod pulls;
pub mod answers;
pub mod checkpoints;
pub mod days;
pub mod batches;
pub mod messages;
pub mod heartbeats;
pub mod recordings;
pub mod discovery;
pub mod columns;
pub mod deribit_tables;
pub mod bitfinex_tables;
pub mod hibachi_tables;
pub mod hyperliquid_tables;
pub mod writing;
pub mod archives;
pub mod menus;
pub mod tables;
pub mod words;
