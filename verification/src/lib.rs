//! Public crypto market data: trade history, raw stream capture and normalization.

pub mod text;
pub mod order;
pub mod json;
pub mod number;
pub mod lists;
pub mod wire;
pub mod deribit;
pub mod deribit_feed;
pub mod heartbeat;
pub mod feed;
pub mod stream;
pub mod calendar;
pub mod decimal;
pub mod trades;
pub mod trade_order;
pub mod history;
pub mod paths;
pub mod checkpoint;
pub mod table;
pub mod batch;
pub mod trade_table;
pub mod events;
pub mod sides;
pub mod deribit_rows;
pub mod bitfinex_rows;
pub mod hibachi_rows;
pub mod hyperliquid_rows;
pub mod normalize;
pub mod plan;
pub mod capture;
pub mod hyperliquid;
pub mod tui;
pub mod laws;
