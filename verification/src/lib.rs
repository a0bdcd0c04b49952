//! Order and market-data logic of a connector for the Pacifica exchange.

pub mod account_laws;
pub mod account_state;
pub mod binary64;
pub mod book_laws;
pub mod clock;
pub mod command_laws;
pub mod command_worker;
pub mod config;
pub mod connector;
pub mod feed_laws;
pub mod json;
pub mod keyed;
pub mod msg;
pub mod order_laws;
pub mod order_payload;
pub mod ordermanager;
pub mod pacifica;
pub mod private_stream;
pub mod public_stream;
pub mod report_laws;
pub mod rest;
pub mod run_laws;
pub mod sanity;
pub mod sanity_run;
pub mod saying_laws;
pub mod settings_laws;
pub mod signing;
pub mod startup;
pub mod symbols;
pub mod text;
pub mod time_laws;
pub mod trade_stream;
pub mod types;
pub mod uuid;
pub mod websocket;
pub mod ws_trade;
