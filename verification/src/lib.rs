//! Synthetic instruments over live candle streams.
//!
//! A client names an instrument by a formula over price symbols and a candle
//! interval, such as `(btcusdt+ethusdt*ltcbtc)/bnbusdt@1m`. The library reads
//! the formula ([`ast`]), lists the symbols whose candles it needs
//! ([`feed`]), and combines the latest candles into one each time a new one
//! arrives ([`coordinator`], [`eval`]). Prices are decimals of arbitrary
//! precision ([`decimal`]).
//!
//! Every function states what it returns over the mathematical content of
//! its arguments, their views, and is proved against that statement. The
//! formula grammar and the decimal arithmetic come from the crates
//! `arithmetic_parser` and `bigdecimal`; what is taken on trust of them is
//! said where they are called, in [`grammar`] and [`decimal`]. A formula is
//! measured before the grammar sees it ([`scan`]).

pub mod ast;
pub mod coordinator;
pub mod decimal;
pub mod error;
pub mod eval;
pub mod feed;
pub mod grammar;
pub mod models;
pub mod scan;
pub mod store;
pub mod text;

pub use ast::{get_all_variables_from_ast, parse_stream_request, Expression, Operator};
pub use coordinator::Coordinator;
pub use decimal::Decimal;
pub use error::Error;
pub use eval::eval_ast_with;
pub use store::SampleStore;
