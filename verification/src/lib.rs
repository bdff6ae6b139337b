//! Risk evaluation and dispatch for leveraged positions.
//!
//! Amounts and prices are fixed-point integers with six decimal places, as the
//! ledger records them; ratios are integers in parts per million. The values
//! of positions (an amount times a price) are integers in units of 10^-12.
//!
//! The library performs no input or output. Its caller polls the ledger and
//! the price source, submits settlements and stores outcomes, and hands the
//! library what came back; the library evaluates, queues, decides and
//! accounts. Every function is verified against a contract over mathematical
//! integers, sequences and maps, except two small wrappers whose contracts
//! are taken on trust: one draws a random number, one reads UTF-8 text.

pub mod text;
pub mod position;
pub mod margin;
pub mod queue;
pub mod executor;
pub mod oracle;
pub mod monitor;
pub mod accounts;
pub mod insurance;
pub mod websocket;
pub mod ledger;
