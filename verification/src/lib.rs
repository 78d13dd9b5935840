//! A-share trading assistant library.
pub mod text;
pub mod decimal;
pub mod error;
pub mod stock;
pub mod eastmoney;
pub mod kline;
pub mod costs;
pub mod models;
pub mod engine;
pub mod strategies;
pub mod tencent;
pub mod json;
pub mod encoding;
pub mod report;
pub mod monitor;
pub mod store;
pub mod receiver;
pub mod portfolio;
pub mod cli;
pub mod display;
