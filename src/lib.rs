//! Demand forecasting pipeline: ingestion and validation of hourly
//! observations, horizon generation, alignment of forecast results and the
//! sizing of the comparison chart.
pub mod chart;
pub mod config;
pub mod error;
pub mod forecast;
pub mod horizon;
pub mod ingest;
pub mod sample;
pub mod time_text;
