//! A small event pipeline: producers feed input events into an aggregator,
//! which folds them into a running state and fans the results out to
//! consumers.

pub mod aggregator;
pub mod consumer;
pub mod pipeline;
pub mod producer;
pub mod producer_2;
pub mod types;
