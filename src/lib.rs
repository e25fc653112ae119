//! Topic and sentiment classification of bank customer reviews: a small
//! tokenizer, keyword rules, three interchangeable prediction strategies and
//! the choice among them at startup.
pub mod catalog;
pub mod classifier;
pub mod config;
pub mod domain;
pub mod json;
pub mod onnx_predictor;
pub mod predict;
pub mod selector;
pub mod text;
pub mod tokenizer;
