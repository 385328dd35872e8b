//! Chapter title resolution and text normalization for turning an e-book
//! into per-chapter plain-text files ready for speech synthesis.

pub mod chars;
pub mod engine;
pub mod replace_text;
pub mod custom_replacements;
pub mod titles;
pub mod naming;
pub mod pipeline;
