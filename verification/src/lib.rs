//! Core of a study aid for Chinese phrases: building the translation prompt,
//! reading the model's answer, the lifecycle of one translation request, and
//! the phrase book that keeps accepted translations.

pub mod json;
pub mod llm;
pub mod model;
pub mod nonempty;
pub mod persistence;
pub mod query;
pub mod screensize;
pub mod settings;
pub mod shortcuts;
pub mod state;
pub mod text;
pub mod transform;
