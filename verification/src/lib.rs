//! A conjugation engine for regular classical Greek verbs.
//!
//! Given a tense-tagged stem such as `pres:παυ` and a set of tense-voice-mood
//! codes (`pai`, `iai`, ...), the library classifies the stem, applies the
//! temporal augment where the requested tense requires one, appends the six
//! person/number endings for the code, and stores the resulting forms per
//! code for display or tabular output.

pub mod augment;
pub mod engine;
pub mod laws;
pub mod output;
pub mod stem;
pub mod text;
pub mod verb;
