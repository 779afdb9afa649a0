//! Verified core of a long-recording transcription and report pipeline: audio window and
//! frame planning, the speech-engine loop filter, transcript assembly, bounded-size
//! chunking of long transcripts, and the map-reduce plan of prompts that turns a transcript
//! into a summary or formal minutes. Engines, codecs and file access stay with the caller.

pub mod chunking;
pub mod conditioning;
pub mod decoding;
pub mod inference;
pub mod loop_detect;
pub mod prompts;
pub mod summarizer;
pub mod templates;
pub mod text;
pub mod transcription;
