//! The records of the result log.

use vstd::prelude::*;

verus! {

/// One logged pipeline run, as the store returns it.
#[derive(Debug, Clone)]
pub struct Transcription {
    /// The unique id that the store generated.
    pub id: String,
    /// The transcript as the provider returned it.
    pub raw_text: String,
    /// The transcript after refinement.
    pub refined_text: String,
    /// The latency of the transcription call, in milliseconds.
    pub stt_latency_ms: i64,
    /// The latency of the refinement call, in milliseconds.
    pub llm_latency_ms: i64,
    /// The number of words in the refined text.
    pub word_count: i64,
    /// When the store wrote the record.
    pub created_at: String,
}

/// One pipeline run ready to be logged: what the store is given. The id and
/// the creation time are the store's to add.
#[derive(Debug, Clone)]
pub struct NewTranscription {
    /// The transcript as the provider returned it.
    pub raw_text: String,
    /// The transcript after refinement.
    pub refined_text: String,
    /// The latency of the transcription call, in milliseconds.
    pub stt_latency_ms: i64,
    /// The latency of the refinement call, in milliseconds.
    pub llm_latency_ms: i64,
    /// The number of words in the refined text.
    pub word_count: i64,
}

} // verus!
