//! What is computed around the store's statements: the record that a run
//! leaves, the pattern of a search, and the page of a listing.

use vstd::prelude::*;
use vstd::string::*;

use crate::storage::models::NewTranscription;
use crate::text::{count_words, word_count};

verus! {

/// The number of records on a page where the caller asks for none.
pub const DEFAULT_LIMIT: i64 = 50;

/// The number of records skipped where the caller asks for none.
pub const DEFAULT_OFFSET: i64 = 0;

/// One page of the log, most recent first.
#[derive(Debug, Clone)]
pub struct ListQuery {
    /// At most this many records.
    pub limit: i64,
    /// After skipping this many.
    pub offset: i64,
    /// Only records whose raw or refined text matches this pattern, if any.
    pub pattern: Option<String>,
}

/// The pattern that matches every text holding `query` as a substring: the
/// query between two wildcards.
pub open spec fn pattern_of(query: Seq<char>) -> Seq<char> {
    seq!['%'] + query + seq!['%']
}

/// Whether `record` is the record that a run with these texts and latencies
/// leaves in the log: the texts as they are, the latencies as signed
/// columns, and the word count of the refined text.
pub open spec fn is_record_of(
    record: NewTranscription,
    raw_text: Seq<char>,
    refined_text: Seq<char>,
    stt_latency_ms: u64,
    llm_latency_ms: u64,
) -> bool {
    &&& record.raw_text@ == raw_text
    &&& record.refined_text@ == refined_text
    &&& record.stt_latency_ms == stt_latency_ms as i64
    &&& record.llm_latency_ms == llm_latency_ms as i64
    &&& record.word_count == word_count(refined_text) as i64
}

/// The record that a run leaves in the log.
pub fn new_record(
    raw_text: &str,
    refined_text: &str,
    stt_latency_ms: u64,
    llm_latency_ms: u64,
) -> (record: NewTranscription)
    ensures
        is_record_of(record, raw_text@, refined_text@, stt_latency_ms, llm_latency_ms),
{
    let words: usize = count_words(refined_text);
    NewTranscription {
        raw_text: String::from_str(raw_text),
        refined_text: String::from_str(refined_text),
        stt_latency_ms: #[verifier::truncate] (stt_latency_ms as i64),
        llm_latency_ms: #[verifier::truncate] (llm_latency_ms as i64),
        word_count: #[verifier::truncate] (words as i64),
    }
}

/// The pattern for a substring search.
pub fn search_pattern(query: &str) -> (pattern: String)
    ensures
        pattern@ == pattern_of(query@),
{
    let mut pattern = String::from_str("%");
    pattern.append(query);
    pattern.append("%");
    proof {
        reveal_strlit("%");
        assert(pattern@ =~= pattern_of(query@));
    }
    pattern
}

/// The page that a listing request asks for: 50 records from the start
/// unless it says otherwise, filtered where it names a search text.
pub fn list_query(limit: Option<i64>, offset: Option<i64>, search: Option<&str>) -> (query: ListQuery)
    ensures
        query.limit == (match limit {
            Some(n) => n,
            None => DEFAULT_LIMIT,
        }),
        query.offset == (match offset {
            Some(n) => n,
            None => DEFAULT_OFFSET,
        }),
        match search {
            Some(text) => query.pattern matches Some(p) && p@ == pattern_of(text@),
            None => query.pattern is None,
        },
{
    ListQuery {
        limit: match limit {
            Some(n) => n,
            None => DEFAULT_LIMIT,
        },
        offset: match offset {
            Some(n) => n,
            None => DEFAULT_OFFSET,
        },
        pattern: match search {
            Some(text) => Some(search_pattern(text)),
            None => None,
        },
    }
}

} // verus!
