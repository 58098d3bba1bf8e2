//! Transcript, transcript search and AI summary records: what the store keeps, and the rules
//! that turn requests into stored rows and search queries.
use vstd::prelude::*;
use vstd::string::*;

use crate::storage::{AiStatus, TranscriptStatus};
use crate::text::{ascii_lower, seq_join, string_views};

verus! {

/// A stored transcript of one recording.
#[derive(Debug, Clone, PartialEq, Eq)]
pub struct Transcript {
    pub id: String,
    pub recording_id: String,
    pub status: TranscriptStatus,
    pub language: Option<String>,
    pub model_name: Option<String>,
    pub raw_json_path: Option<String>,
    pub text: Option<String>,
    pub created_at: String,
    pub updated_at: String,
    pub completed_at: Option<String>,
    pub failure_message: Option<String>,
}

/// A transcript search request.
#[derive(Debug, Clone, PartialEq, Eq)]
pub struct SearchTranscriptsInput {
    pub query: String,
    pub limit: Option<i64>,
}

/// How many transcript segments a rebuild of the search index indexed.
#[derive(Debug, Clone, Copy, PartialEq, Eq, Structural)]
pub struct TranscriptSearchIndexSummary {
    pub indexed_segment_count: i64,
}

/// A stored optional AI summary of one recording.
#[derive(Debug, Clone, PartialEq, Eq)]
pub struct AiSummary {
    pub id: String,
    pub recording_id: String,
    pub status: AiStatus,
    pub model_name: Option<String>,
    pub summary_text: Option<String>,
    pub action_items_json: Option<String>,
    pub decisions_json: Option<String>,
    pub questions_json: Option<String>,
    pub risks_json: Option<String>,
    pub chapters_json: Option<String>,
    pub created_at: String,
    pub updated_at: String,
    pub completed_at: Option<String>,
    pub failure_message: Option<String>,
}

/// A request to store the AI summary of a recording.
#[derive(Debug, Clone, PartialEq, Eq)]
pub struct UpsertAiSummaryInput {
    pub recording_id: String,
    pub status: AiStatus,
    pub model_name: Option<String>,
    pub summary_text: Option<String>,
    pub action_items_json: Option<String>,
    pub decisions_json: Option<String>,
    pub questions_json: Option<String>,
    pub risks_json: Option<String>,
    pub chapters_json: Option<String>,
    pub completed_at: Option<String>,
    pub failure_message: Option<String>,
}

pub const DEFAULT_SEARCH_LIMIT: i64 = 50;

pub const MAX_SEARCH_LIMIT: i64 = 100;

/// How many search results are returned: the requested number, 50 when none is given, kept
/// between 1 and 100.
pub open spec fn spec_search_limit(limit: Option<i64>) -> i64 {
    let requested = match limit {
        Some(l) => l,
        None => DEFAULT_SEARCH_LIMIT,
    };
    if requested < 1 {
        1
    } else if requested > MAX_SEARCH_LIMIT {
        MAX_SEARCH_LIMIT
    } else {
        requested
    }
}

pub fn search_limit(limit: Option<i64>) -> (r: i64)
    ensures
        r == spec_search_limit(limit),
        1 <= r <= MAX_SEARCH_LIMIT,
{
    let requested = match limit {
        Some(l) => l,
        None => DEFAULT_SEARCH_LIMIT,
    };
    if requested < 1 {
        1
    } else if requested > MAX_SEARCH_LIMIT {
        MAX_SEARCH_LIMIT
    } else {
        requested
    }
}

/// Whether a transcript's segments are put in the search index when it is stored: only a
/// completed transcript is searchable.
pub fn transcript_is_searchable(status: TranscriptStatus) -> (r: bool)
    ensures
        r == (status == TranscriptStatus::Completed),
{
    status == TranscriptStatus::Completed
}

/// The position stored for a transcript segment: its own index when it has one, else its
/// place in the list.
pub fn segment_index(given: Option<i64>, position: usize) -> (r: i64)
    requires
        position <= i64::MAX,
    ensures
        r == match given {
            Some(i) => i,
            None => position as i64,
        },
{
    match given {
        Some(i) => i,
        None => position as i64,
    }
}

/// The stored positions of a transcript's new segments, given each segment's own index:
/// one per segment, in order, each its own index or else its place in the list.
pub fn stored_segment_indices(given: &Vec<Option<i64>>) -> (r: Vec<i64>)
    requires
        given@.len() <= i64::MAX + 1,
    ensures
        r@.len() == given@.len(),
        forall|i: int| 0 <= i < r@.len() ==> #[trigger] r@[i] == match given@[i] {
            Some(index) => index,
            None => i as i64,
        },
{
    let mut r: Vec<i64> = Vec::new();
    let mut i: usize = 0;
    while i < given.len()
        invariant
            i <= given@.len(),
            given@.len() <= i64::MAX + 1,
            r@.len() == i,
            forall|k: int| 0 <= k < i ==> #[trigger] r@[k] == match given@[k] {
                Some(index) => index,
                None => k as i64,
            },
        decreases given@.len() - i,
    {
        r.push(segment_index(given[i], i));
        i = i + 1;
    }
    r
}

/// The id and creation time a transcript is stored under when a recording's transcript is
/// written: those of the transcript it already has, which is replaced in place, else the
/// fresh id and the time of writing.
pub fn transcript_identity(existing: Option<(String, String)>, fresh_id: String, now: String) -> (r:
    (String, String))
    ensures
        r == match existing {
            Some(kept) => kept,
            None => (fresh_id, now),
        },
{
    match existing {
        Some(kept) => kept,
        None => (fresh_id, now),
    }
}

/// Whether `char::is_alphanumeric` holds of a character (Unicode `Alphabetic` or `Numeric`).
pub uninterp spec fn unicode_alphanumeric(c: char) -> bool;

/// `char::is_alphanumeric`.
#[verifier::external_body]
pub(crate) fn char_is_alphanumeric(c: char) -> (r: bool)
    ensures
        r == unicode_alphanumeric(c),
{
    c.is_alphanumeric()
}

/// A character that belongs to a search token.
pub open spec fn is_token_char(c: char) -> bool {
    unicode_alphanumeric(c) || c == '_'
}

/// The search tokens of `s` (runs of token characters, ASCII lower-cased) once a token in
/// progress `current` has been started, `done` being those finished before.
pub open spec fn spec_tokens_from(s: Seq<char>, done: Seq<Seq<char>>, current: Seq<char>) -> Seq<
    Seq<char>,
>
    decreases s.len(),
{
    if s.len() == 0 {
        if current.len() > 0 {
            done.push(current)
        } else {
            done
        }
    } else if is_token_char(s[0]) {
        spec_tokens_from(s.drop_first(), done, current.push(ascii_lower(s[0])))
    } else if current.len() > 0 {
        spec_tokens_from(s.drop_first(), done.push(current), Seq::empty())
    } else {
        spec_tokens_from(s.drop_first(), done, current)
    }
}

/// The search tokens of a query.
pub open spec fn spec_search_tokens(query: Seq<char>) -> Seq<Seq<char>> {
    spec_tokens_from(query, Seq::empty(), Seq::empty())
}

pub open spec fn quoted(token: Seq<char>) -> Seq<char> {
    "\""@ + token + "\""@
}

/// The full-text query for a search: each token quoted, joined by ` AND `; none when the
/// query has no token.
pub open spec fn spec_normalize_search_query(query: Seq<char>) -> Option<Seq<char>> {
    let tokens = spec_search_tokens(query);
    if tokens.len() == 0 {
        None
    } else {
        Some(seq_join(tokens.map_values(|t: Seq<char>| quoted(t)), " AND "@))
    }
}

proof fn lemma_tokens_step(s: Seq<char>, i: int, done: Seq<Seq<char>>, current: Seq<char>)
    requires
        0 <= i < s.len(),
    ensures
        spec_tokens_from(s.subrange(i, s.len() as int), done, current) == (if is_token_char(s[i]) {
            spec_tokens_from(s.subrange(i + 1, s.len() as int), done, current.push(ascii_lower(s[i])))
        } else if current.len() > 0 {
            spec_tokens_from(s.subrange(i + 1, s.len() as int), done.push(current), Seq::empty())
        } else {
            spec_tokens_from(s.subrange(i + 1, s.len() as int), done, current)
        }),
{
    assert(s.subrange(i, s.len() as int).drop_first() =~= s.subrange(i + 1, s.len() as int));
}

fn lower_char(c: char) -> (r: char)
    ensures
        r == ascii_lower(c),
{
    if 'A' <= c && c <= 'Z' {
        let r = ((c as u32) + 32) as u8 as char;
        assert(r == (((c as u32) + 32) as char));
        r
    } else {
        c
    }
}

/// The full-text query for a search request's text, or none when it has no token.
pub fn normalize_transcript_search_query(query: &str) -> (r: Option<String>)
    ensures
        match r {
            Some(q) => spec_normalize_search_query(query@) == Some(q@),
            None => spec_normalize_search_query(query@) is None,
        },
{
    let n = query.unicode_len();
    let mut tokens: Vec<String> = Vec::new();
    let mut current = String::new();
    let mut i: usize = 0;
    assert(query@.subrange(0, n as int) =~= query@);
    assert(string_views(tokens@) =~= Seq::<Seq<char>>::empty());
    while i < n
        invariant
            n == query@.len(),
            i <= n,
            spec_search_tokens(query@) == spec_tokens_from(
                query@.subrange(i as int, n as int),
                string_views(tokens@),
                current@,
            ),
        decreases n - i,
    {
        let c = query.get_char(i);
        proof {
            lemma_tokens_step(query@, i as int, string_views(tokens@), current@);
        }
        if char_is_alphanumeric(c) || c == '_' {
            let lower = lower_char(c);
            current.push(lower);
        } else if current.unicode_len() > 0 {
            let ghost before = tokens@;
            let ghost finished_view = current@;
            tokens.push(current);
            current = String::new();
            assert(string_views(tokens@) =~= string_views(before).push(finished_view));
        }
        i = i + 1;
    }
    assert(query@.subrange(n as int, n as int) =~= Seq::<char>::empty());
    if current.unicode_len() > 0 {
        let ghost before = tokens@;
        let ghost finished_view = current@;
        tokens.push(current);
        assert(string_views(tokens@) =~= string_views(before).push(finished_view));
    }
    assert(string_views(tokens@) == spec_search_tokens(query@));
    if tokens.len() == 0 {
        return None;
    }
    let mut quoted_tokens: Vec<String> = Vec::new();
    let mut j: usize = 0;
    while j < tokens.len()
        invariant
            j <= tokens@.len(),
            quoted_tokens@.len() == j,
            forall|k: int| 0 <= k < j ==> #[trigger] quoted_tokens@[k]@ == quoted(tokens@[k]@),
        decreases tokens@.len() - j,
    {
        let q = String::from_str("\"").concat(tokens[j].as_str()).concat("\"");
        quoted_tokens.push(q);
        j = j + 1;
    }
    assert(string_views(quoted_tokens@) =~= string_views(tokens@).map_values(
        |t: Seq<char>| quoted(t),
    ));
    Some(crate::text::join(&quoted_tokens, " AND "))
}

/// The row an AI summary request leaves: the existing row's id and creation time (a new id
/// and `now` for a first summary), the request's fields, and `now` as its update time.
pub fn ai_summary_record(
    existing: Option<(String, String)>,
    new_id: String,
    input: UpsertAiSummaryInput,
    now: String,
) -> (r: AiSummary)
    ensures
        match existing {
            Some((id, created_at)) => r.id == id && r.created_at == created_at,
            None => r.id == new_id && r.created_at == now,
        },
        r.updated_at == now,
        r.recording_id == input.recording_id,
        r.status == input.status,
        r.model_name == input.model_name,
        r.summary_text == input.summary_text,
        r.action_items_json == input.action_items_json,
        r.decisions_json == input.decisions_json,
        r.questions_json == input.questions_json,
        r.risks_json == input.risks_json,
        r.chapters_json == input.chapters_json,
        r.completed_at == input.completed_at,
        r.failure_message == input.failure_message,
{
    let (id, created_at) = match existing {
        Some((id, created_at)) => (id, created_at),
        None => (new_id, now.clone()),
    };
    AiSummary {
        id,
        recording_id: input.recording_id,
        status: input.status,
        model_name: input.model_name,
        summary_text: input.summary_text,
        action_items_json: input.action_items_json,
        decisions_json: input.decisions_json,
        questions_json: input.questions_json,
        risks_json: input.risks_json,
        chapters_json: input.chapters_json,
        created_at,
        updated_at: now,
        completed_at: input.completed_at,
        failure_message: input.failure_message,
    }
}

} // verus!
