//! The transcription history: its entries and the full-text search query built
//! from what the user types.
use vstd::prelude::*;

use crate::text::{all_white, chars_of, is_whitespace_char, str_eq};

verus! {

/// How many entries the history view asks for.
pub const HISTORY_LIST_LIMIT: i64 = 200;

/// One stored transcription.
#[derive(Debug, Clone)]
pub struct HistoryEntry {
    pub id: i64,
    pub text: String,
    pub created_at: String,
    pub audio_path: Option<String>,
    pub language: Option<String>,
    pub duration_ms: i64,
}

/// `s` with every double quote removed.
pub open spec fn strip_quotes(s: Seq<char>) -> Seq<char>
    decreases s.len(),
{
    if s.len() == 0 {
        s
    } else if s.last() == '"' {
        strip_quotes(s.drop_last())
    } else {
        strip_quotes(s.drop_last()).push(s.last())
    }
}

/// The full-text query for what the user typed: nothing (list the latest entries)
/// when the box is empty or holds only whitespace, otherwise the text with its
/// double quotes removed, so that it cannot break the query syntax.
pub open spec fn spec_search_query(query: Option<Seq<char>>) -> Option<Seq<char>> {
    match query {
        None => None,
        Some(q) => if all_white(q) { None } else { Some(strip_quotes(q)) },
    }
}

proof fn lemma_strip_no_quote(s: Seq<char>)
    requires
        forall|i: int| 0 <= i < s.len() ==> s[i] != '"',
    ensures
        strip_quotes(s) == s,
    decreases s.len(),
{
    if s.len() > 0 {
        lemma_strip_no_quote(s.drop_last());
        assert(s.drop_last().push(s.last()) =~= s);
    }
}

proof fn lemma_strip_append(a: Seq<char>, b: Seq<char>)
    ensures
        strip_quotes(a + b) == strip_quotes(a) + strip_quotes(b),
    decreases b.len(),
{
    if b.len() == 0 {
        assert(a + b =~= a);
        assert(strip_quotes(a) + strip_quotes(b) =~= strip_quotes(a));
    } else {
        lemma_strip_append(a, b.drop_last());
        assert((a + b).drop_last() =~= a + b.drop_last());
        assert((a + b).last() == b.last());
        if b.last() != '"' {
            assert(strip_quotes(a) + strip_quotes(b.drop_last()).push(b.last()) =~= (strip_quotes(a)
                + strip_quotes(b.drop_last())).push(b.last()));
        }
    }
}

/// The query sent to the full-text index holds no double quote, and stripping is
/// idempotent: a query already free of quotes passes unchanged.
pub proof fn lemma_strip_quotes_leaves_none(s: Seq<char>)
    ensures
        forall|i: int| 0 <= i < strip_quotes(s).len() ==> strip_quotes(s)[i] != '"',
        strip_quotes(strip_quotes(s)) == strip_quotes(s),
        strip_quotes(s).len() <= s.len(),
    decreases s.len(),
{
    if s.len() > 0 {
        lemma_strip_quotes_leaves_none(s.drop_last());
        let t = strip_quotes(s.drop_last());
        if s.last() != '"' {
            assert forall|i: int| 0 <= i < t.push(s.last()).len() implies t.push(s.last())[i] != '"' by {
                if i < t.len() {
                    assert(t.push(s.last())[i] == t[i]);
                }
            }
        }
        lemma_strip_no_quote(strip_quotes(s));
    }
}

/// `s` with every double quote removed.
pub fn remove_quotes(s: &str) -> (r: String)
    ensures
        r@ == strip_quotes(s@),
{
    let v = chars_of(s);
    let n = v.len();
    let mut res = String::new();
    let mut seg: usize = 0;
    let mut i: usize = 0;
    while i < n
        invariant
            v@ == s@,
            n == v.len(),
            seg <= i <= n,
            res@ == strip_quotes(s@.subrange(0, seg as int)),
            forall|j: int| seg <= j < i ==> s@[j] != '"',
        decreases n - i,
    {
        if v[i] == '"' {
            let piece = s.substring_char(seg, i);
            proof {
                let a = s@.subrange(0, seg as int);
                let b = s@.subrange(seg as int, i as int);
                lemma_strip_no_quote(b);
                lemma_strip_append(a, b);
                assert(a + b =~= s@.subrange(0, i as int));
                assert(s@.subrange(0, i + 1).drop_last() =~= s@.subrange(0, i as int));
            }
            res.append(piece);
            seg = i + 1;
        }
        i = i + 1;
    }
    let piece = s.substring_char(seg, n);
    proof {
        let a = s@.subrange(0, seg as int);
        let b = s@.subrange(seg as int, n as int);
        lemma_strip_no_quote(b);
        lemma_strip_append(a, b);
        assert(a + b =~= s@);
    }
    res.append(piece);
    res
}

/// Whether `s` is empty or made of whitespace only.
pub fn is_blank(s: &str) -> (b: bool)
    ensures
        b == all_white(s@),
{
    let v = chars_of(s);
    let n = v.len();
    let mut i: usize = 0;
    while i < n
        invariant
            v@ == s@,
            n == v.len(),
            i <= n,
            forall|j: int| 0 <= j < i ==> crate::text::is_white_space(#[trigger] s@[j]),
        decreases n - i,
    {
        if !is_whitespace_char(v[i]) {
            return false;
        }
        i = i + 1;
    }
    true
}

/// The full-text search query for the text the user typed, if any: `None` when
/// there is no text or only whitespace (the latest entries are listed instead),
/// otherwise the text with double quotes removed.
pub fn search_query(query: Option<&str>) -> (r: Option<String>)
    ensures
        r matches Some(s) ==> spec_search_query(match query { Some(q) => Some(q@), None => None }) == Some(s@),
        r is None ==> spec_search_query(match query { Some(q) => Some(q@), None => None }) is None,
{
    match query {
        None => None,
        Some(q) => {
            if is_blank(q) {
                None
            } else {
                Some(remove_quotes(q))
            }
        },
    }
}

/// The language recorded with a transcript: none when the recogniser detected it
/// automatically (setting "auto"), otherwise the configured language.
pub fn recorded_language(language: &str) -> (r: Option<String>)
    ensures
        language@ == "auto"@ ==> r is None,
        language@ != "auto"@ ==> (r matches Some(l) && l@ == language@),
{
    if str_eq(language, "auto") {
        None
    } else {
        Some(language.to_string())
    }
}

} // verus!
