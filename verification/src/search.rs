//! Search-by-phrase support: parsing the resolver's candidate records
//! and deciding what a user's selection (or the lack of one) means.

use vstd::prelude::*;

use crate::records::{json_str_fields, parse_doc_fields};

verus! {

/// How many candidate results a search asks the resolver for.
pub const SEARCH_RESULT_COUNT: usize = 4;

/// How long, in seconds, a user has to select among the candidates
/// before the operation is abandoned.
pub const SELECTION_TIMEOUT_SECS: u64 = 60;

/// One candidate found by a search: its title and its page URL.
pub struct SearchEntry {
    pub title: String,
    pub url: String,
}

/// The title field of each record of a search output.
pub open spec fn search_titles(bytes: Seq<u8>) -> Seq<Option<Seq<char>>> {
    json_str_fields(bytes, "title"@)
}

/// The page-URL field of each record of a search output.
pub open spec fn search_urls(bytes: Seq<u8>) -> Seq<Option<Seq<char>>> {
    json_str_fields(bytes, "webpage_url"@)
}

/// The (title, URL) pairs of the records that carry both fields, in
/// record order; records missing either field are skipped.
pub open spec fn paired_entries(ts: Seq<Option<Seq<char>>>, us: Seq<Option<Seq<char>>>) -> Seq<
    (Seq<char>, Seq<char>),
>
    decreases ts.len(),
{
    if ts.len() == 0 || us.len() == 0 {
        Seq::empty()
    } else {
        let init = paired_entries(ts.drop_last(), us.drop_last());
        if ts.last() is Some && us.last() is Some {
            init.push((ts.last().unwrap(), us.last().unwrap()))
        } else {
            init
        }
    }
}

/// The views of a list of search entries, in order.
pub open spec fn entry_views(es: Seq<SearchEntry>) -> Seq<(Seq<char>, Seq<char>)> {
    Seq::new(es.len(), |i: int| (es[i].title@, es[i].url@))
}

/// Parses a search output into its candidate entries: one entry per
/// record that names both a title and a page URL, in record order.
pub fn parse_search_results(output: &[u8]) -> (r: Vec<SearchEntry>)
    ensures
        entry_views(r@) == paired_entries(search_titles(output@), search_urls(output@)),
{
    proof {
        reveal_strlit("title");
        reveal_strlit("webpage_url");
    }
    let titles = parse_doc_fields(output, "title");
    let urls = parse_doc_fields(output, "webpage_url");
    let mut entries: Vec<SearchEntry> = Vec::new();
    let n = titles.len();
    let mut i: usize = 0;
    while i < n
        invariant
            i <= n,
            n == titles@.len(),
            n == urls@.len(),
            titles.deep_view() == search_titles(output@),
            urls.deep_view() == search_urls(output@),
            entry_views(entries@) == paired_entries(
                titles.deep_view().subrange(0, i as int),
                urls.deep_view().subrange(0, i as int),
            ),
        decreases n - i,
    {
        let ghost ts = titles.deep_view().subrange(0, i + 1);
        let ghost us = urls.deep_view().subrange(0, i + 1);
        proof {
            assert(ts.drop_last() =~= titles.deep_view().subrange(0, i as int));
            assert(us.drop_last() =~= urls.deep_view().subrange(0, i as int));
        }
        match (&titles[i], &urls[i]) {
            (Some(t), Some(u)) => {
                let entry = SearchEntry { title: t.clone(), url: u.clone() };
                entries.push(entry);
            },
            _ => {},
        }
        proof {
            assert(entry_views(entries@) =~= paired_entries(ts, us));
        }
        i += 1;
    }
    proof {
        assert(titles.deep_view().subrange(0, n as int) =~= titles.deep_view());
        assert(urls.deep_view().subrange(0, n as int) =~= urls.deep_view());
    }
    entries
}

/// What ended the interactive selection: the user picked a candidate,
/// or the wait timed out.
pub enum SelectionEvent {
    Chosen(usize),
    TimedOut,
}

/// What the session does about the selection. A timeout is reported
/// distinctly: the operation is abandoned, not retried.
pub enum SelectionOutcome {
    /// Resolve and play this URL.
    Play(String),
    /// The chosen position names no candidate.
    NoSuchChoice,
    /// The wait expired with no selection.
    Abandoned,
}

/// Decides what a selection event means against the candidate list:
/// a valid choice plays that candidate's URL, an out-of-range choice
/// is reported, and a timeout abandons the operation.
pub fn select_search_result(results: &Vec<SearchEntry>, event: SelectionEvent) -> (r:
    SelectionOutcome)
    ensures
        event is TimedOut ==> r is Abandoned,
        event matches SelectionEvent::Chosen(i) ==> ((i < results@.len() ==> (r
            matches SelectionOutcome::Play(u) && u == results@[i as int].url)) && (i
            >= results@.len() ==> r is NoSuchChoice)),
{
    match event {
        SelectionEvent::Chosen(i) => {
            if i < results.len() {
                SelectionOutcome::Play(results[i].url.clone())
            } else {
                SelectionOutcome::NoSuchChoice
            }
        },
        SelectionEvent::TimedOut => SelectionOutcome::Abandoned,
    }
}

} // verus!
