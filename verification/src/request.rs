//! Classification of a user-supplied string into a resolution request:
//! a playlist URL, any other URL, or a search phrase. Classification
//! is pure and has no side effects.

use vstd::prelude::*;

verus! {

/// The components of a parsed absolute URL that classification reads.
pub ghost struct UrlView {
    pub host: Option<Seq<char>>,
    pub path: Seq<char>,
    pub query_keys: Seq<Seq<char>>,
}

/// The view of each string in `v`, in order.
pub open spec fn str_views(v: Seq<String>) -> Seq<Seq<char>> {
    Seq::new(v.len(), |i: int| v[i]@)
}

/// What a string parses to as an absolute URL: its host, path and
/// query-parameter keys, or nothing when it is not a URL at all.
pub uninterp spec fn parsed_url(s: Seq<char>) -> Option<UrlView>;

/// The components of one parsed URL, as plain values.
pub struct UrlParts {
    pub host: Option<String>,
    pub path: String,
    pub query_keys: Vec<String>,
}

impl View for UrlParts {
    type V = UrlView;

    open spec fn view(&self) -> UrlView {
        UrlView {
            host: match self.host {
                Some(h) => Some(h@),
                None => None,
            },
            path: self.path@,
            query_keys: str_views(self.query_keys@),
        }
    }
}

/// Relies on url's `Url::parse` and the accessors `host_str`, `path`
/// and `query_pairs`: whether a string parses, and the host, path and
/// query keys of the parsed URL, are functions of the string alone.
#[verifier::external_body]
fn parse_url(input: &str) -> (r: Option<UrlParts>)
    ensures
        r is Some <==> parsed_url(input@) is Some,
        r matches Some(p) ==> parsed_url(input@) == Some(p@),
{
    match url::Url::parse(input) {
        Ok(u) => Some(UrlParts {
            host: u.host_str().map(|h| h.to_string()),
            path: u.path().to_string(),
            query_keys: u.query_pairs().map(|(k, _)| k.into_owned()).collect(),
        }),
        Err(_) => None,
    }
}

/// The hosts whose `/playlist` pages the resolver can flat-list.
pub open spec fn known_playlist_host(h: Seq<char>) -> bool {
    ||| h == "youtube.com"@
    ||| h == "music.youtube.com"@
    ||| h == "www.youtube.com"@
}

/// Whether a parsed URL names a playlist view: a known video-platform
/// host, the playlist path, and a playlist identifier in the query.
pub open spec fn is_playlist_view(u: UrlView) -> bool {
    &&& u.host matches Some(h) && known_playlist_host(h)
    &&& u.path == "/playlist"@
    &&& u.query_keys.contains("list"@)
}

/// A user-supplied input, classified. The payload is the input string
/// itself.
pub enum ResolutionRequest {
    /// A URL of a single track or stream.
    DirectUrl(String),
    /// Free text to search for.
    SearchPhrase(String),
    /// A URL of a playlist to expand member by member.
    PlaylistUrl(String),
}

fn has_list_key(keys: &Vec<String>) -> (r: bool)
    ensures
        r == str_views(keys@).contains("list"@),
{
    let target = String::from_str("list");
    let n = keys.len();
    let mut i: usize = 0;
    while i < n
        invariant
            i <= n,
            n == keys.len(),
            target@ == "list"@,
            forall|j: int| 0 <= j < i ==> str_views(keys@)[j] != "list"@,
        decreases n - i,
    {
        if keys[i] == target {
            proof {
                assert(str_views(keys@)[i as int] == "list"@);
            }
            return true;
        }
        i += 1;
    }
    proof {
        assert forall|j: int| 0 <= j < str_views(keys@).len() implies str_views(keys@)[j]
            != "list"@ by {}
    }
    false
}

fn is_playlist_parts(p: &UrlParts) -> (r: bool)
    ensures
        r == is_playlist_view(p@),
{
    let host_ok = match &p.host {
        Some(h) => *h == String::from_str("youtube.com") || *h == String::from_str(
            "music.youtube.com",
        ) || *h == String::from_str("www.youtube.com"),
        None => false,
    };
    let path_ok = p.path == String::from_str("/playlist");
    host_ok && path_ok && has_list_key(&p.query_keys)
}

/// Classifies an input string, in order: a URL whose host, path and
/// query mark a playlist view is a playlist request; any other URL is
/// a direct request; everything else is a search phrase.
pub fn classify(input: String) -> (r: ResolutionRequest)
    ensures
        parsed_url(input@) matches Some(u) && is_playlist_view(u) ==> r
            == ResolutionRequest::PlaylistUrl(input),
        parsed_url(input@) matches Some(u) && !is_playlist_view(u) ==> r
            == ResolutionRequest::DirectUrl(input),
        parsed_url(input@) is None ==> r == ResolutionRequest::SearchPhrase(input),
{
    match parse_url(input.as_str()) {
        Some(parts) => {
            if is_playlist_parts(&parts) {
                ResolutionRequest::PlaylistUrl(input)
            } else {
                ResolutionRequest::DirectUrl(input)
            }
        },
        None => ResolutionRequest::SearchPhrase(input),
    }
}

} // verus!
