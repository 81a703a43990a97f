//! Parsing of the resolver tool's output: a stream of structured
//! records, one JSON document per line, read incrementally. Any
//! malformed output is a resolution failure for that invocation,
//! never a crash.

use vstd::prelude::*;

use crate::request::str_views;
use crate::track::{ResolveFailure, Track};

verus! {

/// How many well-formed JSON documents a resolver output holds.
pub uninterp spec fn json_doc_count(bytes: Seq<u8>) -> nat;

/// The named string field of each well-formed JSON document in a
/// resolver output, in document order; `None` where a document lacks
/// the field or holds it with another type.
pub uninterp spec fn json_str_fields(bytes: Seq<u8>, field: Seq<char>) -> Seq<Option<Seq<char>>>;

/// Relies on serde_json's `Deserializer::from_slice` and
/// `StreamDeserializer` to split the bytes into the stream of
/// well-formed JSON documents they hold (ill-formed trailing input is
/// skipped), and on `Value::get` and `Value::as_str` to read one
/// string field of each document: all functions of the bytes and the
/// field name alone, one output element per document.
#[verifier::external_body]
pub(crate) fn parse_doc_fields(output: &[u8], field: &str) -> (r: Vec<Option<String>>)
    ensures
        r.deep_view() == json_str_fields(output@, field@),
        r.deep_view().len() == json_doc_count(output@),
{
    serde_json::Deserializer::from_slice(output)
        .into_iter::<serde_json::Value>()
        .filter_map(|doc| doc.ok())
        .map(|doc| doc.get(field).and_then(|v| v.as_str()).map(|s| s.to_string()))
        .collect()
}

/// The named integral field of each well-formed JSON document in a
/// resolver output, in document order; `None` where a document lacks
/// the field or holds it with another type. A fractional duration is
/// not integral and reads as `None`.
pub uninterp spec fn json_u64_fields(bytes: Seq<u8>, field: Seq<char>) -> Seq<Option<u64>>;

/// Relies on serde_json's `Deserializer::from_slice` and
/// `StreamDeserializer` as above, and on `Value::get` and
/// `Value::as_u64` to read one unsigned integral field of each
/// document: functions of the bytes and the field name alone, one
/// output element per document.
#[verifier::external_body]
fn parse_doc_u64_fields(output: &[u8], field: &str) -> (r: Vec<Option<u64>>)
    ensures
        r@ == json_u64_fields(output@, field@),
        r@.len() == json_doc_count(output@),
{
    serde_json::Deserializer::from_slice(output)
        .into_iter::<serde_json::Value>()
        .filter_map(|doc| doc.ok())
        .map(|doc| doc.get(field).and_then(|v| v.as_u64()))
        .collect()
}

/// The field every flat-listing record must carry: the member's URL.
pub open spec fn listing_fields(bytes: Seq<u8>) -> Seq<Option<Seq<char>>> {
    json_str_fields(bytes, "url"@)
}

/// Whether a flat listing is well formed: every record names its
/// member URL.
pub open spec fn listing_ok(bytes: Seq<u8>) -> bool {
    forall|i: int| 0 <= i < listing_fields(bytes).len() ==> listing_fields(bytes)[i] is Some
}

/// The member URLs of a well-formed flat listing, in source order.
pub open spec fn listing_members(bytes: Seq<u8>) -> Seq<Seq<char>> {
    Seq::new(listing_fields(bytes).len(), |i: int| listing_fields(bytes)[i].unwrap())
}

/// Reads a flat playlist listing: the member URLs in source order, or
/// a failure exactly when some record does not name its URL. An empty
/// or unparseable output yields no records, hence an empty listing.
pub fn extract_members(output: &[u8]) -> (r: Result<Vec<String>, ResolveFailure>)
    ensures
        r is Ok <==> listing_ok(output@),
        r matches Ok(ms) ==> str_views(ms@) == listing_members(output@),
{
    let fields = parse_doc_fields(output, "url");
    let mut members: Vec<String> = Vec::new();
    let n = fields.len();
    let mut i: usize = 0;
    proof {
        reveal_strlit("url");
    }
    while i < n
        invariant
            i <= n,
            n == fields@.len(),
            fields.deep_view() == listing_fields(output@),
            members@.len() == i,
            forall|j: int| 0 <= j < i ==> fields.deep_view()[j] is Some,
            forall|j: int| 0 <= j < i ==> members@[j]@ == fields.deep_view()[j].unwrap(),
        decreases n - i,
    {
        match &fields[i] {
            Some(url) => {
                let u = url.clone();
                members.push(u);
            },
            None => {
                proof {
                    assert(listing_fields(output@)[i as int] is None);
                }
                return Result::Err(
                    ResolveFailure {
                        diagnostic: String::from_str("listing record without a member URL"),
                    },
                );
            },
        }
        i += 1;
    }
    proof {
        assert(str_views(members@) =~= listing_members(output@));
    }
    Result::Ok(members)
}

fn clone_opt_string(o: &Option<String>) -> (r: Option<String>)
    ensures
        r == *o,
{
    match o {
        Some(s) => Some(s.clone()),
        None => None,
    }
}

/// Builds the track that a single-track resolution output describes,
/// from its first record: the page URL is required (it is both the
/// source reference handed to the audio engine and the public page);
/// title, artist and integral duration are taken when present. An
/// output with no record, or whose first record has no page URL, is a
/// resolution failure.
pub fn parse_track_meta(output: &[u8]) -> (r: Option<Track>)
    ensures
        r is Some <==> (json_doc_count(output@) > 0 && json_str_fields(output@, "webpage_url"@)[0]
            is Some),
        r matches Some(t) ==> ({
            &&& t.title.deep_view() == json_str_fields(output@, "title"@)[0]
            &&& Some(t.source@) == json_str_fields(output@, "webpage_url"@)[0]
            &&& t.source_url.deep_view() == json_str_fields(output@, "webpage_url"@)[0]
            &&& t.artist.deep_view() == json_str_fields(output@, "artist"@)[0]
            &&& t.duration_secs == json_u64_fields(output@, "duration"@)[0]
        }),
{
    proof {
        reveal_strlit("title");
        reveal_strlit("webpage_url");
        reveal_strlit("artist");
        reveal_strlit("duration");
    }
    let titles = parse_doc_fields(output, "title");
    let urls = parse_doc_fields(output, "webpage_url");
    let artists = parse_doc_fields(output, "artist");
    let durations = parse_doc_u64_fields(output, "duration");
    if urls.len() == 0 {
        return None;
    }
    match &urls[0] {
        Some(u) => Some(
            Track {
                title: clone_opt_string(&titles[0]),
                source: u.clone(),
                duration_secs: durations[0],
                artist: clone_opt_string(&artists[0]),
                source_url: Some(u.clone()),
            },
        ),
        None => None,
    }
}

} // verus!
