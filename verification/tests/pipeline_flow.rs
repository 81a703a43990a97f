use rusty_musicbot::pipeline::{
    ingest_outcomes, Pipeline, ResolverAction, DEFAULT_CHUNK_SIZE,
};
use rusty_musicbot::queue::TrackQueue;
use rusty_musicbot::records::{extract_members, parse_track_meta};
use rusty_musicbot::request::{classify, ResolutionRequest};
use rusty_musicbot::track::{ResolutionOutcome, ResolveFailure, Track};

fn track(title: &str) -> Track {
    Track {
        title: Some(title.to_string()),
        source: format!("https://example.com/{}", title),
        duration_secs: None,
        artist: None,
        source_url: None,
    }
}

fn resolved(title: &str) -> ResolutionOutcome {
    ResolutionOutcome::Resolved(track(title))
}

fn failed(why: &str) -> ResolutionOutcome {
    ResolutionOutcome::Failed(ResolveFailure {
        diagnostic: why.to_string(),
    })
}

#[test]
fn direct_url_classifies_and_yields_one_result() {
    let request = classify("https://youtube.com/watch?v=abc".to_string());
    assert!(matches!(request, ResolutionRequest::DirectUrl(_)));

    let (mut pipeline, action) = Pipeline::start(request, DEFAULT_CHUNK_SIZE);
    match action {
        ResolverAction::FetchSingle(url) => {
            assert_eq!(url, "https://youtube.com/watch?v=abc");
        }
        _ => panic!("a direct URL must ask for one single resolution"),
    }
    let (yielded, next) = pipeline.on_single(resolved("the one"));
    assert_eq!(yielded.len(), 1);
    assert!(matches!(next, ResolverAction::Finished));
    assert!(!pipeline.listing_failed);
}

#[test]
fn search_phrase_classifies_and_yields_one_result() {
    let request = classify("lofi beats".to_string());
    assert!(matches!(request, ResolutionRequest::SearchPhrase(_)));

    let (mut pipeline, action) = Pipeline::start(request, DEFAULT_CHUNK_SIZE);
    match action {
        ResolverAction::FetchSearch(phrase) => assert_eq!(phrase, "lofi beats"),
        _ => panic!("a search phrase must ask for one search resolution"),
    }
    let (yielded, next) = pipeline.on_single(resolved("top hit"));
    assert_eq!(yielded.len(), 1);
    assert!(matches!(next, ResolverAction::Finished));
}

#[test]
fn playlist_url_classification_needs_host_path_and_list_key() {
    let playlist = classify("https://youtube.com/playlist?list=XYZ".to_string());
    assert!(matches!(playlist, ResolutionRequest::PlaylistUrl(_)));
    let www = classify("https://www.youtube.com/playlist?list=XYZ".to_string());
    assert!(matches!(www, ResolutionRequest::PlaylistUrl(_)));
    let music = classify("https://music.youtube.com/playlist?list=OK".to_string());
    assert!(matches!(music, ResolutionRequest::PlaylistUrl(_)));

    let wrong_path = classify("https://youtube.com/watch?list=XYZ".to_string());
    assert!(matches!(wrong_path, ResolutionRequest::DirectUrl(_)));
    let no_list = classify("https://youtube.com/playlist?index=2".to_string());
    assert!(matches!(no_list, ResolutionRequest::DirectUrl(_)));
    let other_host = classify("https://example.com/playlist?list=XYZ".to_string());
    assert!(matches!(other_host, ResolutionRequest::DirectUrl(_)));
    let not_a_url = classify("relaxing piano music".to_string());
    assert!(matches!(not_a_url, ResolutionRequest::SearchPhrase(_)));
}

#[test]
fn playlist_of_45_resolves_in_chunks_of_20_20_5_in_order() {
    let members: Vec<String> = (0..45).map(|i| format!("https://m/{:02}", i)).collect();

    let request = classify("https://youtube.com/playlist?list=XYZ".to_string());
    let (mut pipeline, action) = Pipeline::start(request, 20);
    assert!(matches!(action, ResolverAction::ListPlaylist(_)));

    let mut action = pipeline.on_listing(Ok(members.clone()));
    let mut chunk_sizes: Vec<usize> = Vec::new();
    let mut yielded_titles: Vec<String> = Vec::new();
    loop {
        match action {
            ResolverAction::ResolveChunk(chunk) => {
                chunk_sizes.push(chunk.len());
                // Resolve the chunk's members, in member order.
                let results: Vec<_> = chunk.iter().map(|m| resolved(m)).collect();
                let (yielded, next) = pipeline.on_chunk(results);
                for outcome in yielded {
                    match outcome {
                        ResolutionOutcome::Resolved(t) => {
                            yielded_titles.push(t.title.unwrap())
                        }
                        ResolutionOutcome::Failed(_) => panic!("no failures were fed"),
                    }
                }
                action = next;
            }
            ResolverAction::Finished => break,
            _ => panic!("a playlist run only resolves chunks"),
        }
    }
    assert_eq!(chunk_sizes, vec![20, 20, 5]);
    assert_eq!(yielded_titles, members);
    assert!(!pipeline.listing_failed);
}

#[test]
fn failed_listing_yields_zero_results_and_reports_pipeline_failure() {
    let request = ResolutionRequest::PlaylistUrl("https://youtube.com/playlist?list=X".to_string());
    let (mut pipeline, _) = Pipeline::start(request, DEFAULT_CHUNK_SIZE);
    let action = pipeline.on_listing(Err(ResolveFailure {
        diagnostic: "resolver exited with an error".to_string(),
    }));
    assert!(matches!(action, ResolverAction::Finished));
    assert!(pipeline.listing_failed);
}

#[test]
fn empty_listing_finishes_quietly() {
    let request = ResolutionRequest::PlaylistUrl("https://youtube.com/playlist?list=X".to_string());
    let (mut pipeline, _) = Pipeline::start(request, DEFAULT_CHUNK_SIZE);
    let action = pipeline.on_listing(Ok(Vec::new()));
    assert!(matches!(action, ResolverAction::Finished));
    assert!(!pipeline.listing_failed);
}

#[test]
fn ingest_appends_successes_in_order_and_counts_failures() {
    let mut q = TrackQueue::new();
    q.enqueue(track("already here"));

    let outcomes = vec![
        resolved("a"),
        failed("timeout"),
        resolved("b"),
        failed("malformed record"),
        resolved("c"),
    ];
    let report = ingest_outcomes(&mut q, outcomes);
    assert_eq!(report.added, 3);
    assert_eq!(report.failed, 2);
    let titles: Vec<String> = q.overview().into_iter().map(|e| e.title).collect();
    assert_eq!(
        titles,
        vec![
            "already here".to_string(),
            "a".to_string(),
            "b".to_string(),
            "c".to_string(),
        ]
    );
}

#[test]
fn ingest_with_no_success_reports_nothing_added() {
    let mut q = TrackQueue::new();
    let report = ingest_outcomes(&mut q, vec![failed("x"), failed("y")]);
    assert_eq!(report.added, 0);
    assert_eq!(report.failed, 2);
    assert!(q.is_empty());
}

#[test]
fn extract_members_reads_urls_in_source_order() {
    let bytes = "{\"url\":\"https://m/1\",\"title\":\"one\"}\n{\"url\":\"https://m/2\"}\n{\"url\":\"https://m/3\",\"duration\":9}\n"
    .as_bytes();
    let members = extract_members(bytes).expect("every record names its URL");
    assert_eq!(
        members,
        vec![
            "https://m/1".to_string(),
            "https://m/2".to_string(),
            "https://m/3".to_string(),
        ]
    );
}

#[test]
fn extract_members_rejects_a_record_without_url() {
    let bytes = "{\"url\":\"https://m/1\"}\n{\"title\":\"no url here\"}\n{\"url\":\"https://m/3\"}\n"
    .as_bytes();
    assert!(extract_members(bytes).is_err());
}

#[test]
fn extract_members_of_empty_output_is_an_empty_listing() {
    let members = extract_members(b"").expect("no records, no missing URLs");
    assert!(members.is_empty());
}

#[test]
fn parse_track_meta_reads_the_first_record() {
    let bytes = "{\"title\":\"A Song\",\"webpage_url\":\"https://w/1\",\"artist\":\"Someone\",\"duration\":125}\n{\"title\":\"ignored\",\"webpage_url\":\"https://w/2\"}\n"
    .as_bytes();
    let t = parse_track_meta(bytes).expect("first record has a page URL");
    assert_eq!(t.title.as_deref(), Some("A Song"));
    assert_eq!(t.source, "https://w/1");
    assert_eq!(t.source_url.as_deref(), Some("https://w/1"));
    assert_eq!(t.artist.as_deref(), Some("Someone"));
    assert_eq!(t.duration_secs, Some(125));
}

#[test]
fn parse_track_meta_without_page_url_is_a_failure() {
    assert!(parse_track_meta(b"").is_none());
    assert!(parse_track_meta(b"{\"title\":\"no url\"}").is_none());
}
