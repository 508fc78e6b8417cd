use twitch_recover::hasher::hash;
use twitch_recover::probe::{classify, ProbeOutcome, SegmentProbe};
use twitch_recover::search::{
    candidates, exact_candidates, range_candidates, replay, SearchContext, SearchError, SearchRange,
};

fn hosts(names: &[&str]) -> Vec<String> {
    names.iter().map(|n| n.to_string()).collect()
}

#[test]
fn classify_maps_statuses() {
    assert_eq!(classify(Some(200)), ProbeOutcome::Success);
    assert_eq!(classify(Some(403)), ProbeOutcome::NotFound);
    assert_eq!(classify(Some(404)), ProbeOutcome::Throttled);
    assert_eq!(classify(Some(429)), ProbeOutcome::Throttled);
    assert_eq!(classify(Some(0)), ProbeOutcome::Throttled);
    assert_eq!(classify(None), ProbeOutcome::TransportError);
}

#[test]
fn outcome_predicates() {
    assert!(ProbeOutcome::Success.is_success());
    assert!(!ProbeOutcome::NotFound.is_success());
    assert!(!ProbeOutcome::Throttled.is_success());
    assert!(!ProbeOutcome::TransportError.is_success());
    assert!(ProbeOutcome::Success.is_conclusive());
    assert!(ProbeOutcome::NotFound.is_conclusive());
    assert!(!ProbeOutcome::Throttled.is_conclusive());
    assert!(!ProbeOutcome::TransportError.is_conclusive());
}

#[test]
fn segment_probe_needs_one_success() {
    let ok = ProbeOutcome::Success;
    let no = ProbeOutcome::NotFound;
    assert!(SegmentProbe { normal: ok, muted: no }.available());
    assert!(SegmentProbe { normal: no, muted: ok }.available());
    assert!(SegmentProbe { normal: ok, muted: ok }.available());
    assert!(!SegmentProbe { normal: no, muted: no }.available());
    assert!(!SegmentProbe { normal: ProbeOutcome::Throttled, muted: ProbeOutcome::TransportError }.available());
}

#[test]
fn range_validity() {
    assert!(SearchRange { from: 5, to: 5 }.is_valid());
    assert!(SearchRange { from: 5, to: 10 }.is_valid());
    assert!(!SearchRange { from: 10, to: 5 }.is_valid());
}

#[test]
fn reversed_range_is_refused() {
    let r = range_candidates("u", 7, SearchRange { from: 10, to: 5 }, &hosts(&["h"]));
    assert_eq!(r, Err(SearchError::InvalidRange));
}

#[test]
fn empty_username_is_refused() {
    let r = range_candidates("", 7, SearchRange { from: 1, to: 5 }, &hosts(&["h"]));
    assert_eq!(r, Err(SearchError::EmptyUsername));
    let r = range_candidates("", 7, SearchRange { from: 10, to: 5 }, &hosts(&["h"]));
    assert_eq!(r, Err(SearchError::EmptyUsername));
    assert!(matches!(exact_candidates("", 7, 1, &hosts(&["h"])), Err(SearchError::EmptyUsername)));
}

#[test]
fn error_messages() {
    assert_eq!(SearchError::EmptyUsername.message(), "the username is empty");
    assert_eq!(SearchError::InvalidRange.message(), "the range ends before it starts");
}

#[test]
fn single_timestamp_range_probes_one_timestamp() {
    let cdns = hosts(&["vod-secure.twitch.tv"]);
    let swept = range_candidates("u", 7, SearchRange { from: 100, to: 100 }, &cdns).unwrap();
    assert_eq!(swept, vec!["https://vod-secure.twitch.tv/b9ad1315df398a007319_u_7_100/chunked/index-dvr.m3u8".to_string()]);
    let exact = exact_candidates("u", 7, 100, &cdns).unwrap();
    assert_eq!(exact.len(), 1);
    assert_eq!(exact[0].playlist, swept[0]);
}

#[test]
fn range_is_inclusive_and_ordered() {
    let cdns = hosts(&["a.example", "b.example"]);
    let swept = range_candidates("u", 7, SearchRange { from: 100, to: 102 }, &cdns).unwrap();
    let expected = vec![
        "https://a.example/b9ad1315df398a007319_u_7_100/chunked/index-dvr.m3u8".to_string(),
        "https://b.example/b9ad1315df398a007319_u_7_100/chunked/index-dvr.m3u8".to_string(),
        "https://a.example/ae0de1fcdaa1005538a9_u_7_101/chunked/index-dvr.m3u8".to_string(),
        "https://b.example/ae0de1fcdaa1005538a9_u_7_101/chunked/index-dvr.m3u8".to_string(),
        "https://a.example/7af067fe765ded65cf7e_u_7_102/chunked/index-dvr.m3u8".to_string(),
        "https://b.example/7af067fe765ded65cf7e_u_7_102/chunked/index-dvr.m3u8".to_string(),
    ];
    assert_eq!(swept, expected);
}

#[test]
fn range_at_the_upper_bound_ends() {
    let cdns = hosts(&["h"]);
    let swept = range_candidates("u", 7, SearchRange { from: i64::MAX - 1, to: i64::MAX }, &cdns).unwrap();
    assert_eq!(swept.len(), 2);
    assert!(swept[1].ends_with("_u_7_9223372036854775807/chunked/index-dvr.m3u8"));
}

#[test]
fn range_without_hosts_is_empty() {
    let swept = range_candidates("u", 7, SearchRange { from: 1, to: 50 }, &Vec::new()).unwrap();
    assert!(swept.is_empty());
}

#[test]
fn candidates_follow_the_hosts() {
    let cdns = hosts(&["a.example", "b.example"]);
    let built = candidates("abc", "u", 7, 100, &cdns);
    assert_eq!(built.len(), 2);
    assert_eq!(built[0].fragment, "https://a.example/abc_u_7_100/chunked/1.ts");
    assert_eq!(built[1].fragment_muted, "https://b.example/abc_u_7_100/chunked/1-muted.ts");
    assert_eq!(built[1].playlist, "https://b.example/abc_u_7_100/chunked/index-dvr.m3u8");
}

#[test]
fn exact_candidates_use_the_hash() {
    let cdns = hosts(&["a.example"]);
    let built = exact_candidates("u", 7, 100, &cdns).unwrap();
    let h = hash("u", 7, 100);
    assert_eq!(built[0].fragment, format!("https://a.example/{}_u_7_100/chunked/1.ts", h));
}

#[test]
fn fresh_context_dispatches() {
    let ctx = SearchContext::new();
    assert!(ctx.should_dispatch());
    assert_eq!(ctx.winner(), None);
    let result = ctx.conclude(true);
    assert!(!result.found);
    assert_eq!(result.url, None);
    assert_eq!(result.available, None);
}

#[test]
fn first_success_wins() {
    let mut ctx = SearchContext::new();
    ctx.record("first", ProbeOutcome::NotFound);
    assert!(ctx.should_dispatch());
    ctx.record("second", ProbeOutcome::Success);
    assert!(!ctx.should_dispatch());
    ctx.record("third", ProbeOutcome::Success);
    ctx.record("fourth", ProbeOutcome::TransportError);
    assert_eq!(ctx.winner(), Some("second".to_string()));
    let result = ctx.conclude(false);
    assert!(result.found);
    assert_eq!(result.url, Some("second".to_string()));
    assert_eq!(result.available, Some(false));
}

#[test]
fn mocked_prober_stops_after_the_first_success() {
    let cdns = hosts(&["h"]);
    let urls = range_candidates("u", 7, SearchRange { from: 50, to: 250 }, &cdns).unwrap();
    assert_eq!(urls.len(), 201);
    let mut calls = 0;
    let mut ctx = SearchContext::new();
    for (k, url) in urls.iter().enumerate() {
        if ctx.should_dispatch() {
            calls += 1;
            let timestamp = 50 + k as i64;
            let status = if timestamp == 100 || timestamp == 150 || timestamp == 200 { 200 } else { 403 };
            ctx.record(url, classify(Some(status)));
        }
    }
    assert_eq!(calls, 51);
    let winner = ctx.winner().unwrap();
    assert_eq!(winner, urls[50]);
    let wins = [100usize, 150, 200].iter().filter(|t| urls[**t - 50] == winner).count();
    assert_eq!(wins, 1);
}

#[test]
fn all_refusals_find_nothing() {
    let cdns = hosts(&["h"]);
    let urls = range_candidates("u", 7, SearchRange { from: 1, to: 1000 }, &cdns).unwrap();
    assert_eq!(urls.len(), 1000);
    let outcomes = vec![classify(Some(403)); 1000];
    let ctx = replay(&urls, &outcomes);
    assert_eq!(ctx.winner(), None);
    assert!(ctx.should_dispatch());
    assert!(!ctx.conclude(true).found);
}

#[test]
fn one_failed_connection_does_not_end_the_sweep() {
    let urls: Vec<String> = (0..10).map(|k| format!("url{}", k)).collect();
    let mut outcomes = vec![classify(Some(403)); 10];
    outcomes[3] = classify(None);
    let ctx = replay(&urls, &outcomes);
    assert_eq!(ctx.winner(), None);
    outcomes[7] = classify(Some(200));
    let ctx = replay(&urls, &outcomes);
    assert_eq!(ctx.winner(), Some("url7".to_string()));
}

#[test]
fn replay_takes_the_first_success() {
    let urls: Vec<String> = (0..5).map(|k| format!("url{}", k)).collect();
    let outcomes = vec![
        ProbeOutcome::Throttled,
        ProbeOutcome::Success,
        ProbeOutcome::NotFound,
        ProbeOutcome::Success,
        ProbeOutcome::Success,
    ];
    assert_eq!(replay(&urls, &outcomes).winner(), Some("url1".to_string()));
}

#[test]
fn replay_ignores_what_has_no_partner() {
    let urls: Vec<String> = (0..2).map(|k| format!("url{}", k)).collect();
    let outcomes = vec![ProbeOutcome::NotFound, ProbeOutcome::NotFound, ProbeOutcome::Success];
    assert_eq!(replay(&urls, &outcomes).winner(), None);
    let outcomes = vec![ProbeOutcome::NotFound];
    assert_eq!(replay(&urls, &outcomes).winner(), None);
    assert_eq!(replay(&Vec::new(), &Vec::new()).winner(), None);
}

#[test]
fn exact_result_takes_the_first_playlist() {
    let found = twitch_recover::search::SearchResult::from_valid_playlists(&vec!["a".to_string(), "b".to_string()]);
    assert!(found.found);
    assert_eq!(found.url, Some("a".to_string()));
    assert_eq!(found.available, Some(true));
    let none = twitch_recover::search::SearchResult::from_valid_playlists(&Vec::new());
    assert!(!none.found);
    assert_eq!(none.url, None);
    assert_eq!(none.available, None);
}

#[test]
fn cancelled_follows_the_winner() {
    let mut ctx = SearchContext::new();
    assert!(!ctx.is_cancelled());
    ctx.record("x", ProbeOutcome::Throttled);
    assert!(!ctx.is_cancelled());
    ctx.record("y", ProbeOutcome::Success);
    assert!(ctx.is_cancelled());
}
