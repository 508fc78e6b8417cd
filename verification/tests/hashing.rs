use twitch_recover::hasher::{hash, identity_key, truncate_hash};
use twitch_recover::text::{decimal_string, ends_with, push_decimal};
use twitch_recover::urls::{build, directory_url, playlist_url};

#[test]
fn decimal_of_small_numbers() {
    assert_eq!(decimal_string(0), "0");
    assert_eq!(decimal_string(7), "7");
    assert_eq!(decimal_string(10), "10");
    assert_eq!(decimal_string(1605211333), "1605211333");
    assert_eq!(decimal_string(-1), "-1");
    assert_eq!(decimal_string(-120), "-120");
}

#[test]
fn decimal_of_the_bounds() {
    assert_eq!(decimal_string(i64::MAX), "9223372036854775807");
    assert_eq!(decimal_string(i64::MIN), "-9223372036854775808");
}

#[test]
fn push_decimal_appends() {
    let mut s = String::from("id=");
    push_decimal(&mut s, 42);
    assert_eq!(s, "id=42");
}

#[test]
fn ends_with_cases() {
    assert!(ends_with("abc", "bc"));
    assert!(ends_with("abc", ""));
    assert!(ends_with("abc", "abc"));
    assert!(!ends_with("abc", "ab"));
    assert!(!ends_with("bc", "abc"));
}

#[test]
fn identity_key_joins_with_underscores() {
    assert_eq!(identity_key("streamer", 39000000000, 1605211333), "streamer_39000000000_1605211333");
    assert_eq!(identity_key("streamer", -5, 0), "streamer_-5_0");
}

#[test]
fn hash_is_the_digest_prefix() {
    assert_eq!(hash("streamer", 39000000000, 1605211333), "e79c91b6843818bac169");
    assert_eq!(hash("a", 1, 2), "2d239267aa2e20b35189");
    assert_eq!(hash("streamer", -5, 0), "bed27ea43fa3ee06ab2f");
}

#[test]
fn hash_is_deterministic() {
    let first = hash("streamer", 39000000000, 1605211333);
    let second = hash("streamer", 39000000000, 1605211333);
    assert_eq!(first, second);
    assert_eq!(first.len(), 20);
    assert_ne!(first, "streamer_39000000000_1605211333");
}

#[test]
fn truncate_hash_keeps_twenty() {
    assert_eq!(truncate_hash("e79c91b6843818bac16979b7a42caf99e312b8dd"), "e79c91b6843818bac169");
    assert_eq!(truncate_hash("abc"), "abc");
    assert_eq!(truncate_hash(""), "");
    assert_eq!(truncate_hash("01234567890123456789"), "01234567890123456789");
}

#[test]
fn build_formats_the_three_urls() {
    let c = build("vod-secure.twitch.tv", "e79c91b6843818bac169", "streamer", 39000000000, 1605211333);
    assert_eq!(
        c.fragment,
        "https://vod-secure.twitch.tv/e79c91b6843818bac169_streamer_39000000000_1605211333/chunked/1.ts"
    );
    assert_eq!(
        c.fragment_muted,
        "https://vod-secure.twitch.tv/e79c91b6843818bac169_streamer_39000000000_1605211333/chunked/1-muted.ts"
    );
    assert_eq!(
        c.playlist,
        "https://vod-secure.twitch.tv/e79c91b6843818bac169_streamer_39000000000_1605211333/chunked/index-dvr.m3u8"
    );
}

#[test]
fn build_is_deterministic() {
    let a = build("host", "h", "u", 1, 2);
    let b = build("host", "h", "u", 1, 2);
    assert_eq!(a.fragment, b.fragment);
    assert_eq!(a.fragment_muted, b.fragment_muted);
    assert_eq!(a.playlist, b.playlist);
}

#[test]
fn directory_and_playlist_agree() {
    assert_eq!(directory_url("h.example", "abc", "u", 1, -2), "https://h.example/abc_u_1_-2/chunked/");
    assert_eq!(
        playlist_url("h.example", "abc", "u", 1, -2),
        "https://h.example/abc_u_1_-2/chunked/index-dvr.m3u8"
    );
}
