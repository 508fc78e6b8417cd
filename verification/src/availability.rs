//! Whether a recording whose playlist was found can still be had.

use vstd::prelude::*;
use vstd::string::*;
use url::Url;
use crate::probe::{classify_spec, SegmentProbe};
use crate::search::texts;
use crate::text::{ends_with, ends_with_spec};
use crate::urls::{playlist_spec, playlist_url};

verus! {

/// The path of a URL, or `None` where the text is no absolute URL.
pub uninterp spec fn url_path(url: Seq<char>) -> Option<Seq<char>>;

/// Parses `url` with `url::Url::parse` and reads the path of the result with
/// `Url::path`. Trusted: the result is the percent-encoded path of the URL,
/// or `None` where the parse fails; it depends on the text alone.
#[verifier::external_body]
fn parse_url_path(url: &str) -> (r: Option<String>)
    ensures
        match r {
            Some(path) => url_path(url@) == Some(path@),
            None => url_path(url@).is_none(),
        },
{
    match Url::parse(url) {
        Ok(parsed) => Some(String::from(parsed.path())),
        Err(_) => None,
    }
}

/// The URLs of the first segment of a recording, plain and muted, for the
/// path of its playlist: the playlist's directory on the main host with the
/// segment's file name. There are none where the path is not that of a
/// playlist.
pub open spec fn segment_urls_spec(path: Seq<char>) -> Option<(Seq<char>, Seq<char>)> {
    if path.len() > 0 && path[0] == '/' && ends_with_spec(path, "/index-dvr.m3u8"@) {
        let directory = path.subrange(0, path.len() - 14);
        Some(
            (
                "https://vod-secure.twitch.tv"@ + directory + "1.ts"@,
                "https://vod-secure.twitch.tv"@ + directory + "1-muted.ts"@,
            ),
        )
    } else {
        None
    }
}

/// The texts of a pair of strings, where there is one.
pub open spec fn pair_text(pair: Option<(String, String)>) -> Option<(Seq<char>, Seq<char>)> {
    match pair {
        Some((a, b)) => Some((a@, b@)),
        None => None,
    }
}

/// Derives the URLs of the first segment, plain and muted, from the path of
/// a playlist URL.
pub fn segment_urls_of_path(path: &str) -> (r: Option<(String, String)>)
    ensures
        pair_text(r) == segment_urls_spec(path@),
{
    let n: usize = path.unicode_len();
    if n == 0 {
        return None;
    }
    if path.get_char(0) != '/' {
        return None;
    }
    if !ends_with(path, "/index-dvr.m3u8") {
        return None;
    }
    proof {
        reveal_strlit("/index-dvr.m3u8");
    }
    let directory = path.substring_char(0, n - 14);
    let normal = String::from_str("https://vod-secure.twitch.tv").concat(directory).concat("1.ts");
    let muted = String::from_str("https://vod-secure.twitch.tv").concat(directory).concat(
        "1-muted.ts",
    );
    Some((normal, muted))
}

/// Derives the URLs of the first segment, plain and muted, from a playlist
/// URL. There are none where the text is no URL or its path is not that of a
/// playlist.
pub fn segment_urls(playlist_url: &str) -> (r: Option<(String, String)>)
    ensures
        pair_text(r) == match url_path(playlist_url@) {
            Some(path) => segment_urls_spec(path),
            None => None,
        },
{
    match parse_url_path(playlist_url) {
        Some(path) => segment_urls_of_path(path.as_str()),
        None => None,
    }
}

/// Whether the host at place `i` answered for a segment of the recording.
pub open spec fn answered(probes: Seq<SegmentProbe>, i: int) -> bool {
    0 <= i < probes.len() && probes[i].available_spec()
}

/// The playlists of the first `n` hosts that answered for a segment, in the
/// order of the hosts.
pub open spec fn valid_playlists(
    hash: Seq<char>,
    username: Seq<char>,
    broadcast_id: int,
    timestamp: int,
    cdns: Seq<Seq<char>>,
    probes: Seq<SegmentProbe>,
    n: nat,
) -> Seq<Seq<char>>
    decreases n,
{
    if n == 0 {
        Seq::empty()
    } else {
        let rest = valid_playlists(
            hash,
            username,
            broadcast_id,
            timestamp,
            cdns,
            probes,
            (n - 1) as nat,
        );
        if answered(probes, n - 1) {
            rest.push(playlist_spec(cdns[n - 1], hash, username, broadcast_id, timestamp))
        } else {
            rest
        }
    }
}

/// Picks the playlists of a recording that can still be had. `probes[i]` is
/// what the two segment URLs on `cdns[i]` answered; a host without a probe
/// counts as one that did not answer. The result holds, in the order of the
/// hosts, the playlist URL on each host where either segment was there.
pub fn check_availability(
    hash: &str,
    username: &str,
    broadcast_id: i64,
    timestamp: i64,
    cdns: &Vec<String>,
    probes: &Vec<SegmentProbe>,
) -> (r: Vec<String>)
    ensures
        texts(r@) == valid_playlists(
            hash@,
            username@,
            broadcast_id as int,
            timestamp as int,
            texts(cdns@),
            probes@,
            cdns@.len(),
        ),
{
    let mut out: Vec<String> = Vec::new();
    let mut i: usize = 0;
    assert(texts(out@) =~= Seq::<Seq<char>>::empty());
    while i < cdns.len()
        invariant
            i <= cdns.len(),
            texts(out@) == valid_playlists(
                hash@,
                username@,
                broadcast_id as int,
                timestamp as int,
                texts(cdns@),
                probes@,
                i as nat,
            ),
        decreases cdns.len() - i,
    {
        if i < probes.len() && probes[i].available() {
            let ghost before = out@;
            let url = playlist_url(cdns[i].as_str(), hash, username, broadcast_id, timestamp);
            out.push(url);
            assert(texts(out@) =~= texts(before).push(url@));
        }
        i = i + 1;
    }
    out
}

/// A recording can be had exactly where the plain or the muted segment was
/// answered with status 200, whatever the other probe answered or failed to.
pub proof fn lemma_available_iff_either_is_200(normal: Option<u16>, muted: Option<u16>)
    ensures
        (SegmentProbe { normal: classify_spec(normal), muted: classify_spec(muted) }).available_spec()
            <==> (normal == Some(200u16) || muted == Some(200u16)),
{
}

} // verus!
