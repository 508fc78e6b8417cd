//! The candidate URLs of a broadcast on one host.

use vstd::prelude::*;
use vstd::string::*;
use crate::text::{decimal, push_decimal};

verus! {

/// The three URLs under which a recording is looked for on one host.
#[derive(Clone, Debug)]
pub struct AvailabilityCheck {
    /// The first segment.
    pub fragment: String,
    /// The first segment where its sound was muted.
    pub fragment_muted: String,
    /// The playlist manifest.
    pub playlist: String,
}

/// The three URLs as character sequences.
pub struct CandidateText {
    pub fragment: Seq<char>,
    pub fragment_muted: Seq<char>,
    pub playlist: Seq<char>,
}

impl View for AvailabilityCheck {
    type V = CandidateText;

    open spec fn view(&self) -> CandidateText {
        CandidateText {
            fragment: self.fragment@,
            fragment_muted: self.fragment_muted@,
            playlist: self.playlist@,
        }
    }
}

/// The directory of a recording on a host:
/// `https://{host}/{hash}_{username}_{id}_{timestamp}/chunked/`.
pub open spec fn directory_spec(
    cdn_host: Seq<char>,
    hash: Seq<char>,
    username: Seq<char>,
    broadcast_id: int,
    timestamp: int,
) -> Seq<char> {
    "https://"@ + cdn_host + "/"@ + hash + "_"@ + username + "_"@ + decimal(broadcast_id) + "_"@
        + decimal(timestamp) + "/chunked/"@
}

/// The URL of the playlist manifest of a recording on a host.
pub open spec fn playlist_spec(
    cdn_host: Seq<char>,
    hash: Seq<char>,
    username: Seq<char>,
    broadcast_id: int,
    timestamp: int,
) -> Seq<char> {
    directory_spec(cdn_host, hash, username, broadcast_id, timestamp) + "index-dvr.m3u8"@
}

/// The three candidate URLs of a recording on a host.
pub open spec fn build_spec(
    cdn_host: Seq<char>,
    hash: Seq<char>,
    username: Seq<char>,
    broadcast_id: int,
    timestamp: int,
) -> CandidateText {
    CandidateText {
        fragment: directory_spec(cdn_host, hash, username, broadcast_id, timestamp) + "1.ts"@,
        fragment_muted: directory_spec(cdn_host, hash, username, broadcast_id, timestamp)
            + "1-muted.ts"@,
        playlist: playlist_spec(cdn_host, hash, username, broadcast_id, timestamp),
    }
}

/// Builds the directory of a recording on a host.
pub fn directory_url(
    cdn_host: &str,
    hash: &str,
    username: &str,
    broadcast_id: i64,
    timestamp: i64,
) -> (r: String)
    ensures
        r@ == directory_spec(cdn_host@, hash@, username@, broadcast_id as int, timestamp as int),
{
    let mut url = String::from_str("https://");
    url.append(cdn_host);
    url.append("/");
    url.append(hash);
    url.append("_");
    url.append(username);
    url.append("_");
    push_decimal(&mut url, broadcast_id);
    url.append("_");
    push_decimal(&mut url, timestamp);
    url.append("/chunked/");
    assert(url@ =~= directory_spec(
        cdn_host@,
        hash@,
        username@,
        broadcast_id as int,
        timestamp as int,
    ));
    url
}

/// Builds the URL of the playlist manifest of a recording on a host.
pub fn playlist_url(
    cdn_host: &str,
    hash: &str,
    username: &str,
    broadcast_id: i64,
    timestamp: i64,
) -> (r: String)
    ensures
        r@ == playlist_spec(cdn_host@, hash@, username@, broadcast_id as int, timestamp as int),
{
    directory_url(cdn_host, hash, username, broadcast_id, timestamp).concat("index-dvr.m3u8")
}

/// Builds the three candidate URLs of a recording on a host. The result
/// depends on the arguments alone.
pub fn build(
    cdn_host: &str,
    hash: &str,
    username: &str,
    broadcast_id: i64,
    timestamp: i64,
) -> (r: AvailabilityCheck)
    ensures
        r@ == build_spec(cdn_host@, hash@, username@, broadcast_id as int, timestamp as int),
{
    let directory = directory_url(cdn_host, hash, username, broadcast_id, timestamp);
    let fragment = directory.clone().concat("1.ts");
    let fragment_muted = directory.clone().concat("1-muted.ts");
    let playlist = directory.concat("index-dvr.m3u8");
    AvailabilityCheck { fragment, fragment_muted, playlist }
}

} // verus!
