//! The search for the storage URL of a broadcast: which URLs to probe for one
//! timestamp or for a range of them, and the state of a sweep in which the
//! first success wins.

use vstd::prelude::*;
use vstd::string::*;
use crate::hasher::{hash, hash_spec};
use crate::probe::ProbeOutcome;
use crate::urls::{build, build_spec, playlist_spec, playlist_url, AvailabilityCheck, CandidateText};

verus! {

/// The texts of a sequence of strings.
pub open spec fn texts(v: Seq<String>) -> Seq<Seq<char>> {
    Seq::new(v.len(), |i: int| v[i]@)
}

/// The texts of a sequence of candidates.
pub open spec fn candidate_texts(v: Seq<AvailabilityCheck>) -> Seq<CandidateText> {
    Seq::new(v.len(), |i: int| v[i]@)
}

/// The timestamps to sweep, both bounds included.
#[derive(Clone, Copy, Debug, PartialEq, Eq, Structural)]
pub struct SearchRange {
    pub from: i64,
    pub to: i64,
}

impl SearchRange {
    /// A range is valid where it holds at least one timestamp.
    pub open spec fn is_valid_spec(&self) -> bool {
        self.from <= self.to
    }

    /// Whether the range holds at least one timestamp.
    pub fn is_valid(&self) -> (r: bool)
        ensures
            r == self.is_valid_spec(),
    {
        self.from <= self.to
    }
}

/// Why a search was refused before any probe.
#[derive(Clone, Copy, Debug, PartialEq, Eq, Structural)]
pub enum SearchError {
    /// The username is empty.
    EmptyUsername,
    /// The range ends before it starts.
    InvalidRange,
}

impl SearchError {
    /// A sentence for the user.
    pub fn message(&self) -> (r: String)
        ensures
            r@ == match *self {
                SearchError::EmptyUsername => "the username is empty"@,
                SearchError::InvalidRange => "the range ends before it starts"@,
            },
    {
        match self {
            SearchError::EmptyUsername => String::from_str("the username is empty"),
            SearchError::InvalidRange => String::from_str("the range ends before it starts"),
        }
    }
}

/// The outcome of a search.
#[derive(Clone, Debug)]
pub struct SearchResult {
    /// Whether a playlist was found.
    pub found: bool,
    /// The playlist's URL, where one was found.
    pub url: Option<String>,
    /// Whether the recording can still be had; `None` where nothing was found.
    pub available: Option<bool>,
}

impl SearchResult {
    /// The URL of the result as a character sequence.
    pub open spec fn url_text(&self) -> Option<Seq<char>> {
        match self.url {
            Some(u) => Some(u@),
            None => None,
        }
    }

    /// The result of exact mode from the playlists that can be had, in the
    /// order of the hosts: the first of them is found and available, and
    /// nothing is found where there is none.
    pub fn from_valid_playlists(valid: &Vec<String>) -> (r: SearchResult)
        ensures
            r.found == (valid@.len() > 0),
            r.url_text() == if valid@.len() > 0 {
                Some(valid@[0]@)
            } else {
                None
            },
            r.available == if valid@.len() > 0 {
                Some(true)
            } else {
                None
            },
    {
        if valid.len() > 0 {
            SearchResult { found: true, url: Some(valid[0].clone()), available: Some(true) }
        } else {
            SearchResult { found: false, url: None, available: None }
        }
    }
}

/// The candidates of one recording with a known hash, one for each host, in
/// the order of the hosts.
pub open spec fn candidates_spec(
    hash: Seq<char>,
    username: Seq<char>,
    broadcast_id: int,
    timestamp: int,
    cdns: Seq<Seq<char>>,
) -> Seq<CandidateText> {
    Seq::new(cdns.len(), |i: int| build_spec(cdns[i], hash, username, broadcast_id, timestamp))
}

/// The playlist URLs to probe for one timestamp, one for each host, in the
/// order of the hosts.
pub open spec fn row_spec(
    username: Seq<char>,
    broadcast_id: int,
    timestamp: int,
    cdns: Seq<Seq<char>>,
) -> Seq<Seq<char>> {
    Seq::new(
        cdns.len(),
        |i: int|
            playlist_spec(
                cdns[i],
                hash_spec(username, broadcast_id, timestamp),
                username,
                broadcast_id,
                timestamp,
            ),
    )
}

/// The playlist URLs to probe for the timestamps `from, from + 1, .., to`:
/// the rows of the timestamps, one after the other.
pub open spec fn range_spec(
    username: Seq<char>,
    broadcast_id: int,
    from: int,
    to: int,
    cdns: Seq<Seq<char>>,
) -> Seq<Seq<char>>
    decreases to - from + 1,
{
    if to < from {
        Seq::empty()
    } else {
        range_spec(username, broadcast_id, from, to - 1, cdns) + row_spec(
            username,
            broadcast_id,
            to,
            cdns,
        )
    }
}

/// Why a search over `range` for `username` is refused, if it is.
pub open spec fn rejection(username: Seq<char>, range: SearchRange) -> Option<SearchError> {
    if username.len() == 0 {
        Some(SearchError::EmptyUsername)
    } else if range.from > range.to {
        Some(SearchError::InvalidRange)
    } else {
        None
    }
}

/// Builds the candidates of one recording whose hash is known, one for each
/// host.
pub fn candidates(
    hash: &str,
    username: &str,
    broadcast_id: i64,
    timestamp: i64,
    cdns: &Vec<String>,
) -> (r: Vec<AvailabilityCheck>)
    ensures
        candidate_texts(r@) == candidates_spec(
            hash@,
            username@,
            broadcast_id as int,
            timestamp as int,
            texts(cdns@),
        ),
{
    let mut out: Vec<AvailabilityCheck> = Vec::new();
    let mut i: usize = 0;
    while i < cdns.len()
        invariant
            i <= cdns.len(),
            out@.len() == i,
            forall|k: int|
                0 <= k < i ==> (#[trigger] out@[k])@ == build_spec(
                    cdns@[k]@,
                    hash@,
                    username@,
                    broadcast_id as int,
                    timestamp as int,
                ),
        decreases cdns.len() - i,
    {
        out.push(build(cdns[i].as_str(), hash, username, broadcast_id, timestamp));
        i = i + 1;
    }
    assert(candidate_texts(out@) =~= candidates_spec(
        hash@,
        username@,
        broadcast_id as int,
        timestamp as int,
        texts(cdns@),
    ));
    out
}

/// Exact mode: computes the hash of the one timestamp and builds the
/// candidates on every host. An empty username is refused.
pub fn exact_candidates(
    username: &str,
    broadcast_id: i64,
    timestamp: i64,
    cdns: &Vec<String>,
) -> (r: Result<Vec<AvailabilityCheck>, SearchError>)
    ensures
        match r {
            Ok(v) => username@.len() > 0 && candidate_texts(v@) == candidates_spec(
                hash_spec(username@, broadcast_id as int, timestamp as int),
                username@,
                broadcast_id as int,
                timestamp as int,
                texts(cdns@),
            ),
            Err(e) => username@.len() == 0 && e == SearchError::EmptyUsername,
        },
{
    if username.is_empty() {
        return Err(SearchError::EmptyUsername);
    }
    let h = hash(username, broadcast_id, timestamp);
    Ok(candidates(h.as_str(), username, broadcast_id, timestamp, cdns))
}

/// Appends to `out` the playlist URLs to probe for one timestamp.
fn push_row(
    out: &mut Vec<String>,
    username: &str,
    broadcast_id: i64,
    timestamp: i64,
    cdns: &Vec<String>,
)
    ensures
        texts(final(out)@) == texts(old(out)@) + row_spec(
            username@,
            broadcast_id as int,
            timestamp as int,
            texts(cdns@),
        ),
{
    let h = hash(username, broadcast_id, timestamp);
    let ghost row = row_spec(username@, broadcast_id as int, timestamp as int, texts(cdns@));
    let mut i: usize = 0;
    assert(texts(out@) =~= texts(old(out)@) + row.take(0));
    while i < cdns.len()
        invariant
            i <= cdns.len(),
            h@ == hash_spec(username@, broadcast_id as int, timestamp as int),
            row == row_spec(username@, broadcast_id as int, timestamp as int, texts(cdns@)),
            texts(out@) == texts(old(out)@) + row.take(i as int),
        decreases cdns.len() - i,
    {
        let ghost before = out@;
        let url = playlist_url(cdns[i].as_str(), h.as_str(), username, broadcast_id, timestamp);
        out.push(url);
        proof {
            assert(url@ == row[i as int]);
            assert(texts(out@) =~= texts(before).push(url@));
            assert(row.take(i + 1) =~= row.take(i as int).push(row[i as int]));
            assert(texts(out@) =~= texts(old(out)@) + row.take(i + 1));
        }
        i = i + 1;
    }
    assert(row.take(i as int) =~= row);
}

/// Sweep mode: builds the playlist URLs to probe for every timestamp of the
/// range, both bounds included, one for each host. An empty username and a
/// range that ends before it starts are refused, in that order.
pub fn range_candidates(
    username: &str,
    broadcast_id: i64,
    range: SearchRange,
    cdns: &Vec<String>,
) -> (r: Result<Vec<String>, SearchError>)
    ensures
        match r {
            Ok(v) => rejection(username@, range).is_none() && texts(v@) == range_spec(
                username@,
                broadcast_id as int,
                range.from as int,
                range.to as int,
                texts(cdns@),
            ),
            Err(e) => rejection(username@, range) == Some(e),
        },
{
    if username.is_empty() {
        return Err(SearchError::EmptyUsername);
    }
    if !range.is_valid() {
        return Err(SearchError::InvalidRange);
    }
    let mut out: Vec<String> = Vec::new();
    let mut timestamp: i64 = range.from;
    let mut done: bool = false;
    assert(texts(out@) =~= range_spec(
        username@,
        broadcast_id as int,
        range.from as int,
        range.from - 1,
        texts(cdns@),
    ));
    while !done
        invariant
            range.from <= timestamp <= range.to,
            texts(out@) == range_spec(
                username@,
                broadcast_id as int,
                range.from as int,
                if done {
                    range.to as int
                } else {
                    timestamp - 1
                },
                texts(cdns@),
            ),
        decreases
                range.to - timestamp + if done {
                    0int
                } else {
                    1int
                },
    {
        push_row(&mut out, username, broadcast_id, timestamp, cdns);
        if timestamp == range.to {
            done = true;
        } else {
            timestamp = timestamp + 1;
        }
    }
    Ok(out)
}

/// The winner after one more outcome was observed: the first success is kept,
/// and nothing replaces it.
pub open spec fn record_spec(
    winner: Option<Seq<char>>,
    url: Seq<char>,
    outcome: ProbeOutcome,
) -> Option<Seq<char>> {
    if winner.is_none() && outcome == ProbeOutcome::Success {
        Some(url)
    } else {
        winner
    }
}

/// Whether `i` is the place of the first success among `outcomes`.
pub open spec fn is_first_success(outcomes: Seq<ProbeOutcome>, i: int) -> bool {
    &&& 0 <= i < outcomes.len()
    &&& outcomes[i] == ProbeOutcome::Success
    &&& forall|j: int| 0 <= j < i ==> outcomes[j] != ProbeOutcome::Success
}

/// The state that the probes of one search share: a flag that is set by the
/// first success, and the URL that won.
pub struct SearchContext {
    cancelled: bool,
    winner: Option<String>,
}

impl SearchContext {
    /// The flag is set exactly where a winner is held.
    #[verifier::type_invariant]
    spec fn flag_follows_winner(&self) -> bool {
        self.cancelled == self.winner.is_some()
    }

    /// The winning URL, where there is one.
    pub closed spec fn winner_text(&self) -> Option<Seq<char>> {
        match self.winner {
            Some(u) => Some(u@),
            None => None,
        }
    }

    /// A fresh context for one search: no winner, flag not set.
    pub fn new() -> (r: SearchContext)
        ensures
            r.winner_text().is_none(),
    {
        SearchContext { cancelled: false, winner: None }
    }

    /// Whether the flag is set: it is from the first success on.
    pub fn is_cancelled(&self) -> (r: bool)
        ensures
            r == self.winner_text().is_some(),
    {
        proof {
            use_type_invariant(self);
        }
        self.cancelled
    }

    /// Whether another probe should be started: not once the flag is set.
    pub fn should_dispatch(&self) -> (r: bool)
        ensures
            r == self.winner_text().is_none(),
    {
        !self.is_cancelled()
    }

    /// Takes note of the outcome of the probe of `url`. The first success
    /// sets the flag and becomes the winner; everything else, a later
    /// success included, changes nothing.
    pub fn record(&mut self, url: &str, outcome: ProbeOutcome)
        ensures
            final(self).winner_text() == record_spec(old(self).winner_text(), url@, outcome),
    {
        if !self.is_cancelled() && outcome.is_success() {
            *self = SearchContext { cancelled: true, winner: Some(String::from_str(url)) };
        }
    }

    /// The winning URL, where there is one.
    pub fn winner(&self) -> (r: Option<String>)
        ensures
            match r {
                Some(u) => self.winner_text() == Some(u@),
                None => self.winner_text().is_none(),
            },
    {
        match &self.winner {
            Some(u) => Some(u.clone()),
            None => None,
        }
    }

    /// The result of the search once all probes are done. `available` is the
    /// verdict on the winner, and is left out where there is none.
    pub fn conclude(&self, available: bool) -> (r: SearchResult)
        ensures
            r.found == self.winner_text().is_some(),
            r.url_text() == self.winner_text(),
            r.available == if r.found {
                Some(available)
            } else {
                None
            },
    {
        match &self.winner {
            Some(u) => SearchResult { found: true, url: Some(u.clone()), available: Some(available) },
            None => SearchResult { found: false, url: None, available: None },
        }
    }
}

/// Replays the outcomes of a search in the order in which they were
/// observed: `outcomes[i]` is what the probe of `candidates[i]` answered.
/// The winner is the candidate of the first success, and there is none
/// exactly where no outcome is a success. Outcomes without a candidate and
/// candidates without an outcome are not looked at.
pub fn replay(candidates: &Vec<String>, outcomes: &Vec<ProbeOutcome>) -> (r: SearchContext)
    ensures
        match r.winner_text() {
            Some(u) => exists|i: int|
                #![auto]
                i < candidates@.len() && is_first_success(outcomes@, i) && u == candidates@[i]@,
            None => forall|i: int|
                0 <= i < candidates@.len() && i < outcomes@.len() ==> outcomes@[i]
                    != ProbeOutcome::Success,
        },
{
    let mut context = SearchContext::new();
    let mut i: usize = 0;
    while i < candidates.len() && i < outcomes.len() && context.should_dispatch()
        invariant
            i <= candidates@.len(),
            i <= outcomes@.len(),
            match context.winner_text() {
                Some(u) => exists|k: int|
                    #![auto]
                    k < candidates@.len() && is_first_success(outcomes@, k) && u == candidates@[k]@,
                None => forall|k: int| 0 <= k < i ==> outcomes@[k] != ProbeOutcome::Success,
            },
        decreases
                candidates@.len() - i + if context.winner_text().is_some() {
                    0int
                } else {
                    1int
                },
    {
        context.record(candidates[i].as_str(), outcomes[i]);
        proof {
            if outcomes@[i as int] == ProbeOutcome::Success {
                assert(is_first_success(outcomes@, i as int));
            }
        }
        i = i + 1;
    }
    context
}

/// A range of one timestamp asks for the probes of exact mode: the playlist
/// of each candidate of that timestamp, host by host.
pub proof fn lemma_single_timestamp_range(
    username: Seq<char>,
    broadcast_id: int,
    timestamp: int,
    cdns: Seq<Seq<char>>,
)
    ensures
        range_spec(username, broadcast_id, timestamp, timestamp, cdns) == row_spec(
            username,
            broadcast_id,
            timestamp,
            cdns,
        ),
        row_spec(username, broadcast_id, timestamp, cdns).len() == cdns.len(),
        forall|i: int|
            0 <= i < cdns.len() ==> #[trigger] row_spec(username, broadcast_id, timestamp, cdns)[i]
                == candidates_spec(
                hash_spec(username, broadcast_id, timestamp),
                username,
                broadcast_id,
                timestamp,
                cdns,
            )[i].playlist,
{
    assert(range_spec(username, broadcast_id, timestamp, timestamp - 1, cdns) =~= Seq::empty());
    assert(range_spec(username, broadcast_id, timestamp, timestamp, cdns) =~= row_spec(
        username,
        broadcast_id,
        timestamp,
        cdns,
    ));
}

/// The playlist URLs of a range come timestamp by timestamp: there is one for
/// each timestamp and host, and the one for the timestamp `from + t` and the
/// host at place `c` stands at place `t * hosts + c`.
pub proof fn lemma_range_by_timestamp(
    username: Seq<char>,
    broadcast_id: int,
    from: int,
    to: int,
    cdns: Seq<Seq<char>>,
    t: int,
    c: int,
)
    requires
        0 <= t <= to - from,
        0 <= c < cdns.len(),
    ensures
        range_spec(username, broadcast_id, from, to, cdns).len() == (to - from + 1) * cdns.len(),
        0 <= t * cdns.len() + c < range_spec(username, broadcast_id, from, to, cdns).len(),
        range_spec(username, broadcast_id, from, to, cdns)[t * cdns.len() + c] == playlist_spec(
            cdns[c],
            hash_spec(username, broadcast_id, from + t),
            username,
            broadcast_id,
            from + t,
        ),
    decreases to - from,
{
    let n = cdns.len() as int;
    let width = to - from;
    let before = range_spec(username, broadcast_id, from, to - 1, cdns);
    lemma_range_len(username, broadcast_id, from, to - 1, cdns);
    assert((width + 1) * n == width * n + n) by (nonlinear_arith);
    assert(0 <= t * n && t * n + n <= width * n + n) by (nonlinear_arith)
        requires
            0 <= t <= width,
            0 <= n,
    ;
    if t < width {
        lemma_range_by_timestamp(username, broadcast_id, from, to - 1, cdns, t, c);
    } else {
        assert(t * n + c == before.len() + c);
    }
}

/// A range holds one playlist URL for each of its timestamps and each host.
pub proof fn lemma_range_len(
    username: Seq<char>,
    broadcast_id: int,
    from: int,
    to: int,
    cdns: Seq<Seq<char>>,
)
    requires
        from <= to + 1,
    ensures
        range_spec(username, broadcast_id, from, to, cdns).len() == (to - from + 1) * cdns.len(),
    decreases to - from + 1,
{
    let n = cdns.len() as int;
    if to >= from {
        lemma_range_len(username, broadcast_id, from, to - 1, cdns);
        assert((to - from + 1) * n == (to - from) * n + n) by (nonlinear_arith);
    } else {
        assert((to - from + 1) * n == 0) by (nonlinear_arith)
            requires
                to - from + 1 == 0,
        ;
    }
}

/// A range that ends before it starts is refused whatever else is asked, and
/// a range that does not is refused only for an empty username.
pub proof fn lemma_reversed_range_is_refused(username: Seq<char>, range: SearchRange)
    ensures
        range.from > range.to ==> rejection(username, range).is_some(),
        username.len() > 0 ==> (rejection(username, range) == Some(SearchError::InvalidRange) <==> range.from
            > range.to),
{
}

/// Once there is a winner no outcome replaces it, and an outcome that is no
/// success never makes one.
pub proof fn lemma_first_success_wins(
    winner: Option<Seq<char>>,
    url: Seq<char>,
    outcome: ProbeOutcome,
)
    ensures
        winner.is_some() ==> record_spec(winner, url, outcome) == winner,
        outcome != ProbeOutcome::Success ==> record_spec(winner, url, outcome) == winner,
        winner.is_none() && outcome == ProbeOutcome::Success ==> record_spec(winner, url, outcome)
            == Some(url),
{
}

} // verus!
