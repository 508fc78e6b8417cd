//! The hosts to probe: the main host, and whatever the user adds.

use vstd::prelude::*;
use vstd::string::*;
use crate::search::texts;

verus! {

/// The hosts that are probed when the user names none.
pub open spec fn default_hosts_spec() -> Seq<Seq<char>> {
    seq!["vod-secure.twitch.tv"@]
}

/// `base` followed by those of the first `n` hosts of `extra` that are not
/// empty and did not occur before, in their order.
pub open spec fn merged_spec(base: Seq<Seq<char>>, extra: Seq<Seq<char>>, n: nat) -> Seq<
    Seq<char>,
>
    decreases n,
{
    if n == 0 {
        base
    } else {
        let before = merged_spec(base, extra, (n - 1) as nat);
        let host = extra[n - 1];
        if host.len() == 0 || before.contains(host) {
            before
        } else {
            before.push(host)
        }
    }
}

/// The hosts that are probed when the user names none.
pub fn default_hosts() -> (r: Vec<String>)
    ensures
        texts(r@) == default_hosts_spec(),
{
    let mut hosts: Vec<String> = Vec::new();
    hosts.push(String::from_str("vod-secure.twitch.tv"));
    assert(texts(hosts@) =~= default_hosts_spec());
    hosts
}

/// Tells whether `host` is among `hosts`.
pub fn knows_host(hosts: &Vec<String>, host: &String) -> (r: bool)
    ensures
        r == texts(hosts@).contains(host@),
{
    let mut i: usize = 0;
    while i < hosts.len()
        invariant
            i <= hosts.len(),
            forall|k: int| 0 <= k < i ==> #[trigger] texts(hosts@)[k] != host@,
        decreases hosts.len() - i,
    {
        if hosts[i] == *host {
            assert(texts(hosts@)[i as int] == host@);
            return true;
        }
        i = i + 1;
    }
    false
}

/// The ordered list of hosts to probe: the default hosts, then each host of
/// `extra` that is not empty and is not in the list yet.
pub fn compile_cdn_list(extra: &Vec<String>) -> (r: Vec<String>)
    ensures
        texts(r@) == merged_spec(default_hosts_spec(), texts(extra@), extra@.len()),
{
    let mut hosts = default_hosts();
    let mut i: usize = 0;
    while i < extra.len()
        invariant
            i <= extra.len(),
            texts(hosts@) == merged_spec(default_hosts_spec(), texts(extra@), i as nat),
        decreases extra.len() - i,
    {
        let host = &extra[i];
        if !host.as_str().is_empty() && !knows_host(&hosts, host) {
            let ghost before = hosts@;
            hosts.push(host.clone());
            assert(texts(hosts@) =~= texts(before).push(host@));
        }
        i = i + 1;
    }
    hosts
}

/// Merging keeps the hosts it starts from in front, and adds no host twice:
/// where no host occurs twice in `base`, none does in the merged list.
pub proof fn lemma_merged_is_duplicate_free(base: Seq<Seq<char>>, extra: Seq<Seq<char>>, n: nat)
    requires
        n <= extra.len(),
        base.no_duplicates(),
    ensures
        merged_spec(base, extra, n).no_duplicates(),
        base.is_prefix_of(merged_spec(base, extra, n)),
    decreases n,
{
    if n > 0 {
        lemma_merged_is_duplicate_free(base, extra, (n - 1) as nat);
    }
}

/// Merging adds no empty host: where `base` holds none, the merged list
/// holds none.
pub proof fn lemma_merged_hosts_are_named(base: Seq<Seq<char>>, extra: Seq<Seq<char>>, n: nat)
    requires
        n <= extra.len(),
        forall|i: int| 0 <= i < base.len() ==> (#[trigger] base[i]).len() > 0,
    ensures
        forall|i: int|
            0 <= i < merged_spec(base, extra, n).len() ==> (#[trigger] merged_spec(
                base,
                extra,
                n,
            )[i]).len() > 0,
    decreases n,
{
    if n > 0 {
        lemma_merged_hosts_are_named(base, extra, (n - 1) as nat);
        let before = merged_spec(base, extra, (n - 1) as nat);
        let merged = merged_spec(base, extra, n);
        assert forall|i: int| 0 <= i < merged.len() implies (#[trigger] merged[i]).len() > 0 by {
            if i < before.len() {
                assert(merged[i] == before[i]);
            }
        }
    }
}

/// Every host of `extra` that is not empty is in the merged list.
pub proof fn lemma_merged_holds_every_host(
    base: Seq<Seq<char>>,
    extra: Seq<Seq<char>>,
    n: nat,
    i: int,
)
    requires
        n <= extra.len(),
        0 <= i < n,
        extra[i].len() > 0,
    ensures
        merged_spec(base, extra, n).contains(extra[i]),
    decreases n,
{
    let before = merged_spec(base, extra, (n - 1) as nat);
    if i < n - 1 {
        lemma_merged_holds_every_host(base, extra, (n - 1) as nat, i);
        let k = choose|k: int| 0 <= k < before.len() && before[k] == extra[i];
        assert(merged_spec(base, extra, n)[k] == extra[i]);
    } else {
        if !before.contains(extra[i]) {
            assert(merged_spec(base, extra, n) == before.push(extra[i]));
            assert(before.push(extra[i])[before.len() as int] == extra[i]);
        }
    }
}

} // verus!
