//! Looking up the stream link of an episode: the stream sources are tried in
//! order, the link list of each source that names one is fetched, and the
//! first link of the first non-empty list is the result. Fetching is left to
//! the caller; `episode_step` decides what to do next from each reply.

use vstd::prelude::*;
use crate::show_data::{LinkData, SourceUrl};
use crate::stream_links::{
    episode_source_order, link_address, link_address_defined, opt_address, provider_positions,
    source_link_url, source_link_url_defined, source_order,
};

verus! {

/// The source at position `i` of the order in which sources are tried.
pub open spec fn source_at(sources: Seq<SourceUrl>, i: int) -> SourceUrl {
    sources[source_order(sources)[i] as int]
}

/// Whether the source at position `i` of the order names a link list.
pub open spec fn has_link_at(sources: Seq<SourceUrl>, i: int) -> bool {
    &&& 0 <= i < source_order(sources).len()
    &&& link_address(source_at(sources, i).source_url@) is Some
}

/// The first position, from `k` on, whose source names a link list.
pub open spec fn next_candidate(sources: Seq<SourceUrl>, k: int) -> Option<int>
    decreases source_order(sources).len() - k,
{
    if k < 0 || k >= source_order(sources).len() {
        None
    } else if has_link_at(sources, k) {
        Some(k)
    } else {
        next_candidate(sources, k + 1)
    }
}

/// Whether the sources examined from position `k` until the next one that
/// names a link list can all be examined (see `link_address_defined`).
pub open spec fn scan_defined(sources: Seq<SourceUrl>, k: int) -> bool
    decreases source_order(sources).len() - k,
{
    if k < 0 || k >= source_order(sources).len() {
        true
    } else {
        link_address_defined(source_at(sources, k).source_url@) && (has_link_at(sources, k)
            || scan_defined(sources, k + 1))
    }
}

/// `next_candidate` is the first position from `k` on whose source names a
/// link list.
pub proof fn lemma_next_candidate(sources: Seq<SourceUrl>, k: int)
    requires
        k >= 0,
    ensures
        match next_candidate(sources, k) {
            Some(i) => k <= i < source_order(sources).len() && has_link_at(sources, i) && forall|
                j: int,
            | k <= j < i ==> !has_link_at(sources, j),
            None => forall|j: int| k <= j ==> !has_link_at(sources, j),
        },
    decreases source_order(sources).len() - k,
{
    if k < source_order(sources).len() && !has_link_at(sources, k) {
        lemma_next_candidate(sources, k + 1);
    }
}

/// The link the lookup finds from position `k` on, when the link list
/// fetched for source `p` is `lists(p)`: the first link of the first
/// non-empty list among the sources that name one, in the order they are
/// tried.
pub open spec fn first_listed_link(
    sources: Seq<SourceUrl>,
    lists: spec_fn(usize) -> Seq<LinkData>,
    k: int,
) -> Option<Seq<char>>
    decreases source_order(sources).len() - k,
{
    if k < 0 {
        None
    } else {
        match next_candidate(sources, k) {
            None => None,
            Some(i) => {
                let l = lists(source_order(sources)[i]);
                if l.len() > 0 {
                    Some(l[0].link@)
                } else {
                    proof {
                        lemma_next_candidate(sources, k);
                    }
                    first_listed_link(sources, lists, i + 1)
                }
            },
        }
    }
}

/// Whether position `i` holds the first source, from `k` on, that names a
/// link list whose fetched list is non-empty.
pub open spec fn is_first_listed(
    sources: Seq<SourceUrl>,
    lists: spec_fn(usize) -> Seq<LinkData>,
    k: int,
    i: int,
) -> bool {
    &&& k <= i
    &&& has_link_at(sources, i)
    &&& lists(source_order(sources)[i]).len() > 0
    &&& forall|j: int|
        k <= j < i && has_link_at(sources, j) ==> lists(source_order(sources)[j]).len() == 0
}

/// The lookup finds exactly the first link of the first source, in the
/// order sources are tried, that names a link list whose list is non-empty;
/// it finds nothing when there is no such source.
pub proof fn lookup_finds_first_listed_link(
    sources: Seq<SourceUrl>,
    lists: spec_fn(usize) -> Seq<LinkData>,
    k: int,
)
    requires
        k >= 0,
    ensures
        match first_listed_link(sources, lists, k) {
            Some(x) => exists|i: int|
                is_first_listed(sources, lists, k, i) && x == lists(
                    source_order(sources)[i],
                )[0].link@,
            None => forall|i: int| !is_first_listed(sources, lists, k, i),
        },
    decreases source_order(sources).len() - k,
{
    lemma_next_candidate(sources, k);
    match next_candidate(sources, k) {
        None => {
            assert forall|i: int| !is_first_listed(sources, lists, k, i) by {
                if k <= i {
                    assert(!has_link_at(sources, i));
                }
            }
        },
        Some(c) => {
            let l = lists(source_order(sources)[c]);
            if l.len() > 0 {
                assert(is_first_listed(sources, lists, k, c));
            } else {
                lookup_finds_first_listed_link(sources, lists, c + 1);
                match first_listed_link(sources, lists, c + 1) {
                    Some(x) => {
                        let i = choose|i: int|
                            is_first_listed(sources, lists, c + 1, i) && x == lists(
                                source_order(sources)[i],
                            )[0].link@;
                        assert forall|j: int|
                            k <= j < i && has_link_at(sources, j) implies lists(
                            source_order(sources)[j],
                        ).len() == 0 by {
                            if j < c {
                                assert(!has_link_at(sources, j));
                            }
                        }
                        assert(is_first_listed(sources, lists, k, i));
                    },
                    None => {
                        assert forall|i: int| !is_first_listed(sources, lists, k, i) by {
                            if is_first_listed(sources, lists, k, i) {
                                if i < c {
                                    assert(!has_link_at(sources, i));
                                } else if i == c {
                                } else {
                                    assert(is_first_listed(sources, lists, c + 1, i));
                                }
                            }
                        }
                    },
                }
            }
        },
    }
}

proof fn lemma_positions_bound(sources: Seq<SourceUrl>, preferred: bool, n: int)
    requires
        0 <= n <= sources.len(),
    ensures
        forall|i: int|
            0 <= i < provider_positions(sources, preferred, n).len() ==> provider_positions(
                sources,
                preferred,
                n,
            )[i] < n,
    decreases n,
{
    if n > 0 {
        lemma_positions_bound(sources, preferred, n - 1);
        let prev = provider_positions(sources, preferred, n - 1);
        let grown = prev.push((n - 1) as usize);
        assert forall|i: int| 0 <= i < grown.len() implies #[trigger] grown[i] < n by {
            if i < prev.len() {
                assert(grown[i] == prev[i]);
            }
        }
    }
}

/// Every position of the order names a source.
pub proof fn lemma_order_in_bounds(sources: Seq<SourceUrl>)
    ensures
        forall|i: int|
            0 <= i < source_order(sources).len() ==> #[trigger] source_order(sources)[i]
                < sources.len(),
{
    let n = sources.len() as int;
    lemma_positions_bound(sources, true, n);
    lemma_positions_bound(sources, false, n);
    let a = provider_positions(sources, true, n);
    let b = provider_positions(sources, false, n);
    assert forall|i: int| 0 <= i < source_order(sources).len() implies #[trigger] source_order(
        sources,
    )[i] < sources.len() by {
        if i < a.len() {
            assert(source_order(sources)[i] == a[i]);
        } else {
            assert(source_order(sources)[i] == b[i - a.len()]);
        }
    }
}

/// What the lookup does next.
#[derive(Debug, PartialEq, Eq)]
pub enum EpisodeStep {
    /// Fetch the link list at `address`; the reply is handed back with `next`
    /// as the position to go on from.
    Fetch { next: usize, address: String },
    /// The lookup found this link.
    Found(String),
    /// No source gave a link.
    NotFound,
}

/// Whether a reply carries no link: the start of the lookup or an empty
/// link list.
pub open spec fn no_link(reply: Option<&Vec<LinkData>>) -> bool {
    match reply {
        Some(l) => l@.len() == 0,
        None => true,
    }
}

/// Decides `scan_defined` for position `pos`.
pub fn lookup_scan_defined(sources: &Vec<SourceUrl>, pos: usize) -> (b: bool)
    ensures
        b == scan_defined(sources@, pos as int),
{
    let order = episode_source_order(sources);
    proof {
        lemma_order_in_bounds(sources@);
    }
    let mut i = pos;
    while i < order.len()
        invariant
            order@ == source_order(sources@),
            pos <= i,
            scan_defined(sources@, pos as int) == scan_defined(sources@, i as int),
            forall|j: int| 0 <= j < order@.len() ==> #[trigger] order@[j] < sources@.len(),
        decreases order@.len() - i,
    {
        let url = sources[order[i]].source_url.as_str();
        if !source_link_url_defined(url) {
            return false;
        }
        match source_link_url(url) {
            Some(_) => {
                return true;
            },
            None => {},
        }
        i = i + 1;
    }
    true
}

/// The next step of the lookup, from position `pos` of the order, given the
/// reply to the previous fetch (`None` at the start): a non-empty link list
/// gives its first link; otherwise the next source from `pos` on that names
/// a link list is fetched, and without one nothing is found.
pub fn episode_step(sources: &Vec<SourceUrl>, pos: usize, reply: Option<&Vec<LinkData>>) -> (s:
    EpisodeStep)
    requires
        no_link(reply) ==> scan_defined(sources@, pos as int),
    ensures
        !no_link(reply) ==> (s matches EpisodeStep::Found(link) && link@ == reply->0@[0].link@),
        no_link(reply) ==> match next_candidate(sources@, pos as int) {
            Some(i) => s matches EpisodeStep::Fetch { next, address } && next == i + 1
                && link_address(source_at(sources@, i).source_url@) == Some(address@),
            None => s is NotFound,
        },
{
    if let Some(links) = reply {
        if links.len() > 0 {
            return EpisodeStep::Found(links[0].link.clone());
        }
    }
    assert(no_link(reply));
    let order = episode_source_order(sources);
    proof {
        lemma_order_in_bounds(sources@);
    }
    let mut i = pos;
    while i < order.len()
        invariant
            no_link(reply),
            order@ == source_order(sources@),
            pos <= i,
            scan_defined(sources@, i as int),
            next_candidate(sources@, pos as int) == next_candidate(sources@, i as int),
            forall|j: int| 0 <= j < order@.len() ==> #[trigger] order@[j] < sources@.len(),
        decreases order@.len() - i,
    {
        let url = sources[order[i]].source_url.as_str();
        let found = source_link_url(url);
        assert(opt_address(found) == link_address(source_at(sources@, i as int).source_url@));
        match found {
            Some(address) => {
                return EpisodeStep::Fetch { next: i + 1, address };
            },
            None => {},
        }
        i = i + 1;
    }
    EpisodeStep::NotFound
}

} // verus!
