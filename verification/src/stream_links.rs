//! Choosing the stream sources of an episode and turning them into the
//! addresses of their link lists.

use vstd::prelude::*;
use vstd::utf8::{encode_utf8, is_char_boundary};
use crate::show_data::{API_BASE, SourceUrl};
use crate::stream_id::{codes_on_boundaries, substitute_id, substituted};
use crate::text::{chars_of, find_first, occurs_at};

verus! {

/// Providers tried first, in the order the catalogue lists them.
pub open spec fn is_preferred_provider(name: Seq<char>) -> bool {
    name == "Sak"@ || name == "S-mp4"@
}

/// The provider tried once no preferred provider gave a link.
pub open spec fn is_fallback_provider(name: Seq<char>) -> bool {
    name == "Luf-mp4"@
}

/// The positions, among the first `n` sources, of those whose provider is
/// preferred (`preferred`) or the fallback one (`!preferred`), in order.
pub open spec fn provider_positions(sources: Seq<SourceUrl>, preferred: bool, n: int) -> Seq<usize>
    decreases n,
{
    if n <= 0 {
        Seq::empty()
    } else {
        let prev = provider_positions(sources, preferred, n - 1);
        let name = sources[n - 1].source_name@;
        if (preferred && is_preferred_provider(name)) || (!preferred && is_fallback_provider(name)) {
            prev.push((n - 1) as usize)
        } else {
            prev
        }
    }
}

/// The order in which stream sources are tried: every source of a preferred
/// provider in listing order, then every source of the fallback provider.
pub open spec fn source_order(sources: Seq<SourceUrl>) -> Seq<usize> {
    provider_positions(sources, true, sources.len() as int) + provider_positions(
        sources,
        false,
        sources.len() as int,
    )
}

fn provider_positions_exec(sources: &Vec<SourceUrl>, preferred: bool) -> (r: Vec<usize>)
    ensures
        r@ == provider_positions(sources@, preferred, sources@.len() as int),
{
    proof {
        reveal_strlit("Sak");
        reveal_strlit("S-mp4");
        reveal_strlit("Luf-mp4");
    }
    let sak = String::from_str("Sak");
    let smp4 = String::from_str("S-mp4");
    let luf = String::from_str("Luf-mp4");
    let mut r: Vec<usize> = Vec::new();
    for i in 0..sources.len()
        invariant
            r@ == provider_positions(sources@, preferred, i as int),
            sak@ == "Sak"@,
            smp4@ == "S-mp4"@,
            luf@ == "Luf-mp4"@,
    {
        let name = &sources[i].source_name;
        let take = if preferred {
            *name == sak || *name == smp4
        } else {
            *name == luf
        };
        if take {
            r.push(i);
        }
    }
    r
}

/// The positions of the stream sources in the order they are tried.
pub fn episode_source_order(sources: &Vec<SourceUrl>) -> (r: Vec<usize>)
    ensures
        r@ == source_order(sources@),
{
    let mut first = provider_positions_exec(sources, true);
    let mut second = provider_positions_exec(sources, false);
    first.append(&mut second);
    first
}

/// Whether a source address can be examined: its first two bytes form whole
/// characters and, when they are `--`, every two-byte code of the rest does.
pub open spec fn link_address_defined(url: Seq<char>) -> bool {
    let b = encode_utf8(url);
    &&& b.len() >= 2
    &&& is_char_boundary(b, 2)
    &&& (b[0] == 45 && b[1] == 45) ==> codes_on_boundaries(b.subrange(2, b.len() as int))
}

/// Whether `i` is the first position at which `clock` occurs in `id`.
pub open spec fn first_clock_at(id: Seq<char>, i: int) -> bool {
    occurs_at(id, "clock"@, i) && forall|j: int| 0 <= j < i ==> !occurs_at(id, "clock"@, j)
}

/// The link-list address named by a decoded identifier that contains
/// `clock`: `.json` is put right after its first `clock`, and the result is a
/// path on the link host.
pub open spec fn clock_link(id: Seq<char>) -> Option<Seq<char>> {
    if exists|i: int| occurs_at(id, "clock"@, i) {
        let i = choose|i: int| first_clock_at(id, i);
        Some("https://"@ + API_BASE@ + id.take(i + 5) + ".json"@ + id.skip(i + 5))
    } else {
        None
    }
}

/// The address of the link list of a source: a source address made of `--`
/// and an obfuscated identifier names one when the decoded identifier
/// contains `clock`.
pub open spec fn link_address(url: Seq<char>) -> Option<Seq<char>> {
    let b = encode_utf8(url);
    if b[0] == 45 && b[1] == 45 {
        clock_link(substituted(b.subrange(2, b.len() as int)))
    } else {
        None
    }
}

proof fn lemma_first_clock_unique(id: Seq<char>, i: int, j: int)
    requires
        first_clock_at(id, i),
        first_clock_at(id, j),
    ensures
        i == j,
{
    if i < j {
        assert(!occurs_at(id, "clock"@, i));
    } else if j < i {
        assert(!occurs_at(id, "clock"@, j));
    }
}

/// The link-list address named by a decoded identifier, if any.
fn clock_link_url(id: &String) -> (r: Option<String>)
    ensures
        opt_address(r) == clock_link(id@),
{
    let idv = chars_of(id.as_str());
    proof {
        reveal_strlit("clock");
    }
    let needle = chars_of("clock");
    match find_first(&idv, &needle) {
        Some(i) => {
            assert(needle@ =~= "clock"@);
            assert(needle@.len() == 5);
            let len = idv.len();
            assert(i + 5 <= len);
            proof {
                assert(first_clock_at(id@, i as int));
                let j = choose|j: int| first_clock_at(id@, j);
                lemma_first_clock_unique(id@, i as int, j);
            }
            let mut link = String::from_str("https://");
            link.append(API_BASE);
            link.append(id.as_str().substring_char(0, i + 5));
            link.append(".json");
            link.append(id.as_str().substring_char(i + 5, len));
            Some(link)
        },
        None => None,
    }
}

/// Decides `link_address_defined`.
pub fn source_link_url_defined(url: &str) -> (b: bool)
    ensures
        b == link_address_defined(url@),
{
    let bytes = url.as_bytes();
    if bytes.len() < 2 || !url.is_char_boundary(2) {
        return false;
    }
    if !(bytes[0] == 45 && bytes[1] == 45) {
        return true;
    }
    let (_, rest) = url.split_at(2);
    let ghost rb = encode_utf8(url@).subrange(2, encode_utf8(url@).len() as int);
    assert(encode_utf8(rest@) =~= rb);
    let rbytes = rest.as_bytes();
    let rlen = rbytes.len();
    assert(rbytes@ == rb);
    let mut p: usize = 2;
    while p <= rlen
        invariant
            p % 2 == 0,
            2 <= p <= rlen + 2,
            rlen == rb.len(),
            encode_utf8(rest@) == rb,
            rb == encode_utf8(url@).subrange(2, encode_utf8(url@).len() as int),
            encode_utf8(url@).len() >= 2,
            is_char_boundary(encode_utf8(url@), 2),
            encode_utf8(url@)[0] == 45 && encode_utf8(url@)[1] == 45,
            forall|j: int| 1 <= j && 2 * j < p ==> #[trigger] is_char_boundary(rb, 2 * j),
        decreases rlen + 2 - p,
    {
        if !rest.is_char_boundary(p) {
            let ghost k: int = p as int / 2;
            assert(2 * k == p);
            assert(1 <= k <= rb.len() / 2);
            assert(!is_char_boundary(rb, 2 * k));
            return false;
        }
        if rlen - p < 2 {
            assert forall|j: int| 1 <= j <= rb.len() / 2 implies #[trigger] is_char_boundary(
                rb,
                2 * j,
            ) by {
                if 2 * j == p {
                } else {
                    assert(2 * j < p);
                }
            }
            return true;
        }
        p = p + 2;
    }
    assert forall|j: int| 1 <= j <= rb.len() / 2 implies #[trigger] is_char_boundary(rb, 2 * j) by {
        assert(2 * j < p);
    }
    true
}

/// The address of the link list of a stream source, if its address names one.
pub fn source_link_url(url: &str) -> (r: Option<String>)
    requires
        link_address_defined(url@),
    ensures
        opt_address(r) == link_address(url@),
{
    let bytes = url.as_bytes();
    if !(bytes[0] == 45 && bytes[1] == 45) {
        return None;
    }
    let (_, rest) = url.split_at(2);
    let ghost rb = encode_utf8(url@).subrange(2, encode_utf8(url@).len() as int);
    assert(encode_utf8(rest@) =~= rb);
    let id = substitute_id(String::from_str(rest));
    clock_link_url(&id)
}

/// The text of an optional string.
pub open spec fn opt_address(o: Option<String>) -> Option<Seq<char>> {
    match o {
        Some(s) => Some(s@),
        None => None,
    }
}

/// Whether source `p` belongs to the preferred (`preferred`) or the fallback
/// group of providers.
pub open spec fn in_group(sources: Seq<SourceUrl>, preferred: bool, p: int) -> bool {
    if preferred {
        is_preferred_provider(sources[p].source_name@)
    } else {
        is_fallback_provider(sources[p].source_name@)
    }
}

proof fn lemma_group_positions(sources: Seq<SourceUrl>, preferred: bool, n: int)
    requires
        0 <= n <= sources.len(),
        sources.len() <= usize::MAX,
    ensures
        ({
            let pp = provider_positions(sources, preferred, n);
            &&& forall|i: int, j: int| 0 <= i < j < pp.len() ==> pp[i] < pp[j]
            &&& forall|i: int| 0 <= i < pp.len() ==> pp[i] < n && in_group(sources, preferred, pp[i] as int)
            &&& forall|p: int| 0 <= p < n && in_group(sources, preferred, p) ==> exists|i: int| 0 <= i < pp.len() && pp[i] == p
        }),
    decreases n,
{
    if n > 0 {
        lemma_group_positions(sources, preferred, n - 1);
        let prev = provider_positions(sources, preferred, n - 1);
        let pp = provider_positions(sources, preferred, n);
        if in_group(sources, preferred, n - 1) {
            assert(pp == prev.push((n - 1) as usize));
            assert forall|p: int| 0 <= p < n && in_group(sources, preferred, p) implies exists|i: int| 0 <= i < pp.len() && pp[i] == p by {
                if p == n - 1 {
                    assert(pp[prev.len() as int] == p);
                } else {
                    let i = choose|i: int| 0 <= i < prev.len() && prev[i] == p;
                    assert(pp[i] == p);
                }
            }
        } else {
            assert(pp == prev);
        }
    }
}

/// The order in which stream sources are tried holds every source of the
/// `Sak`, `S-mp4` and `Luf-mp4` providers and no other, each once: sources of
/// `Sak` and `S-mp4` all come before any source of `Luf-mp4`, and within
/// each of these two groups the sources keep their listing order.
pub proof fn source_order_properties(sources: Seq<SourceUrl>)
    requires
        sources.len() <= usize::MAX,
    ensures
        ({
            let o = source_order(sources);
            let name = |p: usize| sources[p as int].source_name@;
            &&& forall|p: int|
                0 <= p < sources.len() ==> ((exists|i: int| 0 <= i < o.len() && o[i] == p) <==> (
                sources[p].source_name@ == "Sak"@ || sources[p].source_name@ == "S-mp4"@
                    || sources[p].source_name@ == "Luf-mp4"@))
            &&& forall|i: int| 0 <= i < o.len() ==> o[i] < sources.len()
            &&& forall|i: int, j: int|
                0 <= i < j < o.len() ==> !(name(o[i]) == "Luf-mp4"@ && name(o[j]) != "Luf-mp4"@)
            &&& forall|i: int, j: int|
                0 <= i < j < o.len() && (name(o[i]) == "Luf-mp4"@) == (name(o[j]) == "Luf-mp4"@)
                    ==> o[i] < o[j]
        }),
{
    reveal_strlit("Sak");
    reveal_strlit("S-mp4");
    reveal_strlit("Luf-mp4");
    assert("Sak"@ != "Luf-mp4"@) by {
        assert("Sak"@.len() != "Luf-mp4"@.len());
    }
    assert("S-mp4"@ != "Luf-mp4"@) by {
        assert("S-mp4"@[0] != "Luf-mp4"@[0]);
    }
    let n = sources.len() as int;
    lemma_group_positions(sources, true, n);
    lemma_group_positions(sources, false, n);
    let a = provider_positions(sources, true, n);
    let b = provider_positions(sources, false, n);
    let o = source_order(sources);
    assert(o == a + b);
    let name = |p: usize| sources[p as int].source_name@;
    assert forall|i: int| 0 <= i < o.len() implies o[i] < sources.len() && (if i < a.len() {
        o[i] == a[i] && name(o[i]) != "Luf-mp4"@
    } else {
        o[i] == b[i - a.len()] && name(o[i]) == "Luf-mp4"@
    }) by {
        if i < a.len() {
            assert(o[i] == a[i]);
            assert(in_group(sources, true, a[i] as int));
        } else {
            assert(o[i] == b[i - a.len()]);
            assert(in_group(sources, false, b[i - a.len()] as int));
        }
    }
    assert forall|p: int|
        0 <= p < sources.len() implies ((exists|i: int| 0 <= i < o.len() && o[i] == p) <==> (
        sources[p].source_name@ == "Sak"@ || sources[p].source_name@ == "S-mp4"@
            || sources[p].source_name@ == "Luf-mp4"@)) by {
        if exists|i: int| 0 <= i < o.len() && o[i] == p {
            let i = choose|i: int| 0 <= i < o.len() && o[i] == p;
            if i < a.len() {
                assert(in_group(sources, true, a[i] as int));
            } else {
                assert(in_group(sources, false, b[i - a.len()] as int));
            }
        }
        if in_group(sources, true, p) {
            let i = choose|i: int| 0 <= i < a.len() && a[i] == p;
            assert(o[i] == p);
        } else if in_group(sources, false, p) {
            let i = choose|i: int| 0 <= i < b.len() && b[i] == p;
            assert(o[a.len() + i] == p);
        }
    }
    assert forall|i: int, j: int|
        0 <= i < j < o.len() && (name(o[i]) == "Luf-mp4"@) == (name(o[j]) == "Luf-mp4"@)
            implies o[i] < o[j] by {
        if j < a.len() {
        } else if i >= a.len() {
            assert(b[i - a.len()] < b[j - a.len()]);
        }
    }
}

/// The link-list address of a decoded identifier is the identifier on the
/// link host with `.json` put right after its first `clock`: taking the
/// `.json` out gives back `https://allanime.day` and the identifier, and
/// there is an address exactly when the identifier contains `clock`.
pub proof fn clock_link_inserts_json(id: Seq<char>)
    ensures
        clock_link(id) is Some <==> exists|i: int| occurs_at(id, "clock"@, i),
        clock_link(id) is Some ==> ({
            let a = clock_link(id)->0;
            let i = choose|i: int| first_clock_at(id, i);
            let h = "https://allanime.day"@.len() as int;
            &&& first_clock_at(id, i)
            &&& a.subrange(h + i, h + i + 5) == "clock"@
            &&& a.subrange(h + i + 5, h + i + 10) == ".json"@
            &&& a.take(h + i + 5) + a.skip(h + i + 10) == "https://allanime.day"@ + id
        }),
{
    reveal_strlit("clock");
    reveal_strlit(".json");
    reveal_strlit("https://");
    reveal_strlit("allanime.day");
    reveal_strlit("https://allanime.day");
    assert("https://"@ + API_BASE@ =~= "https://allanime.day"@);
    if exists|i: int| occurs_at(id, "clock"@, i) {
        let k = choose|k: int| occurs_at(id, "clock"@, k);
        lemma_first_clock_exists(id, k);
        let i = choose|i: int| first_clock_at(id, i);
        let host = "https://allanime.day"@;
        let h = host.len() as int;
        let a = clock_link(id)->0;
        assert(a =~= host + id.take(i + 5) + ".json"@ + id.skip(i + 5));
        assert(id.subrange(i, i + 5) == "clock"@);
        assert(a.subrange(h + i, h + i + 5) =~= id.subrange(i, i + 5));
        assert(a.subrange(h + i + 5, h + i + 10) =~= ".json"@);
        assert(a.take(h + i + 5) + a.skip(h + i + 10) =~= host + id);
    }
}

proof fn lemma_first_clock_exists(id: Seq<char>, k: int)
    requires
        occurs_at(id, "clock"@, k),
    ensures
        exists|i: int| first_clock_at(id, i),
    decreases k,
{
    if forall|j: int| 0 <= j < k ==> !occurs_at(id, "clock"@, j) {
        assert(first_clock_at(id, k));
    } else {
        let j = choose|j: int| 0 <= j < k && occurs_at(id, "clock"@, j);
        lemma_first_clock_exists(id, j);
    }
}

} // verus!
