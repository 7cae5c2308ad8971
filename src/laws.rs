use vstd::prelude::*;

use crate::multi::{fill_chain, merge_stats, some_filled, walk_chain, walk_outcome, MultiSymbolProvider};
use crate::provider::{FillSymbolError, SymbolProvider, SymbolStats};

verus! {

/// If one registered source succeeds in every `fill_symbol` call on
/// `module`, the combined `fill_symbol` succeeds.
pub proof fn lemma_fill_one_success<M: ?Sized, P: SymbolProvider<M>>(
    c: &MultiSymbolProvider<P>,
    module: &M,
    r: Result<(), FillSymbolError>,
    i: int,
)
    requires
        c.fill_symbol_post(module, r),
        0 <= i < c.sources().len(),
        forall|rr: Result<(), FillSymbolError>|
            #[trigger] c.sources()[i].fill_symbol_post(module, rr) ==> rr is Ok,
    ensures
        r is Ok,
{
    let results = choose|results: Seq<Result<(), FillSymbolError>>|
        #[trigger] fill_chain(c.sources(), module, results) && (r is Ok <==> some_filled(results));
    assert(c.sources()[i].fill_symbol_post(module, results[i]));
    assert(results[i] is Ok);
}

/// If every registered source fails in every `fill_symbol` call on
/// `module`, the combined `fill_symbol` fails.
pub proof fn lemma_fill_all_fail<M: ?Sized, P: SymbolProvider<M>>(
    c: &MultiSymbolProvider<P>,
    module: &M,
    r: Result<(), FillSymbolError>,
)
    requires
        c.fill_symbol_post(module, r),
        forall|i: int, rr: Result<(), FillSymbolError>|
            0 <= i < c.sources().len() && #[trigger] c.sources()[i].fill_symbol_post(module, rr)
                ==> rr is Err,
    ensures
        r is Err,
{
    let results = choose|results: Seq<Result<(), FillSymbolError>>|
        #[trigger] fill_chain(c.sources(), module, results) && (r is Ok <==> some_filled(results));
    assert forall|j: int| 0 <= j < results.len() implies #[trigger] results[j] is Err by {
        assert(c.sources()[j].fill_symbol_post(module, results[j]));
    }
}

/// A combined `fill_symbol` calls every registered source exactly once,
/// whatever the earlier ones returned, and succeeds exactly when one of
/// those calls did.
pub proof fn lemma_fill_calls_every_source<M: ?Sized, P: SymbolProvider<M>>(
    c: &MultiSymbolProvider<P>,
    module: &M,
    r: Result<(), FillSymbolError>,
)
    requires
        c.fill_symbol_post(module, r),
    ensures
        exists|results: Seq<Result<(), FillSymbolError>>|
            {
                &&& results.len() == c.sources().len()
                &&& forall|i: int|
                    0 <= i < results.len() ==> #[trigger] c.sources()[i].fill_symbol_post(
                        module,
                        results[i],
                    )
                &&& r is Ok <==> exists|i: int| 0 <= i < results.len() && #[trigger] results[i] is Ok
            },
{
    let results = choose|results: Seq<Result<(), FillSymbolError>>|
        #[trigger] fill_chain(c.sources(), module, results) && (r is Ok <==> some_filled(results));
    assert(results.len() == c.sources().len());
}

/// If source `k` returns a result in every `walk_frame` call on `module`
/// and every source before it returns none, the combined `walk_frame`
/// returns that result and calls no source after `k`.
pub proof fn lemma_walk_first_result<M: ?Sized, P: SymbolProvider<M>>(
    c: &MultiSymbolProvider<P>,
    module: &M,
    r: Option<()>,
    k: int,
)
    requires
        c.walk_frame_post(module, r),
        0 <= k < c.sources().len(),
        forall|j: int, rr: Option<()>|
            0 <= j < k && #[trigger] c.sources()[j].walk_frame_post(module, rr) ==> rr is None,
        forall|rr: Option<()>| #[trigger] c.sources()[k].walk_frame_post(module, rr) ==> rr is Some,
    ensures
        r is Some,
        exists|results: Seq<Option<()>>|
            #[trigger] walk_chain(c.sources(), module, results) && results.len() == k + 1 && r
                == walk_outcome(results),
{
    let results = choose|results: Seq<Option<()>>|
        #[trigger] walk_chain(c.sources(), module, results) && r == walk_outcome(results);
    if results.len() <= k {
        let last = results.len() - 1;
        assert(results.len() > 0 && results.last() is Some);
        assert(c.sources()[last].walk_frame_post(module, results[last]));
        assert(false);
    }
    if results.len() > k + 1 {
        assert(results[k] is None);
        assert(c.sources()[k].walk_frame_post(module, results[k]));
        assert(false);
    }
    assert(c.sources()[k].walk_frame_post(module, results[k]));
}

/// A combined `walk_frame` returns none exactly when every registered
/// source was called and each returned none.
pub proof fn lemma_walk_none_iff_all_none<M: ?Sized, P: SymbolProvider<M>>(
    c: &MultiSymbolProvider<P>,
    module: &M,
    r: Option<()>,
)
    requires
        c.walk_frame_post(module, r),
    ensures
        exists|results: Seq<Option<()>>|
            {
                &&& #[trigger] walk_chain(c.sources(), module, results)
                &&& r is None <==> (results.len() == c.sources().len() && forall|i: int|
                    0 <= i < results.len() ==> #[trigger] results[i] is None)
            },
{
    let results = choose|results: Seq<Option<()>>|
        #[trigger] walk_chain(c.sources(), module, results) && r == walk_outcome(results);
    if results.len() > 0 {
        assert(results.last() == results[results.len() - 1]);
    }
}

/// The combined statistics of two sources hold every key of either; on a
/// key that both report, the second-registered source's record wins.
pub proof fn lemma_stats_two_sources<M: ?Sized, P: SymbolProvider<M>>(
    c: &MultiSymbolProvider<P>,
    m: Map<String, SymbolStats>,
)
    requires
        c.sources().len() == 2,
        c.stats_post(m),
    ensures
        exists|a: Map<String, SymbolStats>, b: Map<String, SymbolStats>|
            {
                &&& #[trigger] c.sources()[0].stats_post(a)
                &&& #[trigger] c.sources()[1].stats_post(b)
                &&& m.dom() == a.dom().union(b.dom())
                &&& forall|k: String| #[trigger] b.contains_key(k) ==> m[k] == b[k]
                &&& forall|k: String|
                    a.contains_key(k) && !b.contains_key(k) ==> #[trigger] m[k] == a[k]
            },
{
    let maps = choose|maps: Seq<Map<String, SymbolStats>>|
        maps.len() == c.sources().len() && (forall|i: int|
            0 <= i < maps.len() ==> #[trigger] c.sources()[i].stats_post(maps[i])) && m
            == #[trigger] merge_stats(maps);
    let a = maps[0];
    let b = maps[1];
    let first = maps.drop_last();
    assert(first.drop_last() =~= Seq::<Map<String, SymbolStats>>::empty());
    assert(merge_stats(first.drop_last()) == Map::<String, SymbolStats>::empty());
    assert(first.last() == a);
    assert(merge_stats(first) =~= a);
    assert(m =~= a.union_prefer_right(b));
    assert(m.dom() =~= a.dom().union(b.dom()));
    assert(c.sources()[0].stats_post(a));
    assert(c.sources()[1].stats_post(b));
}

/// A combinator with no sources fails every `fill_symbol`, returns none
/// from every `walk_frame` and reports no statistics.
pub proof fn lemma_empty_combinator<M: ?Sized, P: SymbolProvider<M>>(
    c: &MultiSymbolProvider<P>,
    module: &M,
    fill: Result<(), FillSymbolError>,
    walk: Option<()>,
    stats: Map<String, SymbolStats>,
)
    requires
        c.sources().len() == 0,
    ensures
        c.fill_symbol_post(module, fill) ==> fill is Err,
        c.walk_frame_post(module, walk) ==> walk is None,
        c.stats_post(stats) ==> stats == Map::<String, SymbolStats>::empty(),
{
    if c.walk_frame_post(module, walk) {
        let results = choose|results: Seq<Option<()>>|
            #[trigger] walk_chain(c.sources(), module, results) && walk == walk_outcome(results);
        assert(results.len() == 0);
    }
    if c.stats_post(stats) {
        let maps = choose|maps: Seq<Map<String, SymbolStats>>|
            maps.len() == c.sources().len() && (forall|i: int|
                0 <= i < maps.len() ==> #[trigger] c.sources()[i].stats_post(maps[i])) && stats
                == #[trigger] merge_stats(maps);
        assert(maps.len() == 0);
    }
}

} // verus!
