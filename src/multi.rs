use std::collections::HashMap;
use vstd::prelude::*;

use crate::provider::{FillSymbolError, FrameSymbolizer, FrameWalker, SymbolProvider, SymbolStats};

verus! {

/// Every source of `ps` was called once, in order, on `module`, and source
/// `i` returned `results[i]`.
pub open spec fn fill_chain<M: ?Sized, P: SymbolProvider<M>>(
    ps: Seq<P>,
    module: &M,
    results: Seq<Result<(), FillSymbolError>>,
) -> bool {
    &&& results.len() == ps.len()
    &&& forall|i: int| 0 <= i < ps.len() ==> #[trigger] ps[i].fill_symbol_post(module, results[i])
}

/// At least one of `results` is a success.
pub open spec fn some_filled(results: Seq<Result<(), FillSymbolError>>) -> bool {
    exists|i: int| 0 <= i < results.len() && #[trigger] results[i] is Ok
}

/// The sources of `ps` were called in order on `module`, stopping after the
/// first that returned a result, and source `i` returned `results[i]`.
pub open spec fn walk_chain<M: ?Sized, P: SymbolProvider<M>>(
    ps: Seq<P>,
    module: &M,
    results: Seq<Option<()>>,
) -> bool {
    &&& results.len() <= ps.len()
    &&& forall|i: int| 0 <= i < results.len() ==> #[trigger] ps[i].walk_frame_post(module, results[i])
    &&& forall|i: int| 0 <= i < results.len() - 1 ==> #[trigger] results[i] is None
    &&& results.len() < ps.len() ==> results.len() > 0 && results.last() is Some
}

/// What a walk over the sources returns: the last call's result, none if
/// no source was called.
pub open spec fn walk_outcome(results: Seq<Option<()>>) -> Option<()> {
    if results.len() > 0 {
        results.last()
    } else {
        None
    }
}

/// The union of the maps of `maps`, a later map's entry replacing an
/// earlier one's for the same key.
pub open spec fn merge_stats(maps: Seq<Map<String, SymbolStats>>) -> Map<String, SymbolStats>
    decreases maps.len(),
{
    if maps.len() == 0 {
        Map::empty()
    } else {
        merge_stats(maps.drop_last()).union_prefer_right(maps.last())
    }
}

/// One step of the fold over `fill_symbol` results: a success stays a
/// success, and a failure gives way to the next result.
pub fn or_fill_result(best: Result<(), FillSymbolError>, next: Result<(), FillSymbolError>) -> (r:
    Result<(), FillSymbolError>)
    ensures
        r is Ok <==> (best is Ok || next is Ok),
{
    match best {
        Ok(()) => Ok(()),
        Err(_) => next,
    }
}

/// Relies on `HashMap::extend`: every entry of `other` is inserted, and the
/// value of a key already present is replaced.
#[verifier::external_body]
fn extend_stats(result: &mut HashMap<String, SymbolStats>, other: HashMap<String, SymbolStats>)
    ensures
        final(result)@ == old(result)@.union_prefer_right(other@),
{
    result.extend(other)
}

/// An ordered list of symbol sources that acts as one source.
pub struct MultiSymbolProvider<P> {
    providers: Vec<P>,
}

impl<P> MultiSymbolProvider<P> {
    /// The registered sources, in registration order.
    pub closed spec fn sources(&self) -> Seq<P> {
        self.providers@
    }

    /// A combinator with no sources.
    pub fn new() -> (r: MultiSymbolProvider<P>)
        ensures
            r.sources() == Seq::<P>::empty(),
    {
        MultiSymbolProvider { providers: Vec::new() }
    }

    /// Appends `provider`, which then has the lowest priority.
    pub fn add(&mut self, provider: P)
        ensures
            final(self).sources() == old(self).sources().push(provider),
    {
        self.providers.push(provider);
    }
}

impl<P> Default for MultiSymbolProvider<P> {
    fn default() -> (r: MultiSymbolProvider<P>)
        ensures
            r.sources() == Seq::<P>::empty(),
    {
        MultiSymbolProvider::new()
    }
}

impl<M: ?Sized, P: SymbolProvider<M>> SymbolProvider<M> for MultiSymbolProvider<P> {
    /// Every source was called once, in order, and the result is a success
    /// exactly when one of theirs was.
    open spec fn fill_symbol_post(&self, module: &M, r: Result<(), FillSymbolError>) -> bool {
        exists|results: Seq<Result<(), FillSymbolError>>|
            #[trigger] fill_chain(self.sources(), module, results) && (r is Ok <==> some_filled(
                results,
            ))
    }

    /// The sources were called in order up to the first that returned a
    /// result, and that result is returned.
    open spec fn walk_frame_post(&self, module: &M, r: Option<()>) -> bool {
        exists|results: Seq<Option<()>>|
            #[trigger] walk_chain(self.sources(), module, results) && r == walk_outcome(results)
    }

    /// The statistics of the sources merged in order, the later source
    /// winning on a shared key.
    open spec fn stats_post(&self, r: Map<String, SymbolStats>) -> bool {
        exists|maps: Seq<Map<String, SymbolStats>>|
            maps.len() == self.sources().len() && (forall|i: int|
                0 <= i < maps.len() ==> #[trigger] self.sources()[i].stats_post(maps[i])) && r
                == #[trigger] merge_stats(maps)
    }

    fn fill_symbol<F: FrameSymbolizer>(&self, module: &M, frame: &mut F) -> (r: Result<
        (),
        FillSymbolError,
    >) {
        let ghost start = *frame;
        let mut best_result: Result<(), FillSymbolError> = Err(FillSymbolError {});
        let ghost mut results: Seq<Result<(), FillSymbolError>> = Seq::empty();
        let n = self.providers.len();
        let mut i: usize = 0;
        while i < n
            invariant
                n == self.providers@.len(),
                i <= n,
                results.len() == i,
                forall|j: int|
                    0 <= j < i ==> #[trigger] self.providers@[j].fill_symbol_post(module, results[j]),
                best_result is Ok <==> some_filled(results),
                best_result is Err ==> *frame == start,
            decreases n - i,
        {
            let new_result = self.providers[i].fill_symbol(module, frame);
            proof {
                let prev = results;
                results = results.push(new_result);
                if new_result is Ok {
                    assert(results[i as int] is Ok);
                }
                if some_filled(prev) {
                    let j = choose|j: int| 0 <= j < prev.len() && #[trigger] prev[j] is Ok;
                    assert(results[j] is Ok);
                }
                if some_filled(results) && new_result is Err {
                    let j = choose|j: int| 0 <= j < results.len() && #[trigger] results[j] is Ok;
                    assert(prev[j] is Ok);
                }
            }
            best_result = or_fill_result(best_result, new_result);
            i = i + 1;
        }
        proof {
            assert(fill_chain(self.sources(), module, results));
        }
        best_result
    }

    fn walk_frame<W: FrameWalker>(&self, module: &M, walker: &mut W) -> (r: Option<()>) {
        let ghost start = *walker;
        let ghost mut results: Seq<Option<()>> = Seq::empty();
        let n = self.providers.len();
        let mut i: usize = 0;
        while i < n
            invariant
                n == self.providers@.len(),
                i <= n,
                results.len() == i,
                *walker == start,
                forall|j: int|
                    0 <= j < i ==> #[trigger] self.providers@[j].walk_frame_post(module, results[j]),
                forall|j: int| 0 <= j < i ==> #[trigger] results[j] is None,
            decreases n - i,
        {
            let result = self.providers[i].walk_frame(module, walker);
            proof {
                results = results.push(result);
            }
            if result.is_some() {
                proof {
                    assert(walk_chain(self.sources(), module, results));
                }
                return result;
            }
            i = i + 1;
        }
        proof {
            assert(walk_chain(self.sources(), module, results));
        }
        None
    }

    fn stats(&self) -> (r: HashMap<String, SymbolStats>) {
        let mut result: HashMap<String, SymbolStats> = HashMap::new();
        let ghost mut maps: Seq<Map<String, SymbolStats>> = Seq::empty();
        let n = self.providers.len();
        let mut i: usize = 0;
        while i < n
            invariant
                n == self.providers@.len(),
                i <= n,
                maps.len() == i,
                forall|j: int|
                    0 <= j < i ==> #[trigger] self.providers@[j].stats_post(maps[j]),
                result@ == merge_stats(maps),
            decreases n - i,
        {
            let s = self.providers[i].stats();
            proof {
                let prev = maps;
                maps = maps.push(s@);
                assert(maps.drop_last() =~= prev);
            }
            extend_stats(&mut result, s);
            i = i + 1;
        }
        result
    }
}

} // verus!
