//! Symbol sources for stack frames and a combinator that treats an ordered
//! list of sources as one.
mod laws;
mod multi;
mod provider;
mod supplier;

pub use multi::{
    fill_chain, merge_stats, or_fill_result, some_filled, walk_chain, walk_outcome,
    MultiSymbolProvider,
};
pub use provider::{FillSymbolError, FrameSymbolizer, FrameWalker, SymbolProvider, SymbolStats};
pub use laws::{
    lemma_empty_combinator, lemma_fill_all_fail, lemma_fill_calls_every_source,
    lemma_fill_one_success, lemma_stats_two_sources, lemma_walk_first_result,
    lemma_walk_none_iff_all_none,
};
pub use supplier::{
    http_symbol_supplier, simple_symbol_supplier, string_symbol_supplier, HttpSymbolSupplier,
    SimpleSymbolSupplier, StringSymbolSupplier, SymbolError, SymbolFile, SymbolResult,
    SymbolSupplier, Symbolizer,
};
