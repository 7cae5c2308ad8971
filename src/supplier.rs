use std::collections::HashMap;
use std::path::PathBuf;
use vstd::prelude::*;

verus! {

/// std's `PathBuf`, carried as an opaque value in supplier settings.
#[verifier::external_type_specification]
#[verifier::external_body]
pub struct ExPathBuf(PathBuf);

/// The outcome of locating symbols, opaque to callers.
#[derive(Debug)]
pub struct SymbolResult;

/// A symbol file that a supplier located and loaded; its representation is
/// the supplier's own concern.
pub struct SymbolFile {}

/// Why symbols could not be had for a module.
///
/// Sources are usually set up to cascade into the next one on `NotFound`.
/// A `LoadError` or `ParseError` ends the search within one source, since
/// another copy reached the same way would most likely fail the same way;
/// independent sources may still be tried.
#[derive(Debug, PartialEq, Eq)]
pub enum SymbolError {
    /// The symbol file could not be found; other sources may still find it.
    NotFound,
    /// The symbol file was found but could not be read into memory.
    LoadError(String),
    /// The symbol file was read but was too corrupt to be parsed at all.
    ParseError(String),
}

impl SymbolError {
    /// Whether another location may still be tried after this error.
    pub open spec fn spec_allows_cascade(&self) -> bool {
        self is NotFound
    }

    /// Whether another location may still be tried after this error: only
    /// when nothing was found.
    pub fn allows_cascade(&self) -> (r: bool)
        ensures
            r == self.spec_allows_cascade(),
    {
        match self {
            SymbolError::NotFound => true,
            _ => false,
        }
    }
}

/// Something that can locate symbols for modules of type `M`.
pub trait SymbolSupplier<M: ?Sized> {
    /// Locates and loads a symbol file for `module`, by any strategy.
    fn locate_symbols(&self, module: &M) -> Result<SymbolFile, SymbolError>;
}

/// Looks up symbols through one supplier.
pub struct Symbolizer<S> {
    supplier: S,
}

impl<S> Symbolizer<S> {
    /// The supplier that locates symbols.
    pub closed spec fn supplier(&self) -> S {
        self.supplier
    }

    /// A symbolizer that uses `supplier` to locate symbols.
    pub fn new(supplier: S) -> (r: Symbolizer<S>)
        ensures
            r.supplier() == supplier,
    {
        Symbolizer { supplier }
    }
}

/// Where a supplier that searches local paths and symbol servers looks.
pub struct HttpSymbolSupplier {
    /// Local directories searched first.
    pub paths: Vec<PathBuf>,
    /// Symbol server base urls.
    pub urls: Vec<String>,
    /// Where downloads are cached.
    pub cache: PathBuf,
    /// Where downloads are staged before they enter the cache.
    pub tmp: PathBuf,
}

/// Where a supplier that searches local paths looks.
pub struct SimpleSymbolSupplier {
    /// Local directories searched in order.
    pub paths: Vec<PathBuf>,
}

/// A supplier that maps module names to the whole text of a symbol file.
pub struct StringSymbolSupplier {
    /// Symbol file text, keyed by module name.
    pub modules: HashMap<String, String>,
}

/// A supplier that looks up symbols by path or with urls, and may store
/// downloads under `symbols_cache`.
pub fn http_symbol_supplier(
    symbol_paths: Vec<PathBuf>,
    symbol_urls: Vec<String>,
    symbols_cache: PathBuf,
    symbols_tmp: PathBuf,
) -> (r: HttpSymbolSupplier)
    ensures
        r.paths@ == symbol_paths@,
        r.urls@ == symbol_urls@,
        r.cache == symbols_cache,
        r.tmp == symbols_tmp,
{
    HttpSymbolSupplier { paths: symbol_paths, urls: symbol_urls, cache: symbols_cache, tmp: symbols_tmp }
}

/// A supplier that looks up symbols by path.
pub fn simple_symbol_supplier(symbol_paths: Vec<PathBuf>) -> (r: SimpleSymbolSupplier)
    ensures
        r.paths@ == symbol_paths@,
{
    SimpleSymbolSupplier { paths: symbol_paths }
}

/// A supplier that maps module names to the whole text of a symbol file,
/// for tests.
pub fn string_symbol_supplier(modules: HashMap<String, String>) -> (r: StringSymbolSupplier)
    ensures
        r.modules@ == modules@,
{
    StringSymbolSupplier { modules }
}

} // verus!
