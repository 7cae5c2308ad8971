use std::collections::HashMap;
use vstd::prelude::*;

verus! {

/// The failure of one `fill_symbol` call: this source placed nothing on the frame.
#[derive(Debug, PartialEq, Eq)]
pub struct FillSymbolError {}

/// Statistics on the symbols of one module.
#[derive(Debug, Clone, Default, PartialEq, Eq)]
pub struct SymbolStats {
    /// If the module's symbols were downloaded, this is the url used.
    pub symbol_url: Option<String>,
    /// If the symbols were found and loaded into memory.
    pub loaded_symbols: bool,
    /// If the symbols were read but were too corrupt to parse.
    pub corrupt_symbols: bool,
}

/// Something that receives symbol information, such as a stack frame.
pub trait FrameSymbolizer {
    /// The program counter value for this frame.
    fn get_instruction(&self) -> u64;

    /// Sets the name, base address and parameter size of the function in
    /// which this frame is executing.
    fn set_function(&mut self, name: &str, base: u64, parameter_size: u32);

    /// Sets the source file and (1-based) line number this frame represents.
    fn set_source_file(&mut self, file: &str, line: u32, base: u64);
}

/// The unwind state between a callee frame and the caller frame being recovered.
pub trait FrameWalker {
    /// The instruction address to unwind from.
    fn get_instruction(&self) -> u64;

    /// The bytes that the callee's callee's parameters take up on the stack
    /// (0 if unknown).
    fn get_grand_callee_parameter_size(&self) -> u32;

    /// A register-sized value stored at `address`.
    fn get_register_at_address(&self, address: u64) -> Option<u64>;

    /// The value of a register of the callee's frame.
    fn get_callee_register(&self, name: &str) -> Option<u64>;

    /// Sets the value of a register of the caller's frame.
    fn set_caller_register(&mut self, name: &str, val: u64) -> Option<()>;

    /// Marks one of the caller's registers as invalid.
    fn clear_caller_register(&mut self, name: &str);

    /// Sets the caller registers that derive from the canonical frame address.
    fn set_cfa(&mut self, val: u64) -> Option<()>;

    /// Sets the caller registers that derive from the return address.
    fn set_ra(&mut self, val: u64) -> Option<()>;
}

/// A source of symbols and unwind data for modules of type `M`.
///
/// Each source may state, through the three `*_post` spec functions, what
/// one call of the matching method returns; callers reason over those. By
/// default they promise nothing.
pub trait SymbolProvider<M: ?Sized> {
    /// Holds of every result `r` that a `fill_symbol` call on `module` may return.
    open spec fn fill_symbol_post(&self, module: &M, r: Result<(), FillSymbolError>) -> bool {
        true
    }

    /// Holds of every result `r` that a `walk_frame` call on `module` may return.
    open spec fn walk_frame_post(&self, module: &M, r: Option<()>) -> bool {
        true
    }

    /// Holds of every map of statistics that `stats` may return.
    open spec fn stats_post(&self, r: Map<String, SymbolStats>) -> bool {
        true
    }

    /// Resolves the frame's instruction within `module`. On failure the
    /// frame is left as it was.
    fn fill_symbol<F: FrameSymbolizer>(&self, module: &M, frame: &mut F) -> (r: Result<
        (),
        FillSymbolError,
    >)
        ensures
            self.fill_symbol_post(module, r),
            r is Err ==> *final(frame) == *old(frame),
    ;

    /// Computes caller registers from this source's unwind data for
    /// `module`. With no result the walker is left as it was.
    fn walk_frame<W: FrameWalker>(&self, module: &M, walker: &mut W) -> (r: Option<()>)
        ensures
            self.walk_frame_post(module, r),
            r is None ==> *final(walker) == *old(walker),
    ;

    /// A snapshot of the statistics, keyed by module.
    fn stats(&self) -> (r: HashMap<String, SymbolStats>)
        ensures
            self.stats_post(r@),
    ;
}

} // verus!
