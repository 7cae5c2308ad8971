use std::cell::Cell;
use std::collections::HashMap;
use std::rc::Rc;

use symbol_provider::{
    or_fill_result, FillSymbolError, FrameSymbolizer, FrameWalker, MultiSymbolProvider,
    SymbolProvider, SymbolStats,
};

struct TestModule {
    #[allow(dead_code)]
    name: String,
}

fn module() -> TestModule {
    TestModule { name: String::from("app.dll") }
}

#[derive(Default)]
struct TestFrame {
    instruction: u64,
    function: Option<(String, u64, u32)>,
    source: Option<(String, u32, u64)>,
}

impl FrameSymbolizer for TestFrame {
    fn get_instruction(&self) -> u64 {
        self.instruction
    }
    fn set_function(&mut self, name: &str, base: u64, parameter_size: u32) {
        self.function = Some((String::from(name), base, parameter_size));
    }
    fn set_source_file(&mut self, file: &str, line: u32, base: u64) {
        self.source = Some((String::from(file), line, base));
    }
}

#[derive(Default)]
struct TestWalker {
    caller: HashMap<String, u64>,
}

impl FrameWalker for TestWalker {
    fn get_instruction(&self) -> u64 {
        0x1234
    }
    fn get_grand_callee_parameter_size(&self) -> u32 {
        0
    }
    fn get_register_at_address(&self, _address: u64) -> Option<u64> {
        None
    }
    fn get_callee_register(&self, _name: &str) -> Option<u64> {
        None
    }
    fn set_caller_register(&mut self, name: &str, val: u64) -> Option<()> {
        self.caller.insert(String::from(name), val);
        Some(())
    }
    fn clear_caller_register(&mut self, name: &str) {
        self.caller.remove(name);
    }
    fn set_cfa(&mut self, val: u64) -> Option<()> {
        self.set_caller_register("sp", val)
    }
    fn set_ra(&mut self, val: u64) -> Option<()> {
        self.set_caller_register("pc", val)
    }
}

/// A source whose answers are fixed, counting its calls.
#[derive(Default)]
struct Mock {
    function: Option<(&'static str, u64)>,
    line: Option<(&'static str, u32)>,
    fills: bool,
    walk_ra: Option<u64>,
    stats: Vec<(&'static str, SymbolStats)>,
    fill_calls: Rc<Cell<u32>>,
    walk_calls: Rc<Cell<u32>>,
}

impl SymbolProvider<TestModule> for Mock {
    fn fill_symbol<F: FrameSymbolizer>(
        &self,
        _module: &TestModule,
        frame: &mut F,
    ) -> Result<(), FillSymbolError> {
        self.fill_calls.set(self.fill_calls.get() + 1);
        if !self.fills {
            return Err(FillSymbolError {});
        }
        if let Some((name, base)) = self.function {
            frame.set_function(name, base, 0);
        }
        if let Some((file, line)) = self.line {
            frame.set_source_file(file, line, frame.get_instruction());
        }
        Ok(())
    }

    fn walk_frame<W: FrameWalker>(&self, _module: &TestModule, walker: &mut W) -> Option<()> {
        self.walk_calls.set(self.walk_calls.get() + 1);
        let ra = self.walk_ra?;
        walker.set_ra(ra)
    }

    fn stats(&self) -> HashMap<String, SymbolStats> {
        self.stats
            .iter()
            .map(|(k, v)| (String::from(*k), v.clone()))
            .collect()
    }
}

fn failing() -> Mock {
    Mock::default()
}

fn naming(name: &'static str, base: u64) -> Mock {
    Mock { fills: true, function: Some((name, base)), ..Mock::default() }
}

fn walking(ra: u64) -> Mock {
    Mock { walk_ra: Some(ra), ..Mock::default() }
}

fn combine(sources: Vec<Mock>) -> MultiSymbolProvider<Mock> {
    let mut multi = MultiSymbolProvider::new();
    for s in sources {
        multi.add(s);
    }
    multi
}

fn fill(sources: Vec<Mock>) -> (Result<(), FillSymbolError>, TestFrame) {
    let multi = combine(sources);
    let mut frame = TestFrame { instruction: 0x1010, ..TestFrame::default() };
    let r = multi.fill_symbol(&module(), &mut frame);
    (r, frame)
}

#[test]
fn fill_success_success() {
    let (r, frame) = fill(vec![naming("a", 0x10), naming("b", 0x20)]);
    assert_eq!(r, Ok(()));
    assert_eq!(frame.function, Some((String::from("b"), 0x20, 0)));
}

#[test]
fn fill_success_failure() {
    let (r, frame) = fill(vec![naming("a", 0x10), failing()]);
    assert_eq!(r, Ok(()));
    assert_eq!(frame.function, Some((String::from("a"), 0x10, 0)));
}

#[test]
fn fill_failure_success() {
    let (r, _) = fill(vec![failing(), naming("b", 0x20)]);
    assert_eq!(r, Ok(()));
}

#[test]
fn fill_failure_failure() {
    let (r, frame) = fill(vec![failing(), failing()]);
    assert_eq!(r, Err(FillSymbolError {}));
    assert!(frame.function.is_none());
    assert!(frame.source.is_none());
}

#[test]
fn fill_calls_every_source_once() {
    let sources = vec![naming("a", 1), failing(), naming("c", 3)];
    let counters: Vec<Rc<Cell<u32>>> = sources.iter().map(|s| s.fill_calls.clone()).collect();
    let multi = combine(sources);
    let mut frame = TestFrame::default();
    assert_eq!(multi.fill_symbol(&module(), &mut frame), Ok(()));
    for c in &counters {
        assert_eq!(c.get(), 1);
    }
    assert_eq!(multi.fill_symbol(&module(), &mut frame), Ok(()));
    for c in &counters {
        assert_eq!(c.get(), 2);
    }
}

#[test]
fn walk_stops_at_first_result() {
    let sources = vec![failing(), walking(0xaaaa), walking(0xbbbb)];
    let counters: Vec<Rc<Cell<u32>>> = sources.iter().map(|s| s.walk_calls.clone()).collect();
    let multi = combine(sources);
    let mut walker = TestWalker::default();
    assert_eq!(multi.walk_frame(&module(), &mut walker), Some(()));
    assert_eq!(walker.caller.get("pc"), Some(&0xaaaa));
    assert_eq!(counters[0].get(), 1);
    assert_eq!(counters[1].get(), 1);
    assert_eq!(counters[2].get(), 0);
}

#[test]
fn walk_none_when_every_source_has_none() {
    let sources = vec![failing(), failing(), failing()];
    let counters: Vec<Rc<Cell<u32>>> = sources.iter().map(|s| s.walk_calls.clone()).collect();
    let multi = combine(sources);
    let mut walker = TestWalker::default();
    assert_eq!(multi.walk_frame(&module(), &mut walker), None);
    assert!(walker.caller.is_empty());
    for c in &counters {
        assert_eq!(c.get(), 1);
    }
}

#[test]
fn walk_some_when_last_source_has_result() {
    let multi = combine(vec![failing(), walking(7)]);
    let mut walker = TestWalker::default();
    assert_eq!(multi.walk_frame(&module(), &mut walker), Some(()));
    assert_eq!(walker.caller.get("pc"), Some(&7));
}

fn stats_of(url: &str, loaded: bool, corrupt: bool) -> SymbolStats {
    SymbolStats {
        symbol_url: Some(String::from(url)),
        loaded_symbols: loaded,
        corrupt_symbols: corrupt,
    }
}

#[test]
fn stats_later_source_wins_and_keys_unite() {
    let first = Mock {
        stats: vec![("shared", stats_of("a", true, false)), ("only_a", stats_of("x", false, true))],
        ..Mock::default()
    };
    let second = Mock {
        stats: vec![("shared", stats_of("b", false, true)), ("only_b", stats_of("y", true, false))],
        ..Mock::default()
    };
    let stats = combine(vec![first, second]).stats();
    assert_eq!(stats.len(), 3);
    assert_eq!(stats["shared"], stats_of("b", false, true));
    assert_eq!(stats["only_a"], stats_of("x", false, true));
    assert_eq!(stats["only_b"], stats_of("y", true, false));
}

#[test]
fn empty_combinator() {
    let multi: MultiSymbolProvider<Mock> = MultiSymbolProvider::new();
    let mut frame = TestFrame { instruction: 5, ..TestFrame::default() };
    assert_eq!(multi.fill_symbol(&module(), &mut frame), Err(FillSymbolError {}));
    assert!(frame.function.is_none());
    let mut walker = TestWalker::default();
    assert_eq!(multi.walk_frame(&module(), &mut walker), None);
    assert!(multi.stats().is_empty());
    let defaulted: MultiSymbolProvider<Mock> = MultiSymbolProvider::default();
    assert!(defaulted.stats().is_empty());
}

#[test]
fn not_found_source_then_naming_source() {
    let (r, frame) = fill(vec![failing(), naming("foo", 0x1000)]);
    assert_eq!(r, Ok(()));
    assert_eq!(frame.function, Some((String::from("foo"), 0x1000, 0)));
}

#[test]
fn function_source_then_line_source() {
    let lines = Mock { fills: true, line: Some(("foo.c", 42)), ..Mock::default() };
    let (r, frame) = fill(vec![naming("foo", 0x1000), lines]);
    assert_eq!(r, Ok(()));
    assert_eq!(frame.function, Some((String::from("foo"), 0x1000, 0)));
    assert_eq!(frame.source, Some((String::from("foo.c"), 42, 0x1010)));
}

#[test]
fn nested_combinators() {
    let inner = combine(vec![failing(), naming("inner", 0x40)]);
    let mut outer = MultiSymbolProvider::new();
    outer.add(inner);
    outer.add(combine(vec![failing()]));
    let mut frame = TestFrame::default();
    assert_eq!(outer.fill_symbol(&module(), &mut frame), Ok(()));
    assert_eq!(frame.function, Some((String::from("inner"), 0x40, 0)));
    let mut walker = TestWalker::default();
    assert_eq!(outer.walk_frame(&module(), &mut walker), None);
}

#[test]
fn or_fill_result_values() {
    let ok = || Ok(());
    let err = || Err(FillSymbolError {});
    assert_eq!(or_fill_result(ok(), ok()), Ok(()));
    assert_eq!(or_fill_result(ok(), err()), Ok(()));
    assert_eq!(or_fill_result(err(), ok()), Ok(()));
    assert_eq!(or_fill_result(err(), err()), Err(FillSymbolError {}));
}

#[test]
fn default_stats_record_is_empty() {
    let s = SymbolStats::default();
    assert_eq!(s.symbol_url, None);
    assert!(!s.loaded_symbols);
    assert!(!s.corrupt_symbols);
}
