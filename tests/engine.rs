use std::path::PathBuf;

use rusti::engine::{EngineRef, ExecutionEngine, LoadedModule, ModuleRef, Symbol};
use rusti::supervisor::{monitor, PanicKind, TaskEnd};

fn sym(name: &str, addr: usize) -> Symbol {
    Symbol { name: name.to_string(), addr }
}

fn module(handle: usize, functions: Vec<Symbol>, globals: Vec<Symbol>) -> LoadedModule {
    LoadedModule { handle: ModuleRef(handle), functions, globals }
}

fn fresh_engine() -> ExecutionEngine {
    ExecutionEngine::new_with_input(
        EngineRef(1),
        module(10, vec![], vec![]),
        vec!["/opt/libs".to_string()],
        PathBuf::from("/usr/local"),
    )
}

#[test]
fn seed_module_is_registered() {
    let e = fresh_engine();
    assert_eq!(e.module_handles(), vec![ModuleRef(10)]);
    assert_eq!(e.engine(), EngineRef(1));
    assert!(e.contains_module(ModuleRef(10)));
}

#[test]
fn later_module_shadows_earlier() {
    let mut e = fresh_engine();
    let m1 = e.add_module(Some(module(11, vec![sym("f", 0x1000)], vec![]))).unwrap();
    let m2 = e.add_module(Some(module(12, vec![sym("f", 0x2000)], vec![]))).unwrap();
    assert_eq!(m1, ModuleRef(11));
    assert_eq!(m2, ModuleRef(12));
    assert_eq!(e.get_function("f"), Some(0x2000));
    e.remove_module(m2);
    assert_eq!(e.get_function("f"), Some(0x1000));
    assert_eq!(e.module_handles(), vec![ModuleRef(10), ModuleRef(11)]);
}

#[test]
fn failed_compile_leaves_context_unchanged() {
    let mut e = fresh_engine();
    e.add_module(Some(module(11, vec![sym("g", 0x40)], vec![sym("G", 0x80)])));
    assert_eq!(e.add_module(None), None);
    assert_eq!(e.module_handles(), vec![ModuleRef(10), ModuleRef(11)]);
    assert_eq!(e.get_function("g"), Some(0x40));
    assert_eq!(e.get_global("G"), Some(0x80));
}

#[test]
fn unknown_handle_is_not_registered() {
    let mut e = fresh_engine();
    let m = e.add_module(Some(module(11, vec![], vec![]))).unwrap();
    assert!(!e.contains_module(ModuleRef(99)));
    e.remove_module(m);
    assert!(!e.contains_module(m));
}

#[test]
fn lookup_miss_returns_none() {
    let mut e = fresh_engine();
    e.add_module(Some(module(11, vec![sym("f", 1)], vec![sym("G", 2)])));
    assert_eq!(e.get_function("nowhere"), None);
    assert_eq!(e.get_global("nowhere"), None);
    // functions and globals live in separate tables
    assert_eq!(e.get_function("G"), None);
    assert_eq!(e.get_global("f"), None);
}

#[test]
fn globals_are_shadowed_too() {
    let mut e = fresh_engine();
    e.add_module(Some(module(11, vec![], vec![sym("COUNTER", 0x10)])));
    e.add_module(Some(module(12, vec![], vec![sym("COUNTER", 0x20)])));
    assert_eq!(e.get_global("COUNTER"), Some(0x20));
    e.remove_module(ModuleRef(12));
    assert_eq!(e.get_global("COUNTER"), Some(0x10));
}

#[test]
fn removing_middle_module_keeps_order() {
    let mut e = fresh_engine();
    e.add_module(Some(module(11, vec![sym("f", 1)], vec![])));
    e.add_module(Some(module(12, vec![sym("f", 2)], vec![])));
    e.add_module(Some(module(13, vec![sym("h", 3)], vec![])));
    e.remove_module(ModuleRef(12));
    assert_eq!(e.module_handles(), vec![ModuleRef(10), ModuleRef(11), ModuleRef(13)]);
    assert_eq!(e.get_function("f"), Some(1));
    assert_eq!(e.get_function("h"), Some(3));
}

#[test]
fn first_entry_of_a_name_wins_within_a_module() {
    let mut e = fresh_engine();
    e.add_module(Some(module(11, vec![sym("f", 7), sym("f", 8)], vec![])));
    assert_eq!(e.get_function("f"), Some(7));
}

#[test]
fn end_to_end_add_lookup_remove() {
    let mut e = fresh_engine();
    let m = e.add_module(Some(module(11, vec![sym("add_one", 0xbeef)], vec![]))).unwrap();
    assert_eq!(e.get_function("add_one"), Some(0xbeef));
    e.remove_module(m);
    assert_eq!(e.get_function("add_one"), None);
}

#[test]
fn exec_options_follow_the_context() {
    let e = fresh_engine();
    let o = e.exec_options();
    assert_eq!(o.sysroot, PathBuf::from("/usr/local"));
    assert_eq!(o.search_paths, vec!["/opt/libs".to_string()]);
}

#[test]
fn crash_leaves_engine_usable() {
    let mut e = fresh_engine();
    e.add_module(Some(module(11, vec![sym("f", 5)], vec![])));
    let (crashed, report) = monitor(TaskEnd::<LoadedModule>::Panicked(PanicKind::Other), vec![]);
    assert!(report.unwrap().internal_error);
    assert_eq!(e.add_module(crashed), None);
    assert_eq!(e.get_function("f"), Some(5));
    let (ok, _) = monitor(TaskEnd::Finished(module(12, vec![sym("g", 6)], vec![])), vec![]);
    assert_eq!(e.add_module(ok), Some(ModuleRef(12)));
    assert_eq!(e.get_function("g"), Some(6));
}
