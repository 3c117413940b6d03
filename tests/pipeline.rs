use std::path::PathBuf;

use rusti::engine::ModuleRef;
use rusti::loader::DependencyLoader;
use rusti::options::{build_exec_options, sysroot_from_output, CrateType, OptLevel, UnstableFeatures};
use rusti::pipeline::{check_compile, collect_dependencies, finish_translation, first_phase, next_step, Goal, Phase, Step};
use rusti::source::{IntoInput, SourceUnit};
use rusti::supervisor::{handle_compiler_panic, monitor, OutputBuffer, PanicKind, TaskEnd};

#[test]
fn phases_run_in_order_for_execution() {
    assert_eq!(first_phase(), Phase::Parse);
    assert_eq!(next_step(Goal::Execution, Phase::Parse, true), Step::Run(Phase::Expand));
    assert_eq!(next_step(Goal::Execution, Phase::Expand, true), Step::Run(Phase::Analyze));
    assert_eq!(next_step(Goal::Execution, Phase::Analyze, true), Step::Run(Phase::Translate));
    assert_eq!(next_step(Goal::Execution, Phase::Translate, true), Step::Finished);
}

#[test]
fn analysis_stops_before_code_generation() {
    assert_eq!(next_step(Goal::Analysis, Phase::Analyze, true), Step::Finished);
    assert_eq!(next_step(Goal::Analysis, Phase::Expand, true), Step::Run(Phase::Analyze));
}

#[test]
fn a_failed_phase_ends_the_task() {
    assert_eq!(next_step(Goal::Execution, Phase::Parse, false), Step::Failed);
    assert_eq!(next_step(Goal::Execution, Phase::Translate, false), Step::Failed);
    assert_eq!(next_step(Goal::Analysis, Phase::Analyze, false), Step::Failed);
}

#[test]
fn check_compile_maps_errors_to_none() {
    assert_eq!(check_compile(|| Ok::<u32, usize>(5)), Some(5));
    assert_eq!(check_compile(|| Err::<u32, usize>(2)), None);
}

#[test]
fn dependencies_come_before_their_users() {
    // discovery order: the unit's library A, then B which A depends on
    let used = vec![Some(PathBuf::from("liba.so")), None, Some(PathBuf::from("libb.so"))];
    assert_eq!(collect_dependencies(used), vec![PathBuf::from("libb.so"), PathBuf::from("liba.so")]);
}

#[test]
fn no_linked_crates_means_no_dependencies() {
    assert_eq!(collect_dependencies(vec![]), Vec::<PathBuf>::new());
    assert_eq!(collect_dependencies(vec![None, None]), Vec::<PathBuf>::new());
}

#[test]
fn translation_yields_module_and_dependencies() {
    let (m, deps) = finish_translation(&vec![ModuleRef(7)], vec![Some(PathBuf::from("a")), Some(PathBuf::from("b"))]);
    assert_eq!(m, ModuleRef(7));
    assert_eq!(deps, vec![PathBuf::from("b"), PathBuf::from("a")]);
}

#[test]
fn loader_loads_in_set_order() {
    let mut l = DependencyLoader::new(vec![PathBuf::from("libb.so"), PathBuf::from("liba.so")]);
    let mut order = Vec::new();
    while let Some(p) = l.next_dependency() {
        order.push(p.clone());
        l.mark_loaded();
    }
    assert!(l.is_done());
    assert_eq!(order, vec![PathBuf::from("libb.so"), PathBuf::from("liba.so")]);
}

#[test]
fn empty_loader_is_done() {
    let l = DependencyLoader::new(vec![]);
    assert!(l.is_done());
    assert!(l.next_dependency().is_none());
}

#[test]
fn options_are_fixed_for_fast_dylib_builds() {
    let o = build_exec_options(PathBuf::from("/sys"), vec!["a".to_string(), "b".to_string()]);
    assert_eq!(o.sysroot, PathBuf::from("/sys"));
    assert_eq!(o.search_paths, vec!["a".to_string(), "b".to_string()]);
    assert!(o.optimize == OptLevel::No);
    assert!(o.crate_types == vec![CrateType::Dylib]);
    assert!(o.unstable_features == UnstableFeatures::Allow);
}

#[test]
fn sysroot_output_is_trimmed() {
    assert_eq!(sysroot_from_output("/usr/local\n"), "/usr/local");
    assert_eq!(sysroot_from_output("C:\\rust\r\n"), "C:\\rust");
    assert_eq!(sysroot_from_output("/opt/rust"), "/opt/rust");
    assert_eq!(sysroot_from_output("\n\r\n"), "");
    assert_eq!(sysroot_from_output(""), "");
    assert_eq!(sysroot_from_output("/a\nb\n"), "/a\nb");
}

#[test]
fn unexpected_panic_is_reported() {
    let r = handle_compiler_panic(PanicKind::Other, b"boom".to_vec());
    assert!(r.internal_error);
    assert_eq!(r.output, b"boom".to_vec());
}

#[test]
fn expected_aborts_only_flush_output() {
    let r = handle_compiler_panic(PanicKind::FatalError, b"x".to_vec());
    assert!(!r.internal_error);
    assert_eq!(r.output, b"x".to_vec());
    let r = handle_compiler_panic(PanicKind::ExplicitBug, vec![]);
    assert!(!r.internal_error);
}

#[test]
fn crashed_task_yields_nothing_and_next_succeeds() {
    let (r, rep) = monitor(TaskEnd::<u32>::Panicked(PanicKind::Other), b"trace".to_vec());
    assert_eq!(r, None);
    let rep = rep.unwrap();
    assert!(rep.internal_error);
    assert_eq!(rep.output, b"trace".to_vec());
    let (r, rep) = monitor(TaskEnd::Finished(3u32), vec![]);
    assert_eq!(r, Some(3));
    assert!(rep.is_none());
}

#[test]
fn output_buffer_appends() {
    let mut b = OutputBuffer::new();
    assert_eq!(b.write(b"ab"), 2);
    assert_eq!(b.write(b""), 0);
    assert_eq!(b.write(b"c"), 1);
    assert_eq!(b.into_bytes(), b"abc".to_vec());
}

#[test]
fn inputs_become_source_units() {
    assert!(matches!("fn f() {}".into_input(), SourceUnit::Text(s) if s == "fn f() {}"));
    assert!(matches!(String::from("x").into_input(), SourceUnit::Text(s) if s == "x"));
    assert!(matches!(PathBuf::from("a.rs").into_input(), SourceUnit::File(p) if p == PathBuf::from("a.rs")));
}
