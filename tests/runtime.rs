use profiling_runtime::runtime::{precompile_profiling, Budget, Profiling, RunError};

#[test]
fn precompiled_module_passes_through() {
    let p = Profiling::from_precompiled(vec![1, 2, 3]);
    assert!(!p.needs_precompile());
    let q = precompile_profiling(p, Ok(vec![9])).unwrap();
    assert!(q.is_aot);
    assert_eq!(q.bytes, vec![1, 2, 3]);
}

#[test]
fn source_module_takes_compiled_bytes() {
    let p = Profiling::from_source(vec![0, 97, 115, 109]);
    assert!(p.needs_precompile());
    let q = precompile_profiling(p, Ok(vec![7, 7])).unwrap();
    assert!(q.is_aot);
    assert_eq!(q.bytes, vec![7, 7]);
    let p = Profiling::from_source(vec![0]);
    assert_eq!(precompile_profiling(p, Err("bad module".to_string())).err(), Some("bad module".to_string()));
}

#[test]
fn budget_refills_then_terminates() {
    let mut b = Budget::new(2, 10);
    assert_eq!(b.on_deadline(), Ok(10));
    assert_eq!(b.on_deadline(), Ok(10));
    assert_eq!(b.refills_left, 0);
    assert_eq!(b.on_deadline(), Err(RunError::Interrupted));
    assert_eq!(b, Budget::new(0, 10));
}
