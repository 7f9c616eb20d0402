use vm_manager::resource::decide;

#[test]
fn decide_direct_under_ceiling() {
    let d = decide(4096, 16384);
    assert!(d.direct);
    assert_eq!(d.memory_ceiling_mb, None);
}

#[test]
fn decide_sandboxed_over_ceiling() {
    let d = decide(8192, 16384);
    assert!(!d.direct);
    assert_eq!(d.memory_ceiling_mb, Some(7168));
}

#[test]
fn decide_boundary_exactly_at_ceiling() {
    let d = decide(7168, 16384);
    assert!(d.direct);
    assert_eq!(d.memory_ceiling_mb, None);
}

#[test]
fn decide_small_host() {
    let d = decide(2048, 8192);
    assert!(d.direct);
    let d = decide(3073, 8192);
    assert!(!d.direct);
    assert_eq!(d.memory_ceiling_mb, Some(3072));
}
