use vm_manager::plan::Phase;
use vm_manager::supervise::ShutdownSignal;
use vm_manager::supervise::ShutdownStep;
use vm_manager::supervise::SupervisedProcess;
use vm_manager::supervise::hold_open_requested;
use vm_manager::supervise::published_pid_value;
use vm_manager::supervise::shutdown_steps;
use vm_manager::supervise::signal_handler_steps;
use vm_manager::supervise::signal_sequence;

#[test]
fn signal_order_is_cont_int_term() {
    assert_eq!(
        signal_sequence(),
        vec![ShutdownSignal::Cont, ShutdownSignal::Interrupt, ShutdownSignal::Terminate]
    );
}

#[test]
fn shutdown_steps_for_live_process() {
    let p = SupervisedProcess { pid: Some(4242), phase: Phase::Run, helper_pids: vec![] };
    let steps = shutdown_steps(&p);
    assert_eq!(steps.len(), 8);
    assert_eq!(steps[0], ShutdownStep::SendSignal { pid: 4242, signal: ShutdownSignal::Cont });
    assert_eq!(steps[1], ShutdownStep::Settle { millis: 50 });
    assert_eq!(
        steps[2],
        ShutdownStep::SendSignal { pid: 4242, signal: ShutdownSignal::Interrupt }
    );
    assert_eq!(
        steps[4],
        ShutdownStep::SendSignal { pid: 4242, signal: ShutdownSignal::Terminate }
    );
    assert_eq!(steps[7], ShutdownStep::ForceKill { pid: 4242 });
}

#[test]
fn shutdown_steps_cover_helpers_in_order() {
    let p = SupervisedProcess {
        pid: Some(100),
        phase: Phase::Run,
        helper_pids: vec![Some(200), None, Some(300)],
    };
    let steps = shutdown_steps(&p);
    // 8 steps each for the primary and the two live helpers; none for the
    // reaped one.
    assert_eq!(steps.len(), 24);
    assert_eq!(steps[8], ShutdownStep::SendSignal { pid: 200, signal: ShutdownSignal::Cont });
    assert_eq!(steps[16], ShutdownStep::SendSignal { pid: 300, signal: ShutdownSignal::Cont });
}

#[test]
fn shutdown_twice_on_exited_handle_is_noop() {
    let mut p = SupervisedProcess {
        pid: Some(100),
        phase: Phase::Run,
        helper_pids: vec![Some(200)],
    };
    let first = shutdown_steps(&p);
    assert!(!first.is_empty());
    p.clear();
    // A second shutdown on the already-exited handle: no signals, no waits,
    // no error.
    let second = shutdown_steps(&p);
    assert!(second.is_empty());
    let third = shutdown_steps(&p);
    assert!(third.is_empty());
}

#[test]
fn published_pid_uses_sentinel() {
    assert_eq!(published_pid_value(Some(4242)), 4242);
    assert_eq!(published_pid_value(None), 0);
}

#[test]
fn signal_handler_ignores_sentinel_and_reserved() {
    assert!(signal_handler_steps(0).is_empty());
    assert!(signal_handler_steps(3).is_empty());
    let steps = signal_handler_steps(4242);
    assert_eq!(steps.len(), 6);
    assert_eq!(steps[0], ShutdownStep::SendSignal { pid: 4242, signal: ShutdownSignal::Cont });
    assert!(!steps.iter().any(|s| matches!(s, ShutdownStep::ForceKill { .. })));
}

#[test]
fn hold_open_toggle_values() {
    assert!(hold_open_requested(&Some("1".to_string())));
    assert!(hold_open_requested(&Some("true".to_string())));
    assert!(hold_open_requested(&Some("T".to_string())));
    assert!(!hold_open_requested(&Some("no".to_string())));
    assert!(!hold_open_requested(&Some(String::new())));
    assert!(!hold_open_requested(&None));
}
