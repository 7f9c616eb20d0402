//! Process supervision: the supervised-process handle, the escalating
//! multi-signal shutdown sequence, the published-identifier rule for the
//! asynchronous shutdown listener, and the hold-open toggle.  Sending the
//! signals and sleeping happen outside the library; this module decides
//! which steps to take, in which order.

use vstd::prelude::*;

use crate::plan::Phase;
use crate::strings::spec_contains_char;

verus! {

/// The escalating shutdown signals, gentlest first: continue (wake a stopped
/// process), interrupt, terminate.
#[derive(PartialEq, Eq, Structural, Clone, Copy, Debug)]
pub enum ShutdownSignal {
    Cont,
    Interrupt,
    Terminate,
}

/// One step of the shutdown sequence: send a signal, settle for a fixed
/// delay, or forcefully kill as the final backstop.
#[derive(PartialEq, Eq, Structural, Clone, Copy, Debug)]
pub enum ShutdownStep {
    SendSignal { pid: i32, signal: ShutdownSignal },
    Settle { millis: u64 },
    ForceKill { pid: i32 },
}

/// A spawned hypervisor with its helper processes.  A `None` identifier
/// means the process has already exited and been reaped, or was never
/// spawned with a known identifier.
pub struct SupervisedProcess {
    pub pid: Option<i32>,
    pub phase: Phase,
    pub helper_pids: Vec<Option<i32>>,
}

impl SupervisedProcess {
    /// Every identifier has been reset: nothing is left to signal.
    pub open spec fn spec_cleared(self) -> bool {
        self.pid is None && forall|i: int|
            0 <= i < self.helper_pids@.len() ==> self.helper_pids@[i] is None
    }

    /// Reset every identifier, as the end of a completed shutdown sequence
    /// does.  The phase tag is kept.
    pub fn clear(&mut self)
        ensures
            final(self).spec_cleared(),
            final(self).phase == old(self).phase,
            final(self).helper_pids@.len() == old(self).helper_pids@.len(),
    {
        self.pid = None;
        let n = self.helper_pids.len();
        let mut hs: Vec<Option<i32>> = Vec::new();
        let mut i: usize = 0;
        while i < n
            invariant
                i <= n,
                hs@.len() == i,
                forall|j: int| 0 <= j < i ==> hs@[j] is None,
            decreases n - i,
        {
            hs.push(None);
            i += 1;
        }
        self.helper_pids = hs;
    }
}

/// The escalating signal order.
pub open spec fn spec_signal_sequence() -> Seq<ShutdownSignal> {
    seq![ShutdownSignal::Cont, ShutdownSignal::Interrupt, ShutdownSignal::Terminate]
}

/// The three signals of the graceful sequence, gentlest first.
pub fn signal_sequence() -> (r: Vec<ShutdownSignal>)
    ensures
        r@ == spec_signal_sequence(),
{
    let mut r: Vec<ShutdownSignal> = Vec::new();
    r.push(ShutdownSignal::Cont);
    r.push(ShutdownSignal::Interrupt);
    r.push(ShutdownSignal::Terminate);
    proof {
        assert(r@ =~= spec_signal_sequence());
    }
    r
}

/// The graceful steps for one process: each signal followed by a short
/// settle delay, a longer settle, then the unconditional kill backstop.  A
/// process with no known identifier gets no steps: there is nothing left to
/// signal, and repeating its shutdown is a no-op.
pub open spec fn spec_process_steps(pid: Option<i32>) -> Seq<ShutdownStep> {
    match pid {
        Some(p) => seq![
            ShutdownStep::SendSignal { pid: p, signal: ShutdownSignal::Cont },
            ShutdownStep::Settle { millis: 50 },
            ShutdownStep::SendSignal { pid: p, signal: ShutdownSignal::Interrupt },
            ShutdownStep::Settle { millis: 50 },
            ShutdownStep::SendSignal { pid: p, signal: ShutdownSignal::Terminate },
            ShutdownStep::Settle { millis: 50 },
            ShutdownStep::Settle { millis: 150 },
            ShutdownStep::ForceKill { pid: p },
        ],
        None => Seq::<ShutdownStep>::empty(),
    }
}

/// The steps for a list of helper processes, in spawn order.
pub open spec fn spec_helpers_steps(hs: Seq<Option<i32>>) -> Seq<ShutdownStep>
    decreases hs.len(),
{
    if hs.len() == 0 {
        Seq::<ShutdownStep>::empty()
    } else {
        spec_helpers_steps(hs.drop_last()) + spec_process_steps(hs.last())
    }
}

/// The whole shutdown sequence: the primary process first, then every
/// helper, each with its own settle delays.
pub open spec fn spec_shutdown_steps(p: SupervisedProcess) -> Seq<ShutdownStep> {
    spec_process_steps(p.pid) + spec_helpers_steps(p.helper_pids@)
}

fn one_process_steps(pid: Option<i32>) -> (r: Vec<ShutdownStep>)
    ensures
        r@ == spec_process_steps(pid),
{
    let mut r: Vec<ShutdownStep> = Vec::new();
    if let Some(p) = pid {
        r.push(ShutdownStep::SendSignal { pid: p, signal: ShutdownSignal::Cont });
        r.push(ShutdownStep::Settle { millis: 50 });
        r.push(ShutdownStep::SendSignal { pid: p, signal: ShutdownSignal::Interrupt });
        r.push(ShutdownStep::Settle { millis: 50 });
        r.push(ShutdownStep::SendSignal { pid: p, signal: ShutdownSignal::Terminate });
        r.push(ShutdownStep::Settle { millis: 50 });
        r.push(ShutdownStep::Settle { millis: 150 });
        r.push(ShutdownStep::ForceKill { pid: p });
        proof {
            assert(r@ =~= spec_process_steps(pid));
        }
    } else {
        proof {
            assert(r@ =~= spec_process_steps(pid));
        }
    }
    r
}

/// Compute the ordered shutdown steps for a supervised process and its
/// helpers.  The caller performs each step in order; none of them can fail
/// the sequence, and a handle whose processes have already exited yields no
/// steps at all.
pub fn shutdown_steps(p: &SupervisedProcess) -> (r: Vec<ShutdownStep>)
    ensures
        r@ == spec_shutdown_steps(*p),
{
    let mut r = one_process_steps(p.pid);
    let n = p.helper_pids.len();
    let mut i: usize = 0;
    proof {
        assert(p.helper_pids@.take(0) =~= Seq::<Option<i32>>::empty());
    }
    while i < n
        invariant
            n == p.helper_pids@.len(),
            i <= n,
            r@ == spec_process_steps(p.pid) + spec_helpers_steps(p.helper_pids@.take(i as int)),
        decreases n - i,
    {
        let mut steps = one_process_steps(p.helper_pids[i]);
        let ghost before = r@;
        r.append(&mut steps);
        proof {
            assert(p.helper_pids@.take(i + 1).drop_last() =~= p.helper_pids@.take(i as int));
            assert(r@ =~= spec_process_steps(p.pid) + spec_helpers_steps(
                p.helper_pids@.take(i + 1),
            ));
        }
        i += 1;
    }
    proof {
        assert(p.helper_pids@.take(n as int) =~= p.helper_pids@);
    }
    r
}

/// Repeating a shutdown is harmless: once a handle is cleared, its shutdown
/// sequence is empty, so a second invocation neither signals nor waits.
pub proof fn lemma_shutdown_idempotent(p: SupervisedProcess)
    requires
        p.spec_cleared(),
    ensures
        spec_shutdown_steps(p) == Seq::<ShutdownStep>::empty(),
{
    lemma_helpers_steps_cleared(p.helper_pids@);
    assert(spec_shutdown_steps(p) =~= Seq::<ShutdownStep>::empty());
}

proof fn lemma_helpers_steps_cleared(hs: Seq<Option<i32>>)
    requires
        forall|i: int| 0 <= i < hs.len() ==> hs[i] is None,
    ensures
        spec_helpers_steps(hs) == Seq::<ShutdownStep>::empty(),
    decreases hs.len(),
{
    if hs.len() > 0 {
        lemma_helpers_steps_cleared(hs.drop_last());
        assert(spec_helpers_steps(hs) =~= Seq::<ShutdownStep>::empty());
    }
}

// ---------------------------------------------------------------------------
// The published identifier and the asynchronous shutdown listener
// ---------------------------------------------------------------------------

/// The value stored in the process-wide identifier cell: the spawned
/// identifier, or the 0 sentinel when none is known.
pub fn published_pid_value(pid: Option<u32>) -> (r: i32)
    ensures
        pid is Some ==> r == pid->0 as i32,
        pid is None ==> r == 0,
{
    match pid {
        Some(p) =>
        #[verifier::truncate]
        (p as i32),
        None => 0,
    }
}

/// The signal-only steps the asynchronous shutdown listener takes for a
/// published identifier: the graceful three-signal sequence with its settle
/// delays, and nothing at all for a sentinel or system-reserved value.
pub fn signal_handler_steps(published_pid: i32) -> (r: Vec<ShutdownStep>)
    ensures
        published_pid > 3 ==> r@ == seq![
            ShutdownStep::SendSignal { pid: published_pid, signal: ShutdownSignal::Cont },
            ShutdownStep::Settle { millis: 50 },
            ShutdownStep::SendSignal { pid: published_pid, signal: ShutdownSignal::Interrupt },
            ShutdownStep::Settle { millis: 50 },
            ShutdownStep::SendSignal { pid: published_pid, signal: ShutdownSignal::Terminate },
            ShutdownStep::Settle { millis: 50 },
        ],
        published_pid <= 3 ==> r@ == Seq::<ShutdownStep>::empty(),
{
    let mut r: Vec<ShutdownStep> = Vec::new();
    if published_pid > 3 {
        r.push(ShutdownStep::SendSignal { pid: published_pid, signal: ShutdownSignal::Cont });
        r.push(ShutdownStep::Settle { millis: 50 });
        r.push(
            ShutdownStep::SendSignal { pid: published_pid, signal: ShutdownSignal::Interrupt },
        );
        r.push(ShutdownStep::Settle { millis: 50 });
        r.push(
            ShutdownStep::SendSignal { pid: published_pid, signal: ShutdownSignal::Terminate },
        );
        r.push(ShutdownStep::Settle { millis: 50 });
        proof {
            assert(r@ =~= seq![
                ShutdownStep::SendSignal { pid: published_pid, signal: ShutdownSignal::Cont },
                ShutdownStep::Settle { millis: 50 },
                ShutdownStep::SendSignal {
                    pid: published_pid,
                    signal: ShutdownSignal::Interrupt,
                },
                ShutdownStep::Settle { millis: 50 },
                ShutdownStep::SendSignal {
                    pid: published_pid,
                    signal: ShutdownSignal::Terminate,
                },
                ShutdownStep::Settle { millis: 50 },
            ]);
        }
    }
    r
}

// ---------------------------------------------------------------------------
// The hold-open toggle
// ---------------------------------------------------------------------------

/// Whether the hold-open environment toggle asks to keep the VM alive after
/// the interactive input stream ends: any value containing `1`, `t` or `T`.
pub open spec fn spec_hold_open_requested(env_val: Option<String>) -> bool {
    match env_val {
        Some(v) => spec_contains_char(v@, '1') || spec_contains_char(v@, 't')
            || spec_contains_char(v@, 'T'),
        None => false,
    }
}

/// Decide the hold-open mode from the toggle's environment value.
pub fn hold_open_requested(env_val: &Option<String>) -> (r: bool)
    ensures
        r == spec_hold_open_requested(*env_val),
{
    match env_val {
        Some(v) => {
            crate::strings::contains_char(v.as_str(), '1') || crate::strings::contains_char(
                v.as_str(),
                't',
            ) || crate::strings::contains_char(v.as_str(), 'T')
        },
        None => false,
    }
}

} // verus!
