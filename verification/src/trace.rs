//! Following a child process from one trace stop to the next and reporting
//! the files it opens.
//!
//! Waiting for the child, resuming it and reading its registers and memory
//! are the caller's work. What to do at each stop is decided here:
//! [`on_wait`] turns the state of the run and what the wait reported into the
//! next action, [`classify`] and [`observe`] turn a register snapshot into an
//! observation, and [`SyscallHandler::handle`] delivers it.

use crate::cstring::{c_string, lemma_c_string_exact};
use crate::error::Error;
use vstd::prelude::*;

verus! {

/// Number of the trap signal that announces the child's first stop.
pub const SIGTRAP: i32 = 5;

/// Number of the `open` system call on x86-64.
pub const SYS_OPEN: i64 = 2;

/// Number of the `openat` system call on x86-64.
pub const SYS_OPENAT: i64 = 257;

/// What a wait for the child reported.
#[derive(Debug, Clone, Copy, PartialEq, Eq, Structural)]
pub enum WaitEvent {
    /// The child exited; `code` is what it reported.
    Exited { code: i32 },
    /// The child was killed by a signal.
    Signaled { signal: i32 },
    /// The child was stopped by a signal.
    Stopped { signal: i32 },
    /// The child stopped at the entry or the exit of a system call.
    PtraceSyscall,
}

/// How far a trace run has come.
#[derive(Debug, Clone, Copy, PartialEq, Eq, Structural)]
pub enum TraceState {
    /// The child was spawned and its first stop is awaited.
    Initial,
    /// Tracing is configured and the child runs from one stop to the next.
    Tracing,
}

/// What the caller does after a wait.
#[derive(Debug, Clone, PartialEq, Eq)]
pub enum TraceAction {
    /// Ask for stops at system calls and for the child to be killed with the
    /// tracer, then resume the child to its next system call.
    Configure,
    /// The child was stopped by `signal` and not by a system call: note it,
    /// and resume the child to its next system call.
    Resume { signal: i32 },
    /// Read the child's registers, report an `open` or `openat`, then resume
    /// the child to its next system call.
    Inspect,
    /// The child exited: collect its output; the run succeeded.
    Finish { code: i32 },
    /// The run failed.
    Fail(Error),
}

/// An action and the state it leaves the run in; no state once the run is over.
#[derive(Debug, Clone, PartialEq, Eq)]
pub struct TraceStep {
    pub action: TraceAction,
    pub next: Option<TraceState>,
}

/// Whether `event` can be reported in `state`. System-call stops are asked
/// for by the configuration, so none can come before it.
pub open spec fn expected(state: TraceState, event: WaitEvent) -> bool {
    !(state is Initial && event is PtraceSyscall)
}

/// The tracer's transition table.
///
/// An exit ends the run in success and a kill ends it in failure, whenever
/// they come. Before the configuration the only stop that lets the run go on
/// is the trap; any other stop fails it. After the configuration a stop by a
/// signal is passed over and a stop at a system call is inspected.
pub open spec fn trace_step(state: TraceState, event: WaitEvent) -> TraceStep
    recommends
        expected(state, event),
{
    match event {
        WaitEvent::Exited { code } => TraceStep { action: TraceAction::Finish { code }, next: None },
        WaitEvent::Signaled { signal } => TraceStep {
            action: TraceAction::Fail(Error::DynamicSignaled(signal)),
            next: None,
        },
        WaitEvent::Stopped { signal } => match state {
            TraceState::Initial => if signal == SIGTRAP {
                TraceStep { action: TraceAction::Configure, next: Some(TraceState::Tracing) }
            } else {
                TraceStep { action: TraceAction::Fail(Error::DynamicSignaled(signal)), next: None }
            },
            TraceState::Tracing => TraceStep {
                action: TraceAction::Resume { signal },
                next: Some(TraceState::Tracing),
            },
        },
        WaitEvent::PtraceSyscall => TraceStep {
            action: TraceAction::Inspect,
            next: Some(TraceState::Tracing),
        },
    }
}

/// Tells whether `event` can be reported in `state`.
pub fn expects(state: TraceState, event: WaitEvent) -> (ok: bool)
    ensures
        ok == expected(state, event),
{
    match (state, event) {
        (TraceState::Initial, WaitEvent::PtraceSyscall) => false,
        _ => true,
    }
}

/// Decides what follows a wait that reported `event` while the run was in
/// `state`.
pub fn on_wait(state: TraceState, event: WaitEvent) -> (step: TraceStep)
    requires
        expected(state, event),
    ensures
        step == trace_step(state, event),
{
    match event {
        WaitEvent::Exited { code } => TraceStep { action: TraceAction::Finish { code }, next: None },
        WaitEvent::Signaled { signal } => TraceStep {
            action: TraceAction::Fail(Error::DynamicSignaled(signal)),
            next: None,
        },
        WaitEvent::Stopped { signal } => match state {
            TraceState::Initial => {
                if signal == SIGTRAP {
                    TraceStep { action: TraceAction::Configure, next: Some(TraceState::Tracing) }
                } else {
                    TraceStep {
                        action: TraceAction::Fail(Error::DynamicSignaled(signal)),
                        next: None,
                    }
                }
            },
            TraceState::Tracing => TraceStep {
                action: TraceAction::Resume { signal },
                next: Some(TraceState::Tracing),
            },
        },
        WaitEvent::PtraceSyscall => TraceStep {
            action: TraceAction::Inspect,
            next: Some(TraceState::Tracing),
        },
    }
}

/// The registers of a child stopped at a system call that the tracer reads:
/// the call's number and its first three arguments.
#[derive(Debug, Clone, Copy, PartialEq, Eq, Structural)]
pub struct Registers {
    pub orig_rax: u64,
    pub rdi: u64,
    pub rsi: u64,
    pub rdx: u64,
}

/// The system calls that are reported.
#[derive(Debug, Clone, Copy, PartialEq, Eq, Structural)]
pub enum Syscall {
    Open,
    OpenAt,
}

/// The reported system call that `registers` stand for, by its number read as
/// a signed value; `None` for every other call.
pub open spec fn syscall_of(registers: Registers) -> Option<Syscall> {
    if registers.orig_rax as i64 == SYS_OPENAT {
        Some(Syscall::OpenAt)
    } else if registers.orig_rax as i64 == SYS_OPEN {
        Some(Syscall::Open)
    } else {
        None
    }
}

/// The argument that points to the path: the first of `open`, the second of
/// `openat`.
pub open spec fn path_pointer(registers: Registers, syscall: Syscall) -> u64 {
    match syscall {
        Syscall::Open => registers.rdi,
        Syscall::OpenAt => registers.rsi,
    }
}

/// Tells whether the child is at an `open` or an `openat`.
pub fn classify(registers: &Registers) -> (syscall: Option<Syscall>)
    ensures
        syscall == syscall_of(*registers),
{
    let number: i64 = registers.orig_rax as i64;
    if number == SYS_OPENAT {
        Some(Syscall::OpenAt)
    } else if number == SYS_OPEN {
        Some(Syscall::Open)
    } else {
        None
    }
}

/// The address in the child at which the path of `syscall` starts.
pub fn path_address(registers: &Registers, syscall: Syscall) -> (address: u64)
    ensures
        address == path_pointer(*registers, syscall),
{
    match syscall {
        Syscall::Open => registers.rdi,
        Syscall::OpenAt => registers.rsi,
    }
}

/// One intercepted call, as it is handed to the caller's handlers.
#[derive(Debug, Clone, PartialEq, Eq)]
pub enum SyscallObservation {
    Open { path: Vec<u8>, flags: i32 },
    OpenAt { dirfd: i32, path: Vec<u8>, flags: i32 },
}

/// A [`SyscallObservation`] with its path as a sequence of bytes.
pub enum ObservationView {
    Open { path: Seq<u8>, flags: i32 },
    OpenAt { dirfd: i32, path: Seq<u8>, flags: i32 },
}

impl View for SyscallObservation {
    type V = ObservationView;

    open spec fn view(&self) -> ObservationView {
        match self {
            SyscallObservation::Open { path, flags } => ObservationView::Open {
                path: path@,
                flags: *flags,
            },
            SyscallObservation::OpenAt { dirfd, path, flags } => ObservationView::OpenAt {
                dirfd: *dirfd,
                path: path@,
                flags: *flags,
            },
        }
    }
}

impl ObservationView {
    /// The path that the call was made with.
    pub open spec fn path(self) -> Seq<u8> {
        match self {
            ObservationView::Open { path, .. } => path,
            ObservationView::OpenAt { path, .. } => path,
        }
    }
}

/// The observation of `syscall` made with `registers` and the path `path`.
///
/// The flags are the low 32 bits of the argument after the path, and the
/// directory descriptor of `openat` is the low 32 bits of its first argument.
pub open spec fn observation(registers: Registers, syscall: Syscall, path: Seq<u8>) -> ObservationView {
    match syscall {
        Syscall::Open => ObservationView::Open { path, flags: registers.rsi as i32 },
        Syscall::OpenAt => ObservationView::OpenAt {
            dirfd: registers.rdi as i32,
            path,
            flags: registers.rdx as i32,
        },
    }
}

/// Puts an observation together once the path has been read from the child.
pub fn observe(registers: &Registers, syscall: Syscall, path: Vec<u8>) -> (seen: SyscallObservation)
    ensures
        seen@ == observation(*registers, syscall, path@),
{
    match syscall {
        Syscall::Open => SyscallObservation::Open { path, flags: registers.rsi as i32 },
        Syscall::OpenAt => SyscallObservation::OpenAt {
            dirfd: registers.rdi as i32,
            path,
            flags: registers.rdx as i32,
        },
    }
}

/// The caller's two handlers, one for each reported system call.
pub struct SyscallHandler<FOpen, FOpenAt> {
    pub open: FOpen,
    pub openat: FOpenAt,
}

impl<FOpen, FOpenAt> SyscallHandler<FOpen, FOpenAt> where
    FOpen: FnMut(Vec<u8>, i32),
    FOpenAt: FnMut(i32, Vec<u8>, i32),
 {
    /// Hands `seen` to the handler of its kind and leaves the other untouched.
    pub fn handle(&mut self, seen: SyscallObservation)
        requires
            forall|path: Vec<u8>, flags: i32| call_requires(old(self).open, (path, flags)),
            forall|dirfd: i32, path: Vec<u8>, flags: i32|
                call_requires(old(self).openat, (dirfd, path, flags)),
        ensures
            seen is Open ==> final(self).openat == old(self).openat,
            seen is OpenAt ==> final(self).open == old(self).open,
            seen matches SyscallObservation::Open { path, flags } ==> call_ensures(
                old(self).open,
                (path, flags),
                (),
            ),
            seen matches SyscallObservation::OpenAt { dirfd, path, flags } ==> call_ensures(
                old(self).openat,
                (dirfd, path, flags),
                (),
            ),
    {
        match seen {
            SyscallObservation::Open { path, flags } => (self.open)(path, flags),
            SyscallObservation::OpenAt { dirfd, path, flags } => (self.openat)(dirfd, path, flags),
        }
    }
}

/// What a traced child hands back once it has exited: the status that the
/// wait reported and everything it wrote to its two output streams.
#[derive(Debug, Clone, PartialEq, Eq)]
pub struct TraceOutput {
    pub status: i32,
    pub stdout: Vec<u8>,
    pub stderr: Vec<u8>,
}

impl TraceOutput {
    /// Whether the status reports success, which only a zero status does.
    pub open spec fn spec_success(&self) -> bool {
        self.status == 0
    }

    #[verifier::when_used_as_spec(spec_success)]
    pub fn success(&self) -> (ok: bool)
        ensures
            ok == self.spec_success(),
    {
        self.status == 0
    }
}

/// The output of a child that exited with `code`, from what was drained from
/// its output streams.
pub fn output_of_child(code: i32, stdout: Vec<u8>, stderr: Vec<u8>) -> (output: TraceOutput)
    ensures
        output.status == code,
        output.stdout == stdout,
        output.stderr == stderr,
        output.success() == (code == 0),
{
    TraceOutput { status: code, stdout, stderr }
}

/// One stop of a traced child as the tracer meets it: what the wait reported
/// and, for a stop at a system call, the registers and the memory that the
/// path argument points to.
pub struct Stop {
    pub event: WaitEvent,
    pub registers: Registers,
    pub memory: Seq<u8>,
}

/// What a stop at a system call is reported as: an observation for `open`
/// and `openat`, with the string found at the path argument, and nothing for
/// any other call.
pub open spec fn observed(stop: Stop) -> Option<ObservationView> {
    match syscall_of(stop.registers) {
        Some(syscall) => Some(observation(stop.registers, syscall, c_string(stop.memory))),
        None => None,
    }
}

/// A trace run after some stops: its state, or none when it is over; the
/// observations delivered so far, oldest first; and how it ended, with the
/// child's exit code or the error.
pub struct Run {
    pub state: Option<TraceState>,
    pub delivered: Seq<ObservationView>,
    pub result: Option<Result<i32, Error>>,
}

/// The run that meets `stops` in this order, each handled by [`trace_step`]
/// before the next is awaited. Stops after the end of the run are not met.
/// It is the run of the tracer for stops that keep to the protocol.
pub open spec fn run(stops: Seq<Stop>) -> Run
    decreases stops.len(),
{
    if stops.len() == 0 {
        Run { state: Some(TraceState::Initial), delivered: Seq::empty(), result: None }
    } else {
        let before = run(stops.drop_last());
        let stop = stops.last();
        match before.state {
            None => before,
            Some(state) => {
                let step = trace_step(state, stop.event);
                Run {
                    state: step.next,
                    delivered: if step.action is Inspect && observed(stop) is Some {
                        before.delivered.push(observed(stop).unwrap())
                    } else {
                        before.delivered
                    },
                    result: match step.action {
                        TraceAction::Finish { code } => Some(Ok(code)),
                        TraceAction::Fail(error) => Some(Err(error)),
                        _ => None,
                    },
                }
            },
        }
    }
}

/// Whether the child keeps to the trace protocol: every stop that the run
/// meets can be reported in the state that the run is in.
pub open spec fn keeps_protocol(stops: Seq<Stop>) -> bool {
    forall|k: int|
        0 <= k < stops.len() ==> (run(stops.take(k)).state matches Some(state) ==> expected(
            state,
            #[trigger] stops[k].event,
        ))
}

/// A run is over exactly when it has a result, and only an exit of the child
/// makes the result a success.
pub proof fn lemma_run_result(stops: Seq<Stop>)
    ensures
        run(stops).state is None <==> run(stops).result is Some,
        run(stops).result matches Some(Ok(code)) ==> exists|i: int|
            0 <= i < stops.len() && #[trigger] stops[i].event == (WaitEvent::Exited { code }),
    decreases stops.len(),
{
    if stops.len() > 0 {
        lemma_run_result(stops.drop_last());
        let before = run(stops.drop_last());
        if before.state is None {
            if let Some(Ok(code)) = before.result {
                let i = choose|i: int|
                    0 <= i < stops.drop_last().len() && #[trigger] stops.drop_last()[i].event == (
                    WaitEvent::Exited { code });
                assert(stops[i].event == (WaitEvent::Exited { code }));
            }
        } else if let Some(Ok(code)) = run(stops).result {
            assert(stops[stops.len() - 1].event == (WaitEvent::Exited { code }));
        }
    }
}

/// A child that exits while the run is on ends the run in success, with the
/// code that it exited with.
pub proof fn lemma_exit_is_success(stops: Seq<Stop>, at: int, code: i32)
    requires
        0 <= at < stops.len(),
        run(stops.take(at)).state is Some,
        stops[at].event == (WaitEvent::Exited { code }),
    ensures
        run(stops).result == Some(Ok::<i32, Error>(code)),
        run(stops).state is None,
{
    let met = stops.take(at + 1);
    assert(met.drop_last() =~= stops.take(at));
    lemma_run_extends(stops, at + 1);
}

/// A child that is killed by a signal while the run is on fails the run with
/// an error that names the signal; the run then has no other result.
pub proof fn lemma_signal_is_fatal(stops: Seq<Stop>, at: int, signal: i32)
    requires
        0 <= at < stops.len(),
        run(stops.take(at)).state is Some,
        stops[at].event == (WaitEvent::Signaled { signal }),
    ensures
        run(stops).result == Some(Err::<i32, Error>(Error::DynamicSignaled(signal))),
        run(stops).state is None,
{
    let met = stops.take(at + 1);
    assert(met.drop_last() =~= stops.take(at));
    lemma_run_extends(stops, at + 1);
}

/// Later stops take nothing back: what was delivered after the first `count`
/// stops stays delivered, in the same places, and a run that was over then is
/// the same run now.
pub proof fn lemma_run_extends(stops: Seq<Stop>, count: int)
    requires
        0 <= count <= stops.len(),
    ensures
        run(stops.take(count)).delivered.len() <= run(stops).delivered.len(),
        forall|k: int|
            0 <= k < run(stops.take(count)).delivered.len() ==> run(stops).delivered[k] == run(
                stops.take(count),
            ).delivered[k],
        run(stops.take(count)).state is None ==> run(stops) == run(stops.take(count)),
    decreases stops.len(),
{
    if count == stops.len() {
        assert(stops.take(count) =~= stops);
    } else {
        lemma_run_extends(stops.drop_last(), count);
        assert(stops.drop_last().take(count) =~= stops.take(count));
    }
}

/// Observations are delivered in the order of the calls: of two reported
/// calls that the run meets, the earlier is delivered at an earlier place.
pub proof fn lemma_delivery_order(stops: Seq<Stop>, first: int, second: int)
    requires
        keeps_protocol(stops),
        0 <= first < second < stops.len(),
        run(stops.take(second)).state is Some,
        stops[first].event is PtraceSyscall,
        stops[second].event is PtraceSyscall,
        observed(stops[first]) is Some,
        observed(stops[second]) is Some,
    ensures
        ({
            let delivered = run(stops).delivered;
            let p = run(stops.take(first)).delivered.len() as int;
            let q = run(stops.take(second)).delivered.len() as int;
            &&& p < q < delivered.len()
            &&& delivered[p] == observed(stops[first]).unwrap()
            &&& delivered[q] == observed(stops[second]).unwrap()
        }),
{
    let upto_first = stops.take(first + 1);
    let upto_second = stops.take(second + 1);
    assert(upto_first.drop_last() =~= stops.take(first));
    assert(upto_second.drop_last() =~= stops.take(second));
    // The run was still on at the earlier call, since it is on at the later.
    assert(run(stops.take(first)).state is Some) by {
        lemma_run_extends(stops.take(second), first);
        assert(stops.take(second).take(first) =~= stops.take(first));
    }
    lemma_run_extends(stops.take(second), first + 1);
    assert(stops.take(second).take(first + 1) =~= upto_first);
    lemma_run_extends(stops, first + 1);
    lemma_run_extends(stops, second + 1);
}

/// A reported call that the run meets is delivered with the path that the
/// child passed, byte for byte.
pub proof fn lemma_open_is_reported(stops: Seq<Stop>, at: int, path: Seq<u8>, rest: Seq<u8>)
    requires
        keeps_protocol(stops),
        0 <= at < stops.len(),
        run(stops.take(at)).state is Some,
        stops[at].event is PtraceSyscall,
        syscall_of(stops[at].registers) is Some,
        !path.contains(0u8),
        stops[at].memory == path + seq![0u8] + rest,
    ensures
        exists|k: int|
            0 <= k < run(stops).delivered.len() && (#[trigger] run(stops).delivered[k]).path()
                == path,
{
    lemma_c_string_exact(path, rest);
    let met = stops.take(at + 1);
    assert(met.drop_last() =~= stops.take(at));
    lemma_run_extends(stops, at + 1);
    let k = run(stops.take(at)).delivered.len() as int;
    assert(run(stops).delivered[k].path() == path);
}

} // verus!
