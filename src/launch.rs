use vstd::prelude::*;

verus! {

/// Where a launch stands.
#[derive(Debug, Clone, Copy, PartialEq, Eq, Structural)]
pub enum LaunchPhase {
    /// Nothing has been done yet.
    Ready,
    /// A new process-id namespace has been requested.
    Isolating,
    /// The namespace is in place; the disposable root is being checked.
    CheckingRoot,
    /// The child is being spawned.
    Spawning,
    /// The child runs; its end is awaited.
    Waiting,
    /// The child has ended; the launch yields this exit code.
    Exited(i32),
    /// The launch has stopped on a fault.
    Failed(LaunchFault),
}

/// Why a launch stopped.
#[derive(Debug, Clone, Copy, PartialEq, Eq, Structural)]
pub enum LaunchFault {
    /// The namespace request was refused.
    IsolationFailed,
    /// The disposable root is not on disk.
    RootMissing,
    /// The target could not be spawned.
    SpawnFailed,
    /// Waiting for the child failed.
    WaitFailed,
}

/// What happened outside since the last step.
#[derive(Debug, Clone, Copy, PartialEq, Eq, Structural)]
pub enum LaunchEvent {
    /// The caller asks for the launch to begin.
    Begin,
    /// The namespace request returned this code (zero on success).
    Isolated(i32),
    /// Whether the disposable root exists.
    RootChecked(bool),
    /// Whether the spawn succeeded.
    Spawned(bool),
    /// The child ended, with its exit code where it has one.
    ChildExited(Option<i32>),
    /// Waiting for the child failed.
    WaitError,
}

/// What the caller is to do next.
#[derive(Debug, Clone, Copy, PartialEq, Eq, Structural)]
pub enum LaunchAction {
    /// Request a new process-id namespace for the calling process.
    Isolate,
    /// Check that the disposable root exists.
    CheckRoot,
    /// Spawn the target with inherited streams, an empty environment, and
    /// the root change and directory reset in the child before exec.
    Spawn,
    /// Wait for the child to end.
    Wait,
    /// Exit with this code.
    Finish(i32),
    /// Stop on this fault.
    Stop(LaunchFault),
    /// The event does not apply here: do nothing.
    Ignore,
}

impl LaunchFault {
    /// A fatal fault is a broken invariant and aborts; the others are
    /// reported as errors.
    pub open spec fn spec_is_fatal(self) -> bool {
        self is IsolationFailed || self is RootMissing
    }

    pub fn is_fatal(&self) -> (r: bool)
        ensures
            r == self.spec_is_fatal(),
    {
        match self {
            LaunchFault::IsolationFailed => true,
            LaunchFault::RootMissing => true,
            _ => false,
        }
    }
}

/// The exit code reported for a child: its own code, or 1 where it has none
/// (it was ended by a signal).
pub open spec fn spec_exit_code(code: Option<i32>) -> i32 {
    match code {
        Some(c) => c,
        None => 1,
    }
}

/// The exit code reported for a child's status code.
pub fn exit_code(code: Option<i32>) -> (r: i32)
    ensures
        r == spec_exit_code(code),
{
    match code {
        Some(c) => c,
        None => 1,
    }
}

/// The decisions of one isolated launch; the caller performs each action
/// and hands back what came of it. Besides the phase, a launcher knows
/// whether the process already has a process-id namespace of its own, so
/// that a later launch in the same process does not ask for one again.
#[derive(Debug, Clone, Copy, PartialEq, Eq, Structural)]
pub struct Launcher {
    pub phase: LaunchPhase,
    /// The process already runs its children in a new namespace.
    pub isolated: bool,
}

/// The launcher in a phase, with the process isolated or not.
pub open spec fn at(phase: LaunchPhase, isolated: bool) -> Launcher {
    Launcher { phase, isolated }
}

/// The launch's transitions: the next state and the action asked of the caller.
/// The namespace is requested only where the process has none yet; the
/// process counts as isolated once a request has succeeded.
pub open spec fn transition(s: Launcher, e: LaunchEvent) -> (Launcher, LaunchAction) {
    let iso = s.isolated;
    match (s.phase, e) {
        (LaunchPhase::Ready, LaunchEvent::Begin) => if iso {
            (at(LaunchPhase::CheckingRoot, iso), LaunchAction::CheckRoot)
        } else {
            (at(LaunchPhase::Isolating, iso), LaunchAction::Isolate)
        },
        (LaunchPhase::Isolating, LaunchEvent::Isolated(rc)) => if rc == 0 {
            (at(LaunchPhase::CheckingRoot, true), LaunchAction::CheckRoot)
        } else {
            (
                at(LaunchPhase::Failed(LaunchFault::IsolationFailed), iso),
                LaunchAction::Stop(LaunchFault::IsolationFailed),
            )
        },
        (LaunchPhase::CheckingRoot, LaunchEvent::RootChecked(present)) => if present {
            (at(LaunchPhase::Spawning, iso), LaunchAction::Spawn)
        } else {
            (at(LaunchPhase::Failed(LaunchFault::RootMissing), iso), LaunchAction::Stop(LaunchFault::RootMissing))
        },
        (LaunchPhase::Spawning, LaunchEvent::Spawned(ok)) => if ok {
            (at(LaunchPhase::Waiting, iso), LaunchAction::Wait)
        } else {
            (at(LaunchPhase::Failed(LaunchFault::SpawnFailed), iso), LaunchAction::Stop(LaunchFault::SpawnFailed))
        },
        (LaunchPhase::Waiting, LaunchEvent::ChildExited(code)) => (
            at(LaunchPhase::Exited(spec_exit_code(code)), iso),
            LaunchAction::Finish(spec_exit_code(code)),
        ),
        (LaunchPhase::Waiting, LaunchEvent::WaitError) => (
            at(LaunchPhase::Failed(LaunchFault::WaitFailed), iso),
            LaunchAction::Stop(LaunchFault::WaitFailed),
        ),
        _ => (s, LaunchAction::Ignore),
    }
}

/// The actions asked of the caller when these events arrive in turn.
pub open spec fn trace(s: Launcher, events: Seq<LaunchEvent>) -> Seq<LaunchAction>
    decreases events.len(),
{
    if events.len() == 0 {
        Seq::empty()
    } else {
        let (q, a) = transition(s, events[0]);
        seq![a] + trace(q, events.drop_first())
    }
}

/// The state reached when these events arrive in turn.
pub open spec fn run(s: Launcher, events: Seq<LaunchEvent>) -> Launcher
    decreases events.len(),
{
    if events.len() == 0 {
        s
    } else {
        run(transition(s, events[0]).0, events.drop_first())
    }
}

/// Whether an event is what comes of performing an action.
pub open spec fn answers(a: LaunchAction, e: LaunchEvent) -> bool {
    match a {
        LaunchAction::Isolate => e is Isolated,
        LaunchAction::CheckRoot => e is RootChecked,
        LaunchAction::Spawn => e is Spawned,
        LaunchAction::Wait => e is ChildExited || e is WaitError,
        _ => false,
    }
}

impl Launcher {
    /// A launcher for the first launch of a process that has no namespace of its own.
    pub fn new() -> (r: Launcher)
        ensures
            r == at(LaunchPhase::Ready, false),
    {
        Launcher { phase: LaunchPhase::Ready, isolated: false }
    }

    /// A launcher for the next launch in the same process: it starts afresh
    /// and keeps what this one knows of the process's namespace.
    pub fn relaunch(&self) -> (r: Launcher)
        ensures
            r == at(LaunchPhase::Ready, self.isolated),
    {
        Launcher { phase: LaunchPhase::Ready, isolated: self.isolated }
    }

    /// Takes one event and says what to do next.
    pub fn handle(&mut self, e: LaunchEvent) -> (r: LaunchAction)
        ensures
            (*final(self), r) == transition(*old(self), e),
    {
        let iso = self.isolated;
        let (phase, isolated, action) = match (self.phase, e) {
            (LaunchPhase::Ready, LaunchEvent::Begin) => if iso {
                (LaunchPhase::CheckingRoot, iso, LaunchAction::CheckRoot)
            } else {
                (LaunchPhase::Isolating, iso, LaunchAction::Isolate)
            },
            (LaunchPhase::Isolating, LaunchEvent::Isolated(rc)) => if rc == 0 {
                (LaunchPhase::CheckingRoot, true, LaunchAction::CheckRoot)
            } else {
                (
                    LaunchPhase::Failed(LaunchFault::IsolationFailed),
                    iso,
                    LaunchAction::Stop(LaunchFault::IsolationFailed),
                )
            },
            (LaunchPhase::CheckingRoot, LaunchEvent::RootChecked(present)) => if present {
                (LaunchPhase::Spawning, iso, LaunchAction::Spawn)
            } else {
                (LaunchPhase::Failed(LaunchFault::RootMissing), iso, LaunchAction::Stop(LaunchFault::RootMissing))
            },
            (LaunchPhase::Spawning, LaunchEvent::Spawned(ok)) => if ok {
                (LaunchPhase::Waiting, iso, LaunchAction::Wait)
            } else {
                (LaunchPhase::Failed(LaunchFault::SpawnFailed), iso, LaunchAction::Stop(LaunchFault::SpawnFailed))
            },
            (LaunchPhase::Waiting, LaunchEvent::ChildExited(code)) => {
                let c = exit_code(code);
                (LaunchPhase::Exited(c), iso, LaunchAction::Finish(c))
            },
            (LaunchPhase::Waiting, LaunchEvent::WaitError) => (
                LaunchPhase::Failed(LaunchFault::WaitFailed),
                iso,
                LaunchAction::Stop(LaunchFault::WaitFailed),
            ),
            (p, _) => (p, iso, LaunchAction::Ignore),
        };
        self.phase = phase;
        self.isolated = isolated;
        action
    }
}

proof fn lemma_trace_len(s: Launcher, events: Seq<LaunchEvent>)
    ensures
        trace(s, events).len() == events.len(),
    decreases events.len(),
{
    if events.len() > 0 {
        lemma_trace_len(transition(s, events[0]).0, events.drop_first());
    }
}

proof fn lemma_no_isolate_after_start(s: Launcher, events: Seq<LaunchEvent>)
    requires
        s.phase != LaunchPhase::Ready || s.isolated,
    ensures
        forall|j: int| 0 <= j < trace(s, events).len() ==> trace(s, events)[j] != LaunchAction::Isolate,
    decreases events.len(),
{
    if events.len() > 0 {
        let (q, a) = transition(s, events[0]);
        lemma_no_isolate_after_start(q, events.drop_first());
        let t = trace(s, events);
        let rest = trace(q, events.drop_first());
        assert forall|j: int| 0 <= j < t.len() implies t[j] != LaunchAction::Isolate by {
            if j > 0 {
                assert(t[j] == rest[j - 1]);
            }
        }
    }
}

/// A process that already has its own namespace is never isolated again:
/// a launcher that knows so asks for no namespace, whatever events arrive,
/// and still knows so afterwards. With `relaunch`, which keeps this
/// knowledge, a second launch in an isolated process skips the request
/// rather than repeating it.
pub proof fn isolation_never_repeated(s: Launcher, events: Seq<LaunchEvent>)
    requires
        s.isolated,
    ensures
        forall|j: int| 0 <= j < trace(s, events).len() ==> trace(s, events)[j] != LaunchAction::Isolate,
        run(s, events).isolated,
    decreases events.len(),
{
    lemma_no_isolate_after_start(s, events);
    if events.len() > 0 {
        isolation_never_repeated(transition(s, events[0]).0, events.drop_first());
    }
}

/// The namespace is requested at most once per launch: whatever events
/// arrive, and however often the launch is asked to begin, no second
/// request follows the first.
pub proof fn isolation_requested_at_most_once(s: Launcher, events: Seq<LaunchEvent>)
    ensures
        forall|i: int, j: int|
            0 <= i < j < trace(s, events).len() && trace(s, events)[i] == LaunchAction::Isolate
                ==> trace(s, events)[j] != LaunchAction::Isolate,
    decreases events.len(),
{
    if events.len() > 0 {
        let (q, a) = transition(s, events[0]);
        let t = trace(s, events);
        let rest = trace(q, events.drop_first());
        if q == s {
            isolation_requested_at_most_once(q, events.drop_first());
            assert forall|i: int, j: int|
                0 <= i < j < t.len() && t[i] == LaunchAction::Isolate implies t[j] != LaunchAction::Isolate by {
                if i > 0 {
                    assert(t[i] == rest[i - 1]);
                }
                assert(t[j] == rest[j - 1]);
            }
        } else {
            if s.phase == LaunchPhase::Ready && !s.isolated {
                lemma_no_isolate_after_start(q, events.drop_first());
            } else {
                lemma_no_isolate_after_start(s, events);
            }
            isolation_requested_at_most_once(q, events.drop_first());
            assert forall|i: int, j: int|
                0 <= i < j < t.len() && t[i] == LaunchAction::Isolate implies t[j] != LaunchAction::Isolate by {
                assert(t[j] == rest[j - 1]);
            }
        }
    }
}

/// The namespace is requested strictly before the child is spawned: in a
/// process without a namespace of its own, every spawn of a launch is
/// preceded by the namespace request.
pub proof fn isolation_precedes_spawn(events: Seq<LaunchEvent>)
    ensures
        forall|j: int|
            0 <= j < trace(at(LaunchPhase::Ready, false), events).len()
                && trace(at(LaunchPhase::Ready, false), events)[j] == LaunchAction::Spawn
                ==> exists|i: int| 0 <= i < j && trace(at(LaunchPhase::Ready, false), events)[i] == LaunchAction::Isolate,
    decreases events.len(),
{
    let s = at(LaunchPhase::Ready, false);
    if events.len() > 0 {
        let (q, a) = transition(s, events[0]);
        let t = trace(s, events);
        let rest = trace(q, events.drop_first());
        if q == s {
            isolation_precedes_spawn(events.drop_first());
            assert forall|j: int| 0 <= j < t.len() && t[j] == LaunchAction::Spawn implies
                exists|i: int| 0 <= i < j && t[i] == LaunchAction::Isolate by {
                assert(t[j] == rest[j - 1]);
                let i = choose|i: int| 0 <= i < j - 1 && rest[i] == LaunchAction::Isolate;
                assert(t[i + 1] == rest[i]);
            }
        } else {
            assert(t[0] == LaunchAction::Isolate);
        }
    }
}

/// The launcher never ignores what the caller hands back: beginning a
/// fresh launch, and the outcome of the action just asked for, each lead
/// to a next action.
pub proof fn answers_are_not_ignored(s: Launcher, e0: LaunchEvent, e: LaunchEvent)
    ensures
        s.phase == LaunchPhase::Ready ==> transition(s, LaunchEvent::Begin).1 != LaunchAction::Ignore,
        answers(transition(s, e0).1, e) ==> transition(transition(s, e0).0, e).1 != LaunchAction::Ignore,
{
}

/// A launch finishes only with the exit code of the child: its own code when
/// it exited normally, 1 when a signal ended it. Whatever the state and the
/// events, a finish answers the child's exit event, and no other.
pub proof fn finish_reports_child_exit(s: Launcher, events: Seq<LaunchEvent>)
    ensures
        forall|j: int, c: i32|
            0 <= j < trace(s, events).len() && trace(s, events)[j] == LaunchAction::Finish(c)
                ==> exists|code: Option<i32>| events[j] == LaunchEvent::ChildExited(code) && c == spec_exit_code(code),
    decreases events.len(),
{
    if events.len() > 0 {
        let (q, a) = transition(s, events[0]);
        let t = trace(s, events);
        let rest = trace(q, events.drop_first());
        finish_reports_child_exit(q, events.drop_first());
        lemma_trace_len(s, events);
        assert forall|j: int, c: i32| 0 <= j < t.len() && t[j] == LaunchAction::Finish(c) implies
            exists|code: Option<i32>| events[j] == LaunchEvent::ChildExited(code) && c == spec_exit_code(code) by {
            if j == 0 {
                if let LaunchEvent::ChildExited(code) = events[0] {
                    assert(events[j] == LaunchEvent::ChildExited(code) && c == spec_exit_code(code));
                }
            } else {
                assert(t[j] == rest[j - 1]);
                assert(events.drop_first()[j - 1] == events[j]);
            }
        }
    }
}

} // verus!
