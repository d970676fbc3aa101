use vstd::prelude::*;
use crate::config::Config;
use crate::event::{ChangeEvent, DebouncedKind, EventClass, class_of, classify};
use crate::signal::DeliveryError;

verus! {

/// Where the dispatch engine stands.
#[derive(Clone, Copy, Debug, PartialEq, Eq, Structural)]
pub enum Phase {
    /// No identifier has been resolved yet.
    Starting,
    /// An identifier is held and events are signalled to it.
    Watching,
    /// The last delivery failed; the identifier must be resolved afresh.
    Resolving,
}

/// The engine's state as the contracts see it.
pub ghost struct WatchState {
    pub phase: Phase,
    pub pid: i32,
}

/// What the engine asks its caller to do with one event.
#[derive(Clone, Copy, Debug, PartialEq, Eq, Structural)]
pub enum Action {
    /// A pre-announcement: discard it silently.
    Ignore,
    /// A malformed event: discard it with a warning.
    Warn,
    /// A qualifying event while no identifier is held: resolve one first.
    Wait,
    /// Send the signal once, to `pid`, and hand the outcome to `on_delivery`.
    Signal { pid: i32 },
}

/// What a delivery attempt came to.
#[derive(Clone, Copy, Debug, PartialEq, Eq, Structural)]
pub enum Step {
    /// The signal was delivered to `pid`.
    Delivered { pid: i32 },
    /// Delivery to `pid` failed; the identifier must be resolved again.
    Failed { pid: i32, error: DeliveryError },
}

/// A fatal problem found before watching starts.
#[derive(Clone, Copy, Debug, PartialEq, Eq, Structural)]
pub enum SetupError {
    /// The path to watch does not exist.
    TargetMissing,
}

/// Whether an event of class `c` makes the engine in state `s` send a signal.
pub open spec fn attempts(s: WatchState, c: EventClass) -> bool {
    c == EventClass::Qualifying && s.phase == Phase::Watching
}

/// What the engine in state `s` asks for on an event of class `c`: a signal
/// to the identifier held exactly when it attempts one.
pub open spec fn action_of(s: WatchState, c: EventClass) -> Action {
    if attempts(s, c) {
        Action::Signal { pid: s.pid }
    } else {
        match c {
            EventClass::Notice => Action::Ignore,
            EventClass::Malformed => Action::Warn,
            EventClass::Qualifying => Action::Wait,
        }
    }
}

/// What a delivery attempt from state `s` reports, given its outcome.
pub open spec fn delivery_step(s: WatchState, outcome: Result<(), DeliveryError>) -> Step {
    match outcome {
        Ok(_) => Step::Delivered { pid: s.pid },
        Err(e) => Step::Failed { pid: s.pid, error: e },
    }
}

/// The state after a delivery attempt from state `s`: a failure calls for a
/// fresh identifier, a success changes nothing.
pub open spec fn after_delivery(s: WatchState, outcome: Result<(), DeliveryError>) -> WatchState {
    match outcome {
        Ok(_) => s,
        Err(_) => WatchState { phase: Phase::Resolving, pid: s.pid },
    }
}

/// The state once the resolver has produced `pid`.
pub open spec fn after_resolution(s: WatchState, pid: i32) -> WatchState {
    WatchState { phase: Phase::Watching, pid }
}

/// The dispatch engine: it holds the configuration, the path watched and the
/// best known identifier of the process to signal.
pub struct FlutterWatch {
    pub config: Config,
    pid: i32,
    target: String,
    phase: Phase,
}

impl FlutterWatch {
    /// The identifier held is never negative.
    #[verifier::type_invariant]
    spec fn pid_not_negative(&self) -> bool {
        self.pid >= 0
    }

    /// The engine's phase and identifier.
    pub closed spec fn state(&self) -> WatchState {
        WatchState { phase: self.phase, pid: self.pid }
    }

    /// The configuration held.
    pub closed spec fn configuration(&self) -> Config {
        self.config
    }

    /// The path watched.
    pub closed spec fn target_view(&self) -> Seq<char> {
        self.target@
    }

    /// An engine that has resolved nothing and watches nothing yet.
    pub fn new(config: Config) -> (r: Self)
        ensures
            r.configuration() == config,
            r.state() == (WatchState { phase: Phase::Starting, pid: 0 }),
            r.target_view() == Seq::<char>::empty(),
    {
        FlutterWatch { config, pid: 0, target: String::new(), phase: Phase::Starting }
    }

    /// The identifier held.
    pub fn pid(&self) -> (r: i32)
        ensures
            r == self.state().pid,
            r >= 0,
    {
        proof {
            use_type_invariant(self);
        }
        self.pid
    }

    /// The engine's phase.
    pub fn phase(&self) -> (r: Phase)
        ensures
            r == self.state().phase,
    {
        self.phase
    }

    /// The path watched.
    pub fn target(&self) -> (r: &String)
        ensures
            r@ == self.target_view(),
    {
        &self.target
    }

    /// Takes the path to watch; `exists` says whether it exists. A missing
    /// path is a fatal setup error and leaves the engine as it was.
    pub fn set_target(&mut self, target: String, exists: bool) -> (r: Result<(), SetupError>)
        ensures
            final(self).configuration() == old(self).configuration(),
            final(self).state() == old(self).state(),
            exists ==> r is Ok && final(self).target_view() == target@,
            !exists ==> r == Err::<(), SetupError>(SetupError::TargetMissing)
                && final(self).target_view() == old(self).target_view(),
    {
        proof {
            use_type_invariant(&*self);
        }
        if exists {
            self.target = target;
            Ok(())
        } else {
            Err(SetupError::TargetMissing)
        }
    }

    /// Takes the identifier that the resolver produced and resumes watching.
    pub fn resolved(&mut self, pid: i32)
        requires
            pid >= 0,
        ensures
            final(self).configuration() == old(self).configuration(),
            final(self).target_view() == old(self).target_view(),
            final(self).state() == after_resolution(old(self).state(), pid),
    {
        self.pid = pid;
        self.phase = Phase::Watching;
    }

    /// Records the outcome of a delivery attempt made with the identifier held.
    pub fn on_delivery(&mut self, outcome: Result<(), DeliveryError>) -> (r: Step)
        requires
            old(self).state().phase == Phase::Watching,
        ensures
            final(self).configuration() == old(self).configuration(),
            final(self).target_view() == old(self).target_view(),
            r == delivery_step(old(self).state(), outcome),
            final(self).state() == after_delivery(old(self).state(), outcome),
    {
        proof {
            use_type_invariant(&*self);
        }
        match outcome {
            Ok(()) => Step::Delivered { pid: self.pid },
            Err(e) => {
                self.phase = Phase::Resolving;
                Step::Failed { pid: self.pid, error: e }
            },
        }
    }

    /// Decides what to do with one event. A qualifying event, while an
    /// identifier is held, asks for exactly one signal, to that identifier;
    /// any other event asks for none. The engine itself is left as it is.
    pub fn plan(&self, event: &ChangeEvent) -> (r: Action)
        ensures
            r == action_of(self.state(), class_of(*event)),
    {
        match classify(event) {
            EventClass::Notice => Action::Ignore,
            EventClass::Malformed => Action::Warn,
            EventClass::Qualifying => {
                if self.phase == Phase::Watching {
                    Action::Signal { pid: self.pid }
                } else {
                    Action::Wait
                }
            },
        }
    }
}

/// A pre-announcement of the debounced source never causes a signal, in any
/// state of the engine: it is discarded silently.
pub proof fn lemma_notice_never_signals(s: WatchState, e: ChangeEvent)
    requires
        e matches ChangeEvent::Debounced(k) && (k == DebouncedKind::NoticeWrite || k
            == DebouncedKind::NoticeRemove),
    ensures
        action_of(s, class_of(e)) == Action::Ignore,
{
}

/// A raw event without a path or without an operation code never causes a
/// signal, in any state of the engine; it calls for a warning instead.
pub proof fn lemma_malformed_raw_never_signals(s: WatchState, e: ChangeEvent)
    requires
        e matches ChangeEvent::Raw { op, path, .. } && (op is None || path is None),
    ensures
        action_of(s, class_of(e)) == Action::Warn,
{
}

/// Once an identifier has been resolved, and as long as deliveries succeed,
/// every qualifying event asks for exactly one signal, to the identifier
/// held, and the attempt is reported against that identifier.
pub proof fn lemma_qualifying_signals_held_pid(
    s: WatchState,
    pid: i32,
    e: ChangeEvent,
    outcome: Result<(), DeliveryError>,
)
    requires
        class_of(e) == EventClass::Qualifying,
        pid >= 0,
    ensures
        action_of(after_resolution(s, pid), class_of(e)) == (Action::Signal { pid }),
        after_delivery(after_resolution(s, pid), Ok(())) == after_resolution(s, pid),
        delivery_step(after_resolution(s, pid), outcome) == match outcome {
            Ok(_) => Step::Delivered { pid },
            Err(err) => Step::Failed { pid, error: err },
        },
{
}

/// A qualifying event in the watching state asks for one signal, to the
/// identifier held.
pub proof fn lemma_watching_signals_held_pid(s: WatchState, e: ChangeEvent)
    requires
        class_of(e) == EventClass::Qualifying,
        s.phase == Phase::Watching,
    ensures
        action_of(s, class_of(e)) == (Action::Signal { pid: s.pid }),
{
}

/// After a failed delivery no event asks for a signal until the resolver has
/// produced an identifier; the failed event is not retried, and the next
/// qualifying event after the resolution asks for a signal to the identifier
/// produced, not to the one that failed.
pub proof fn lemma_failure_then_fresh_pid(
    s: WatchState,
    error: DeliveryError,
    c: EventClass,
    pid: i32,
)
    requires
        s.phase == Phase::Watching,
        pid >= 0,
    ensures
        after_delivery(s, Err(error)).phase == Phase::Resolving,
        !(action_of(after_delivery(s, Err(error)), c) is Signal),
        action_of(after_resolution(after_delivery(s, Err(error)), pid), EventClass::Qualifying)
            == (Action::Signal { pid }),
{
}

} // verus!
