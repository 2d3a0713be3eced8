//! The life cycle of one capture session, as a state machine. The engine
//! decides; whoever drives it performs each action on the platform and
//! reports how it went. The engine keeps count of what the session holds, so
//! that everything is released in an order in which the callback can never
//! find an invalidated bridge.

use vstd::prelude::*;
use crate::err::ListenError;

verus! {

/// How far a session has come.
#[derive(Debug, PartialEq, Eq, Structural, Clone, Copy)]
pub enum EnginePhase {
    /// Nothing was done yet.
    Unopened,
    /// The display is open.
    DisplayOpened,
    /// The display offers the recording extension.
    ExtensionNegotiated,
    /// The recording context exists.
    ContextCreated,
    /// The recording context is enabled: the callback may fire.
    ContextEnabled,
    /// The start was announced and the wait loop runs.
    Running,
    /// Capture has ended, or never began; what the session holds is being
    /// released.
    Disabled,
    /// Nothing is held any more and the result stands.
    TornDown,
}

/// What the driver is to do next on the platform.
#[derive(Debug, PartialEq, Eq, Structural, Clone, Copy)]
pub enum EngineAction {
    /// Open a connection to the display.
    OpenDisplay,
    /// Ask the display for the recording extension.
    InitExtension,
    /// Put the handler into a live bridge.
    WrapHandler,
    /// Allocate the range of events to record: key presses and releases.
    DescribeRange,
    /// Create a recording context for that range, for all clients.
    CreateContext,
    /// Free the range.
    FreeRange,
    /// Flush the display and enable the context with the callback and the
    /// bridge.
    EnableContext,
    /// Tell the application that keys are now captured.
    NotifyStartup,
    /// Drain what is pending, then sleep until the connection is readable.
    WaitForEvents,
    /// Disable the recording context.
    DisableContext,
    /// Free the recording context.
    FreeContext,
    /// Close the display.
    CloseDisplay,
    /// Invalidate the bridge.
    InvalidateBridge,
    /// Nothing: the session is over.
    Finish,
}

/// The state of one session: its phase, what it holds on the platform, and
/// what the driver is doing right now.
#[derive(Debug, PartialEq, Eq, Clone, Copy)]
pub struct CaptureEngine {
    pub phase: EnginePhase,
    pub display_open: bool,
    pub bridge_live: bool,
    pub range_allocated: bool,
    pub context_created: bool,
    pub context_enabled: bool,
    pub startup_notified: bool,
    pub failure: Option<ListenError>,
    pub pending: EngineAction,
}

/// The error that a failure of `action` stands for. Actions that release
/// something, wrap the handler or announce the start cannot fail; a failed
/// wait ends a running session without an error.
pub open spec fn failure_of(action: EngineAction) -> Option<ListenError> {
    match action {
        EngineAction::OpenDisplay => Some(ListenError::MissingDisplay),
        EngineAction::InitExtension => Some(ListenError::ExtensionUnavailable),
        EngineAction::DescribeRange => Some(ListenError::CreateRangeFailed),
        EngineAction::CreateContext => Some(ListenError::CreateContextFailed),
        EngineAction::EnableContext => Some(ListenError::EnableFailed),
        _ => None,
    }
}

impl CaptureEngine {
    /// The session holds nothing on the platform and no live bridge.
    pub open spec fn holds_nothing(self) -> bool {
        !self.display_open && !self.bridge_live && !self.range_allocated && !self.context_created
            && !self.context_enabled
    }

    /// How many things the session holds.
    pub open spec fn held(self) -> nat {
        ((if self.display_open { 1nat } else { 0 }) + (if self.bridge_live { 1nat } else { 0 }) + (
        if self.range_allocated { 1nat } else { 0 }) + (if self.context_created { 1nat } else { 0 })
            + (if self.context_enabled { 1nat } else { 0 })) as nat
    }

    /// What is to be released next in phase `Disabled`. The context goes
    /// first, disabled before it is freed. After a session that ran, the
    /// display is closed before the bridge is invalidated; after a failed
    /// start the bridge goes before the display.
    pub open spec fn release_action(self) -> EngineAction {
        if self.context_enabled {
            EngineAction::DisableContext
        } else if self.range_allocated {
            EngineAction::FreeRange
        } else if self.context_created {
            EngineAction::FreeContext
        } else if self.failure is None {
            if self.display_open {
                EngineAction::CloseDisplay
            } else if self.bridge_live {
                EngineAction::InvalidateBridge
            } else {
                EngineAction::Finish
            }
        } else {
            if self.bridge_live {
                EngineAction::InvalidateBridge
            } else if self.display_open {
                EngineAction::CloseDisplay
            } else {
                EngineAction::Finish
            }
        }
    }

    /// The action that the phase and the holdings call for.
    pub open spec fn action_due(self) -> EngineAction {
        match self.phase {
            EnginePhase::Unopened => EngineAction::OpenDisplay,
            EnginePhase::DisplayOpened => EngineAction::InitExtension,
            EnginePhase::ExtensionNegotiated => if !self.bridge_live {
                EngineAction::WrapHandler
            } else if !self.range_allocated {
                EngineAction::DescribeRange
            } else {
                EngineAction::CreateContext
            },
            EnginePhase::ContextCreated => if self.range_allocated {
                EngineAction::FreeRange
            } else {
                EngineAction::EnableContext
            },
            EnginePhase::ContextEnabled => EngineAction::NotifyStartup,
            EnginePhase::Running => EngineAction::WaitForEvents,
            EnginePhase::Disabled => self.release_action(),
            EnginePhase::TornDown => EngineAction::Finish,
        }
    }

    /// What the phase says of the holdings.
    pub open spec fn phase_holds(self) -> bool {
        match self.phase {
            EnginePhase::Unopened => self.holds_nothing() && !self.startup_notified && self.failure
                is None,
            EnginePhase::DisplayOpened => self.display_open && !self.bridge_live
                && !self.range_allocated && !self.context_created && !self.context_enabled
                && !self.startup_notified && self.failure is None,
            EnginePhase::ExtensionNegotiated => self.display_open && !self.context_created
                && !self.context_enabled && !self.startup_notified && self.failure is None && (
            self.range_allocated ==> self.bridge_live),
            EnginePhase::ContextCreated => self.display_open && self.bridge_live
                && self.context_created && !self.context_enabled && !self.startup_notified
                && self.failure is None,
            EnginePhase::ContextEnabled => self.display_open && self.bridge_live
                && !self.range_allocated && self.context_created && self.context_enabled
                && !self.startup_notified && self.failure is None,
            EnginePhase::Running => self.display_open && self.bridge_live && !self.range_allocated
                && self.context_created && self.context_enabled && self.startup_notified
                && self.failure is None,
            EnginePhase::Disabled => !self.holds_nothing() && (self.failure is Some ==> !
            self.context_enabled && !self.startup_notified) && (self.failure is None
                ==> self.startup_notified && !self.range_allocated),
            EnginePhase::TornDown => self.holds_nothing() && (self.failure is None
                <==> self.startup_notified),
        }
    }

    /// The invariant of a session. An enabled context exists; a context, and
    /// a range, exist only on an open display and beside a live bridge; the
    /// phase agrees with the holdings; and the driver is doing what the
    /// phase calls for.
    pub open spec fn wf(self) -> bool {
        &&& self.context_enabled ==> self.context_created
        &&& self.context_created ==> self.display_open && self.bridge_live
        &&& self.range_allocated ==> self.display_open && self.bridge_live
        &&& self.phase_holds()
        &&& self.pending == self.action_due()
    }

    /// The state of a session before anything was done. Where the platform
    /// cannot capture keys, the session is over at once, with that error and
    /// with nothing to do.
    pub open spec fn initial(supported: bool) -> CaptureEngine {
        CaptureEngine {
            phase: if supported {
                EnginePhase::Unopened
            } else {
                EnginePhase::TornDown
            },
            display_open: false,
            bridge_live: false,
            range_allocated: false,
            context_created: false,
            context_enabled: false,
            startup_notified: false,
            failure: if supported {
                None
            } else {
                Some(ListenError::UnsupportedPlatform)
            },
            pending: if supported {
                EngineAction::OpenDisplay
            } else {
                EngineAction::Finish
            },
        }
    }

    /// The state once a failure is noted: the error is kept and the session
    /// goes on to release what it holds.
    pub open spec fn failed(self, e: ListenError) -> CaptureEngine {
        CaptureEngine { failure: Some(e), phase: EnginePhase::Disabled, ..self }
    }

    /// The state once the pending action was performed and went as `ok`
    /// says, before the next action is chosen.
    pub open spec fn applied(self, ok: bool) -> CaptureEngine {
        match self.pending {
            EngineAction::OpenDisplay => if ok {
                CaptureEngine { display_open: true, phase: EnginePhase::DisplayOpened, ..self }
            } else {
                self.failed(ListenError::MissingDisplay)
            },
            EngineAction::InitExtension => if ok {
                CaptureEngine { phase: EnginePhase::ExtensionNegotiated, ..self }
            } else {
                self.failed(ListenError::ExtensionUnavailable)
            },
            EngineAction::WrapHandler => CaptureEngine { bridge_live: true, ..self },
            EngineAction::DescribeRange => if ok {
                CaptureEngine { range_allocated: true, ..self }
            } else {
                self.failed(ListenError::CreateRangeFailed)
            },
            EngineAction::CreateContext => if ok {
                CaptureEngine { context_created: true, phase: EnginePhase::ContextCreated, ..self }
            } else {
                self.failed(ListenError::CreateContextFailed)
            },
            EngineAction::FreeRange => CaptureEngine { range_allocated: false, ..self },
            EngineAction::EnableContext => if ok {
                CaptureEngine { context_enabled: true, phase: EnginePhase::ContextEnabled, ..self }
            } else {
                self.failed(ListenError::EnableFailed)
            },
            EngineAction::NotifyStartup => CaptureEngine {
                startup_notified: true,
                phase: EnginePhase::Running,
                ..self
            },
            EngineAction::WaitForEvents => if ok {
                self
            } else {
                CaptureEngine { phase: EnginePhase::Disabled, ..self }
            },
            EngineAction::DisableContext => CaptureEngine { context_enabled: false, ..self },
            EngineAction::FreeContext => CaptureEngine { context_created: false, ..self },
            EngineAction::CloseDisplay => CaptureEngine { display_open: false, ..self },
            EngineAction::InvalidateBridge => CaptureEngine { bridge_live: false, ..self },
            EngineAction::Finish => self,
        }
    }

    /// The state after one step: the outcome of the pending action is taken
    /// in, a session in release that holds nothing more is torn down, and the
    /// next action is chosen.
    pub open spec fn after(self, ok: bool) -> CaptureEngine {
        let a = self.applied(ok);
        let b = if a.phase == EnginePhase::Disabled && a.holds_nothing() {
            CaptureEngine { phase: EnginePhase::TornDown, ..a }
        } else {
            a
        };
        CaptureEngine { pending: b.action_due(), ..b }
    }

    /// The result of the session: none while it lasts, then the error that
    /// ended the start, or `Ok` after a session that ran.
    pub open spec fn outcome(self) -> Option<Result<(), ListenError>> {
        if self.phase == EnginePhase::TornDown {
            match self.failure {
                Some(e) => Some(Err(e)),
                None => Some(Ok(())),
            }
        } else {
            None
        }
    }
}

impl CaptureEngine {
    /// A session before anything was done. `supported` says whether this
    /// platform can capture keys at all; where it cannot, the session is
    /// over before it touches anything.
    pub fn new(supported: bool) -> (r: CaptureEngine)
        ensures
            r == CaptureEngine::initial(supported),
            r.wf(),
            r.holds_nothing(),
            !supported ==> r.outcome() == Some(
                Err::<(), ListenError>(ListenError::UnsupportedPlatform),
            ),
            supported ==> r.outcome() is None && r.pending == EngineAction::OpenDisplay,
    {
        if supported {
            CaptureEngine {
                phase: EnginePhase::Unopened,
                display_open: false,
                bridge_live: false,
                range_allocated: false,
                context_created: false,
                context_enabled: false,
                startup_notified: false,
                failure: None,
                pending: EngineAction::OpenDisplay,
            }
        } else {
            CaptureEngine {
                phase: EnginePhase::TornDown,
                display_open: false,
                bridge_live: false,
                range_allocated: false,
                context_created: false,
                context_enabled: false,
                startup_notified: false,
                failure: Some(ListenError::UnsupportedPlatform),
                pending: EngineAction::Finish,
            }
        }
    }

    /// The action that the driver is to perform now.
    pub fn pending_action(&self) -> (r: EngineAction)
        ensures
            r == self.pending,
    {
        self.pending
    }

    /// The phase of the session.
    pub fn current_phase(&self) -> (r: EnginePhase)
        ensures
            r == self.phase,
    {
        self.phase
    }

    /// Says whether the session is over.
    pub fn is_finished(&self) -> (r: bool)
        ensures
            r == (self.phase == EnginePhase::TornDown),
            r == self.outcome().is_some(),
    {
        matches!(self.phase, EnginePhase::TornDown)
    }

    /// Says whether the callback may fire: the context is enabled. While it
    /// is, the bridge is live.
    pub fn callback_may_fire(&self) -> (r: bool)
        requires
            self.wf(),
        ensures
            r == self.context_enabled,
            r ==> self.bridge_live && self.display_open && self.context_created,
    {
        self.context_enabled
    }

    /// The result of the session, once it is over.
    pub fn result(&self) -> (r: Option<Result<(), ListenError>>)
        ensures
            r == self.outcome(),
    {
        match self.phase {
            EnginePhase::TornDown => match self.failure {
                Some(e) => Some(Err(e)),
                None => Some(Ok(())),
            },
            _ => None,
        }
    }

    /// The action that the phase and the holdings call for.
    fn choose_action(&self) -> (r: EngineAction)
        ensures
            r == self.action_due(),
    {
        match self.phase {
            EnginePhase::Unopened => EngineAction::OpenDisplay,
            EnginePhase::DisplayOpened => EngineAction::InitExtension,
            EnginePhase::ExtensionNegotiated => {
                if !self.bridge_live {
                    EngineAction::WrapHandler
                } else if !self.range_allocated {
                    EngineAction::DescribeRange
                } else {
                    EngineAction::CreateContext
                }
            },
            EnginePhase::ContextCreated => {
                if self.range_allocated {
                    EngineAction::FreeRange
                } else {
                    EngineAction::EnableContext
                }
            },
            EnginePhase::ContextEnabled => EngineAction::NotifyStartup,
            EnginePhase::Running => EngineAction::WaitForEvents,
            EnginePhase::Disabled => {
                if self.context_enabled {
                    EngineAction::DisableContext
                } else if self.range_allocated {
                    EngineAction::FreeRange
                } else if self.context_created {
                    EngineAction::FreeContext
                } else if self.failure.is_none() {
                    if self.display_open {
                        EngineAction::CloseDisplay
                    } else if self.bridge_live {
                        EngineAction::InvalidateBridge
                    } else {
                        EngineAction::Finish
                    }
                } else {
                    if self.bridge_live {
                        EngineAction::InvalidateBridge
                    } else if self.display_open {
                        EngineAction::CloseDisplay
                    } else {
                        EngineAction::Finish
                    }
                }
            },
            EnginePhase::TornDown => EngineAction::Finish,
        }
    }

    /// Notes a failure and turns to releasing what the session holds.
    fn fail(&mut self, e: ListenError)
        ensures
            *final(self) == old(self).failed(e),
    {
        self.failure = Some(e);
        self.phase = EnginePhase::Disabled;
    }

    /// Takes in how the pending action went.
    fn apply(&mut self, ok: bool)
        ensures
            *final(self) == old(self).applied(ok),
    {
        match self.pending {
            EngineAction::OpenDisplay => {
                if ok {
                    self.display_open = true;
                    self.phase = EnginePhase::DisplayOpened;
                } else {
                    self.fail(ListenError::MissingDisplay);
                }
            },
            EngineAction::InitExtension => {
                if ok {
                    self.phase = EnginePhase::ExtensionNegotiated;
                } else {
                    self.fail(ListenError::ExtensionUnavailable);
                }
            },
            EngineAction::WrapHandler => {
                self.bridge_live = true;
            },
            EngineAction::DescribeRange => {
                if ok {
                    self.range_allocated = true;
                } else {
                    self.fail(ListenError::CreateRangeFailed);
                }
            },
            EngineAction::CreateContext => {
                if ok {
                    self.context_created = true;
                    self.phase = EnginePhase::ContextCreated;
                } else {
                    self.fail(ListenError::CreateContextFailed);
                }
            },
            EngineAction::FreeRange => {
                self.range_allocated = false;
            },
            EngineAction::EnableContext => {
                if ok {
                    self.context_enabled = true;
                    self.phase = EnginePhase::ContextEnabled;
                } else {
                    self.fail(ListenError::EnableFailed);
                }
            },
            EngineAction::NotifyStartup => {
                self.startup_notified = true;
                self.phase = EnginePhase::Running;
            },
            EngineAction::WaitForEvents => {
                if !ok {
                    self.phase = EnginePhase::Disabled;
                }
            },
            EngineAction::DisableContext => {
                self.context_enabled = false;
            },
            EngineAction::FreeContext => {
                self.context_created = false;
            },
            EngineAction::CloseDisplay => {
                self.display_open = false;
            },
            EngineAction::InvalidateBridge => {
                self.bridge_live = false;
            },
            EngineAction::Finish => {},
        }
    }

    /// One step of the session. `ok` says how the pending action went (it
    /// is not looked at for actions that cannot fail). The engine takes the
    /// outcome in and returns the action to perform next; `Finish` when the
    /// session is over.
    pub fn step(&mut self, ok: bool) -> (r: EngineAction)
        requires
            old(self).wf(),
        ensures
            *final(self) == old(self).after(ok),
            r == final(self).pending,
            final(self).wf(),
            r == EngineAction::Finish <==> final(self).outcome() is Some,
    {
        proof {
            lemma_step_keeps_wf(*self, ok);
        }
        self.apply(ok);
        let holds_nothing = !self.display_open && !self.bridge_live && !self.range_allocated
            && !self.context_created && !self.context_enabled;
        if matches!(self.phase, EnginePhase::Disabled) && holds_nothing {
            self.phase = EnginePhase::TornDown;
        }
        let next = self.choose_action();
        self.pending = next;
        next
    }
}

/// A step keeps the invariant, and the engine asks to finish exactly when
/// the session is over.
pub proof fn lemma_step_keeps_wf(e: CaptureEngine, ok: bool)
    requires
        e.wf(),
    ensures
        e.after(ok).wf(),
        e.after(ok).pending == EngineAction::Finish <==> e.after(ok).outcome() is Some,
{
}

/// The bridge outlives the context. The engine asks to invalidate the bridge
/// only when the context is neither enabled nor in existence, and to close
/// the display only when no context and no range is left on it; so a
/// callback, which fires only while the context is enabled, finds the bridge
/// live.
pub proof fn lemma_bridge_outlives_context(e: CaptureEngine)
    requires
        e.wf(),
    ensures
        e.context_enabled ==> e.bridge_live,
        e.pending == EngineAction::InvalidateBridge ==> !e.context_enabled && !e.context_created
            && e.bridge_live,
        e.pending == EngineAction::CloseDisplay ==> !e.context_enabled && !e.context_created
            && !e.range_allocated && e.display_open,
        e.pending == EngineAction::FreeContext ==> !e.context_enabled && e.context_created,
        e.pending == EngineAction::DisableContext ==> e.context_enabled,
{
}

/// After a session that ran, the display is closed before the bridge is
/// invalidated; after a failed start the bridge goes first.
pub proof fn lemma_release_order(e: CaptureEngine)
    requires
        e.wf(),
    ensures
        e.pending == EngineAction::InvalidateBridge && e.failure is None ==> !e.display_open,
        e.pending == EngineAction::CloseDisplay && e.failure is Some ==> !e.bridge_live,
{
}

/// The start is announced once: the engine asks for it only with the context
/// enabled and the announcement not yet made, and once it was made the
/// engine never asks again.
pub proof fn lemma_startup_announced_once(e: CaptureEngine, ok: bool)
    requires
        e.wf(),
    ensures
        e.pending == EngineAction::NotifyStartup ==> e.context_enabled && !e.startup_notified
            && e.after(ok).startup_notified,
        e.startup_notified ==> e.pending != EngineAction::NotifyStartup && e.after(
            ok,
        ).startup_notified && e.after(ok).pending != EngineAction::NotifyStartup,
        e.after(ok).startup_notified && !e.startup_notified ==> e.pending
            == EngineAction::NotifyStartup,
{
}

/// An error is noted when an action that can fail does, and is the error of
/// that action; nothing else changes it, and once noted it stays.
pub proof fn lemma_failure_is_of_failed_action(e: CaptureEngine, ok: bool)
    requires
        e.wf(),
    ensures
        !ok && failure_of(e.pending) is Some ==> e.failure is None && e.after(ok).failure
            == failure_of(e.pending),
        ok || failure_of(e.pending) is None ==> e.after(ok).failure == e.failure,
        e.failure is Some ==> e.after(ok).failure == e.failure,
{
}

/// A session that is over holds nothing, and its result is `Ok` exactly
/// when the start was announced.
pub proof fn lemma_outcome(e: CaptureEngine)
    requires
        e.wf(),
        e.outcome() is Some,
    ensures
        e.holds_nothing(),
        e.outcome() == Some(Ok::<(), ListenError>(())) <==> e.startup_notified,
        e.outcome() matches Some(Err(err)) ==> e.failure == Some(err) && !e.startup_notified,
        e.pending == EngineAction::Finish,
{
}

/// A session that is over stays as it is, whatever is reported.
pub proof fn lemma_finished_is_final(e: CaptureEngine, ok: bool)
    requires
        e.wf(),
        e.outcome() is Some,
    ensures
        e.after(ok) == e,
{
}

/// How far a session is from its end, at most, counted in steps other than
/// successful waits.
pub open spec fn rank(e: CaptureEngine) -> nat {
    match e.phase {
        EnginePhase::Unopened => 30,
        EnginePhase::DisplayOpened => 29,
        EnginePhase::ExtensionNegotiated => (28 - (if e.bridge_live { 1int } else { 0 }) - (
        if e.range_allocated { 1int } else { 0 })) as nat,
        EnginePhase::ContextCreated => (23 + (if e.range_allocated { 1int } else { 0 })) as nat,
        EnginePhase::ContextEnabled => 22,
        EnginePhase::Running => 21,
        EnginePhase::Disabled => 10 + e.held(),
        EnginePhase::TornDown => 0,
    }
}

/// Every step brings the session nearer to its end, but for a wait that
/// succeeded: so a session ends after at most thirty steps beside its
/// successful waits.
pub proof fn lemma_step_makes_progress(e: CaptureEngine, ok: bool)
    requires
        e.wf(),
        e.outcome() is None,
    ensures
        e.pending == EngineAction::WaitForEvents && ok ==> e.after(ok) == e,
        !(e.pending == EngineAction::WaitForEvents && ok) ==> rank(e.after(ok)) < rank(e),
        rank(e) <= 30,
{
}

} // verus!
