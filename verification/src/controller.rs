//! The presence-driven synchronization controller.
//!
//! A controller runs through `Initializing -> Syncing -> Stopped`, with
//! `Failed` for a startup that never reached the loop. Each tick of the
//! loop observes a possible stop signal and a presence reading, decides
//! on at most one device write, and commits that write's outcome. The
//! loop itself — polling, sleeping, performing requests — runs outside
//! this crate; every decision it acts on is made here.

use vstd::prelude::*;

use crate::light::DeviceError;
use crate::light::LightState;
use crate::probe::ProbeError;

verus! {

/// The one out-of-band instruction a running controller accepts: stop
/// at its next observation point.
#[derive(Clone, Copy, Debug, PartialEq, Eq, Structural)]
pub enum BackgroundCommand {
    Stop,
}

/// Where a controller stands in its life.
#[derive(Clone, Copy, Debug, PartialEq, Eq, Structural)]
pub enum Phase {
    /// Created, the initial off-write not yet committed.
    Initializing,
    /// In the poll-reconcile loop.
    Syncing,
    /// Terminated by a stop signal. Terminal: no further device calls.
    Stopped,
    /// Startup failed before the loop began. Terminal.
    Failed,
}

/// One line of status for external display, as a structured value; its
/// text is [`StatusEvent::message`].
#[derive(Clone, Copy, Debug, PartialEq, Eq, Structural)]
pub enum StatusEvent {
    /// The initial off-write succeeded.
    LightOffInitially,
    /// The initial off-write failed; the controller never syncs.
    StartupFailed(DeviceError),
    /// The stop signal was observed.
    Stopped,
    /// The presence probe failed; the tick changed nothing.
    ProbeCheckFailed(ProbeError),
    /// A reconciling device write failed; the cached state is kept and
    /// the mismatch is retried on the next tick.
    ApplyFailed { turning_on: bool, error: DeviceError },
    /// A reconciling device write succeeded.
    PresenceChanged { enabled: bool },
    /// Presence matched the cached flag; no device call was made.
    PresenceUnchanged { enabled: bool },
}

impl StatusEvent {
    /// The event's display text.
    pub open spec fn spec_message(self) -> Seq<char> {
        match self {
            StatusEvent::LightOffInitially => "Light turned off initially"@,
            StatusEvent::StartupFailed(_) => "Failed to change light state"@,
            StatusEvent::Stopped => "Stopped"@,
            StatusEvent::ProbeCheckFailed(_) => "Failed to check camera access"@,
            StatusEvent::ApplyFailed { turning_on, .. } => if turning_on {
                "Failed to turn on the light"@
            } else {
                "Failed to turn off the light"@
            },
            StatusEvent::PresenceChanged { enabled } => if enabled {
                "Camera access is enabled"@
            } else {
                "Camera access is disabled"@
            },
            StatusEvent::PresenceUnchanged { enabled } => if enabled {
                "Camera access is enabled"@
            } else {
                "Camera access is disabled"@
            },
        }
    }

    /// Renders the event for display.
    pub fn message(&self) -> (r: &'static str)
        ensures
            r@ == self.spec_message(),
    {
        match self {
            StatusEvent::LightOffInitially => "Light turned off initially",
            StatusEvent::StartupFailed(_) => "Failed to change light state",
            StatusEvent::Stopped => "Stopped",
            StatusEvent::ProbeCheckFailed(_) => "Failed to check camera access",
            StatusEvent::ApplyFailed { turning_on, .. } => if *turning_on {
                "Failed to turn on the light"
            } else {
                "Failed to turn off the light"
            },
            StatusEvent::PresenceChanged { enabled } => if *enabled {
                "Camera access is enabled"
            } else {
                "Camera access is disabled"
            },
            StatusEvent::PresenceUnchanged { enabled } => if *enabled {
                "Camera access is enabled"
            } else {
                "Camera access is disabled"
            },
        }
    }
}

/// What one tick of the loop should do, decided before any device call.
#[derive(Clone, Copy, Debug, PartialEq, Eq, Structural)]
pub enum TickDecision {
    /// Stop now; no further observation or device call.
    Stop,
    /// Presence matched the cached flag: report it, call nothing.
    ReportUnchanged { enabled: bool },
    /// The probe failed: report it, change nothing, call nothing.
    ProbeFailed(ProbeError),
    /// Presence differs from the cached flag: write `target`, the
    /// cached state with the flag flipped.
    Apply { target: LightState },
}

/// The controller's state: its phase and its cached view of the light.
#[derive(Clone, Copy, Debug, PartialEq, Eq, Structural)]
pub struct Controller {
    pub phase: Phase,
    pub light: LightState,
}

/// The state a controller caches at start: what the device reported,
/// or the caller's fallback where the read failed.
pub open spec fn spec_initial_light(fetched: Option<LightState>, fallback: LightState) -> LightState {
    match fetched {
        Some(s) => s,
        None => fallback,
    }
}

/// The target of the unconditional first write: the cached state, off —
/// whatever on/off flag was fetched.
pub open spec fn spec_startup_target(c: Controller) -> LightState {
    LightState { on: false, brightness: c.light.brightness, temperature: c.light.temperature }
}

/// The decision of one tick: a stop signal wins; then a probe failure
/// is only reported; then a presence reading equal to the cached flag
/// asks for no call, and a differing one asks for one write with the
/// flag flipped.
pub open spec fn spec_decide(
    c: Controller,
    stop_requested: bool,
    presence: Result<bool, ProbeError>,
) -> TickDecision {
    if stop_requested {
        TickDecision::Stop
    } else {
        match presence {
            Err(e) => TickDecision::ProbeFailed(e),
            Ok(p) => if p == c.light.on {
                TickDecision::ReportUnchanged { enabled: p }
            } else {
                TickDecision::Apply {
                    target: LightState {
                        on: p,
                        brightness: c.light.brightness,
                        temperature: c.light.temperature,
                    },
                }
            },
        }
    }
}

/// The controller after one whole tick, given the decision's inputs and
/// whether the device write (if one was asked for) succeeded.
pub open spec fn spec_tick(
    c: Controller,
    stop_requested: bool,
    presence: Result<bool, ProbeError>,
    apply_ok: bool,
) -> Controller {
    match spec_decide(c, stop_requested, presence) {
        TickDecision::Stop => Controller { phase: Phase::Stopped, light: c.light },
        TickDecision::ReportUnchanged { .. } => c,
        TickDecision::ProbeFailed(_) => c,
        TickDecision::Apply { target } => if apply_ok {
            Controller { phase: Phase::Syncing, light: target }
        } else {
            c
        },
    }
}

impl Controller {
    /// The controller's invariant: its cached light state is well
    /// formed.
    pub open spec fn wf(self) -> bool {
        self.light.wf()
    }

    /// Creates a controller about to initialize, caching the state read
    /// from the device, or the caller's fallback where the read failed.
    pub fn new(fetched: Option<LightState>, fallback: LightState) -> (c: Controller)
        requires
            fallback.wf(),
            fetched matches Some(s) ==> s.wf(),
        ensures
            c.phase is Initializing,
            c.light == spec_initial_light(fetched, fallback),
            c.wf(),
    {
        Controller {
            phase: Phase::Initializing,
            light: match fetched {
                Some(s) => s,
                None => fallback,
            },
        }
    }

    /// The target of the controller's first, unconditional device
    /// write: off, holding the cached brightness and temperature.
    pub fn startup_target(&self) -> (t: LightState)
        requires
            self.phase is Initializing,
            self.wf(),
        ensures
            t == spec_startup_target(*self),
            t.on == false,
            t.wf(),
    {
        LightState { on: false, brightness: self.light.brightness, temperature: self.light.temperature }
    }

    /// Commits the outcome of the initial off-write: on success the
    /// controller enters the loop knowing the light is off; on failure
    /// it never does.
    pub fn finish_startup(&mut self, result: Result<(), DeviceError>) -> (e: StatusEvent)
        requires
            old(self).phase is Initializing,
            old(self).wf(),
        ensures
            final(self).wf(),
            match result {
                Ok(()) => {
                    &&& final(self).phase is Syncing
                    &&& final(self).light == spec_startup_target(*old(self))
                    &&& e == StatusEvent::LightOffInitially
                },
                Err(err) => {
                    &&& final(self).phase is Failed
                    &&& final(self).light == old(self).light
                    &&& e == StatusEvent::StartupFailed(err)
                },
            },
    {
        match result {
            Ok(()) => {
                self.light = LightState {
                    on: false,
                    brightness: self.light.brightness,
                    temperature: self.light.temperature,
                };
                self.phase = Phase::Syncing;
                StatusEvent::LightOffInitially
            },
            Err(err) => {
                self.phase = Phase::Failed;
                StatusEvent::StartupFailed(err)
            },
        }
    }

    /// Decides what this tick does, from the stop signal observed at
    /// the top of the iteration and the presence reading.
    pub fn decide(&self, stop_requested: bool, presence: Result<bool, ProbeError>) -> (r:
        TickDecision)
        requires
            self.phase is Syncing,
            self.wf(),
        ensures
            r == spec_decide(*self, stop_requested, presence),
            r matches TickDecision::Apply { target } ==> target.wf(),
    {
        if stop_requested {
            TickDecision::Stop
        } else {
            match presence {
                Err(e) => TickDecision::ProbeFailed(e),
                Ok(p) => if p == self.light.on {
                    TickDecision::ReportUnchanged { enabled: p }
                } else {
                    TickDecision::Apply {
                        target: LightState {
                            on: p,
                            brightness: self.light.brightness,
                            temperature: self.light.temperature,
                        },
                    }
                },
            }
        }
    }

    /// Commits an observed stop signal: the controller is terminal and
    /// makes no further device call.
    pub fn acknowledge_stop(&mut self) -> (e: StatusEvent)
        requires
            old(self).phase is Syncing,
            old(self).wf(),
        ensures
            *final(self) == spec_tick(*old(self), true, Ok::<bool, ProbeError>(true), true),
            final(self).phase is Stopped,
            final(self).light == old(self).light,
            final(self).wf(),
            e == StatusEvent::Stopped,
    {
        self.phase = Phase::Stopped;
        StatusEvent::Stopped
    }

    /// The event reported for a tick whose probe failed; the state is
    /// left untouched and the next tick retries.
    pub fn probe_failure_event(&self, err: ProbeError) -> (e: StatusEvent)
        requires
            self.phase is Syncing,
        ensures
            e == StatusEvent::ProbeCheckFailed(err),
    {
        StatusEvent::ProbeCheckFailed(err)
    }

    /// The event reported for a tick that found presence unchanged and
    /// made no device call.
    pub fn report_event(&self, enabled: bool) -> (e: StatusEvent)
        requires
            self.phase is Syncing,
        ensures
            e == (StatusEvent::PresenceUnchanged { enabled }),
    {
        StatusEvent::PresenceUnchanged { enabled }
    }

    /// Commits the outcome of a reconciling device write: on success
    /// the cached state takes the written target; on failure it is kept
    /// unchanged, so the mismatch persists and the next tick retries.
    pub fn commit_apply(&mut self, target: LightState, result: Result<(), DeviceError>) -> (e:
        StatusEvent)
        requires
            old(self).phase is Syncing,
            old(self).wf(),
            target.wf(),
        ensures
            final(self).wf(),
            final(self).phase is Syncing,
            match result {
                Ok(()) => {
                    &&& final(self).light == target
                    &&& e == (StatusEvent::PresenceChanged { enabled: target.on })
                },
                Err(err) => {
                    &&& final(self).light == old(self).light
                    &&& e == (StatusEvent::ApplyFailed { turning_on: target.on, error: err })
                },
            },
    {
        match result {
            Ok(()) => {
                self.light = target;
                StatusEvent::PresenceChanged { enabled: target.on }
            },
            Err(err) => StatusEvent::ApplyFailed { turning_on: target.on, error: err },
        }
    }
}

/// While presence matches the cached on/off flag, a tick issues no
/// device call: repeated identical readings are idempotent.
pub proof fn lemma_no_redundant_apply(c: Controller, p: bool)
    requires
        c.phase is Syncing,
        p == c.light.on,
    ensures
        !(spec_decide(c, false, Ok::<bool, ProbeError>(p)) is Apply),
        spec_tick(c, false, Ok::<bool, ProbeError>(p), true) == c,
{
}

/// The first device write of any controller run turns the light off,
/// whatever state the device reported before start and whatever
/// fallback the caller supplied.
pub proof fn lemma_startup_always_off(fetched: Option<LightState>, fallback: LightState)
    ensures
        spec_startup_target(
            Controller {
                phase: Phase::Initializing,
                light: spec_initial_light(fetched, fallback),
            },
        ).on == false,
{
}

/// A tick that fails — probe error, or a device write that does not go
/// through — leaves the controller exactly as it was: still syncing,
/// cache untouched, so the loop goes on and retries.
pub proof fn lemma_failure_preserves_state(
    c: Controller,
    presence: Result<bool, ProbeError>,
)
    requires
        c.phase is Syncing,
    ensures
        spec_tick(c, false, presence, false) == c,
{
}

/// The number of device writes a controller issues over a trace of
/// presence readings, every tick running through and every asked-for
/// write succeeding.
pub open spec fn spec_writes(c: Controller, ps: Seq<bool>) -> nat
    decreases ps.len(),
{
    if ps.len() == 0 {
        0
    } else {
        (if ps.first() != c.light.on {
            1nat
        } else {
            0nat
        }) + spec_writes(spec_tick(c, false, Ok(ps.first()), true), ps.drop_first())
    }
}

/// The number of changes in a presence trace, measured against a
/// starting flag.
pub open spec fn spec_presence_changes(on: bool, ps: Seq<bool>) -> nat
    decreases ps.len(),
{
    if ps.len() == 0 {
        0
    } else {
        (if ps.first() != on {
            1nat
        } else {
            0nat
        }) + spec_presence_changes(ps.first(), ps.drop_first())
    }
}

/// Over any trace of successful ticks, the controller writes to the
/// device exactly once per change of presence: a run of identical
/// readings costs no device call at all.
pub proof fn lemma_writes_equal_presence_changes(c: Controller, ps: Seq<bool>)
    requires
        c.phase is Syncing,
    ensures
        spec_writes(c, ps) == spec_presence_changes(c.light.on, ps),
    decreases ps.len(),
{
    if ps.len() > 0 {
        let c1 = spec_tick(c, false, Ok::<bool, ProbeError>(ps.first()), true);
        assert(c1.phase is Syncing && c1.light.on == ps.first());
        lemma_writes_equal_presence_changes(c1, ps.drop_first());
    }
}

/// One successful tick converges the cached flag to presence, whether
/// or not a write was needed.
pub proof fn lemma_tick_converges(c: Controller, p: bool)
    requires
        c.phase is Syncing,
    ensures
        spec_tick(c, false, Ok::<bool, ProbeError>(p), true).light.on == p,
        spec_tick(c, false, Ok::<bool, ProbeError>(p), true).phase is Syncing,
{
}

} // verus!
