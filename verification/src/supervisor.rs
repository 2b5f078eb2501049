//! The supervisor: one live controller at a time.
//!
//! The supervisor owns at most one controller identity. A new one can
//! be launched only when none is live, so on a configuration change the
//! caller first stops the live controller, waits for its termination,
//! reports it here, and only then launches the replacement. The law at
//! the end of this file states that discipline over whole histories:
//! between any two successful launches stands the termination of the
//! first launch's controller.

use vstd::prelude::*;

use crate::light::DeviceError;
use crate::light::LightState;
use crate::settings::MyAppSettings;

verus! {

/// Why a launch did not happen.
#[derive(Clone, Copy, Debug, PartialEq, Eq, Structural)]
pub enum LaunchError {
    /// The settings' host does not parse as an address; startup is
    /// refused before any loop is entered.
    InvalidHost,
    /// A controller is still live; it must terminate first.
    StillLive,
}

/// The supervisor's state: the identity of the live controller, if any,
/// and the identity the next launch will assign.
#[derive(Clone, Copy, Debug, PartialEq, Eq, Structural)]
pub struct Supervisor {
    pub live: Option<u64>,
    pub next_id: u64,
}

/// One thing that can happen to a supervisor: a launch attempt against
/// settings whose host is valid or not, or the termination of a
/// controller being reported.
#[derive(Clone, Copy, Debug, PartialEq, Eq, Structural)]
pub enum SupervisorOp {
    Launch { host_ok: bool },
    Terminated { id: u64 },
}

/// A supervisor that has never launched anything.
pub open spec fn initial_supervisor() -> Supervisor {
    Supervisor { live: None, next_id: 0 }
}

/// Whether a launch goes through in state `s`: nothing live, a valid
/// host, and an identity left to assign.
pub open spec fn launch_succeeds(s: Supervisor, host_ok: bool) -> bool {
    &&& s.live is None
    &&& host_ok
    &&& s.next_id < u64::MAX
}

/// The supervisor after one operation. A launch that does not go
/// through changes nothing; a termination report clears the live
/// controller only when the identity matches it.
pub open spec fn spec_step(s: Supervisor, op: SupervisorOp) -> Supervisor {
    match op {
        SupervisorOp::Launch { host_ok } => if launch_succeeds(s, host_ok) {
            Supervisor { live: Some(s.next_id), next_id: (s.next_id + 1) as u64 }
        } else {
            s
        },
        SupervisorOp::Terminated { id } => if s.live == Some(id) {
            Supervisor { live: None, next_id: s.next_id }
        } else {
            s
        },
    }
}

/// The supervisor after a whole history of operations.
pub open spec fn run_ops(s: Supervisor, ops: Seq<SupervisorOp>) -> Supervisor
    decreases ops.len(),
{
    if ops.len() == 0 {
        s
    } else {
        run_ops(spec_step(s, ops.first()), ops.drop_first())
    }
}

impl Supervisor {
    /// Creates a supervisor with nothing live.
    pub fn new() -> (s: Supervisor)
        ensures
            s == initial_supervisor(),
    {
        Supervisor { live: None, next_id: 0 }
    }

    /// The identity of the live controller, if one is live: the one the
    /// caller must stop and join before anything new may start.
    pub fn live_controller(&self) -> (r: Option<u64>)
        ensures
            r == self.live,
    {
        self.live
    }

    /// Reports that the controller `id` has fully terminated. Returns
    /// whether that cleared the live controller; a stale identity
    /// changes nothing.
    pub fn note_terminated(&mut self, id: u64) -> (cleared: bool)
        ensures
            *final(self) == spec_step(*old(self), (SupervisorOp::Terminated { id })),
            cleared == (old(self).live == Some(id)),
            final(self).live is None || final(self).live == old(self).live,
    {
        match self.live {
            Some(live_id) => {
                if live_id == id {
                    self.live = None;
                    true
                } else {
                    false
                }
            },
            None => false,
        }
    }

    /// Launches a controller for `settings`: refused while one is still
    /// live, refused for a host that does not parse as an address, and
    /// otherwise assigning the next identity.
    pub fn launch(&mut self, settings: &MyAppSettings) -> (r: Result<u64, LaunchError>)
        requires
            old(self).next_id < u64::MAX,
        ensures
            *final(self) == spec_step(
                *old(self),
                (SupervisorOp::Launch { host_ok: settings.wf() }),
            ),
            old(self).live is Some ==> r == Err::<u64, LaunchError>(LaunchError::StillLive),
            old(self).live is None && !settings.wf() ==> r == Err::<u64, LaunchError>(
                LaunchError::InvalidHost,
            ),
            launch_succeeds(*old(self), settings.wf()) ==> r == Ok::<u64, LaunchError>(
                old(self).next_id,
            ) && final(self).live == Some(old(self).next_id),
    {
        if self.live.is_some() {
            Err(LaunchError::StillLive)
        } else if !settings.host_valid() {
            Err(LaunchError::InvalidHost)
        } else {
            let id = self.next_id;
            self.live = Some(id);
            self.next_id = id + 1;
            Ok(id)
        }
    }
}

/// Where the light is toggled by hand, past the controller: what the
/// caller should do with automation.
#[derive(Clone, Copy, Debug, PartialEq, Eq, Structural)]
pub enum ManualToggleAction {
    /// The toggle turns the light on: automation is stopped and not
    /// restarted until the next configuration change.
    StopAutomation,
    /// The toggle turns the light off: automation is restarted.
    RestartAutomation,
}

/// The automation side of a manual toggle from light state `current`.
pub fn manual_toggle_plan(current: &LightState) -> (r: ManualToggleAction)
    ensures
        r == if current.on {
            ManualToggleAction::RestartAutomation
        } else {
            ManualToggleAction::StopAutomation
        },
{
    if current.on {
        ManualToggleAction::RestartAutomation
    } else {
        ManualToggleAction::StopAutomation
    }
}

/// The state a manual toggle writes to the device: the current state
/// with the on/off flag flipped.
pub fn manual_toggle_target(current: &LightState) -> (t: LightState)
    requires
        current.wf(),
    ensures
        t.on == !current.on,
        t.brightness == current.brightness,
        t.temperature == current.temperature,
        t.wf(),
{
    LightState { on: !current.on, brightness: current.brightness, temperature: current.temperature }
}

/// Commits the outcome of a manual toggle's device write: the cached
/// flag flips only where the write succeeded.
pub fn commit_manual_toggle(current: &mut LightState, result: Result<(), DeviceError>)
    requires
        old(current).wf(),
    ensures
        final(current).wf(),
        match result {
            Ok(()) => {
                &&& final(current).on == !old(current).on
                &&& final(current).brightness == old(current).brightness
                &&& final(current).temperature == old(current).temperature
            },
            Err(_) => *final(current) == *old(current),
        },
{
    match result {
        Ok(()) => {
            current.on = !current.on;
        },
        Err(_) => {},
    }
}

/// While a controller is live, a history without its termination keeps
/// it live, whatever launches are attempted and whatever stale
/// terminations are reported.
proof fn lemma_live_until_terminated(s: Supervisor, ops: Seq<SupervisorOp>, id: u64)
    requires
        s.live == Some(id),
        forall|k: int| 0 <= k < ops.len() ==> ops[k] != (SupervisorOp::Terminated { id }),
    ensures
        run_ops(s, ops).live == Some(id),
    decreases ops.len(),
{
    if ops.len() > 0 {
        assert(spec_step(s, ops.first()).live == Some(id));
        lemma_live_until_terminated(spec_step(s, ops.first()), ops.drop_first(), id);
    }
}

/// Running a history is running a prefix, then the rest from where the
/// prefix left off.
proof fn lemma_run_ops_split(s: Supervisor, ops: Seq<SupervisorOp>, m: int)
    requires
        0 <= m <= ops.len(),
    ensures
        run_ops(s, ops) == run_ops(run_ops(s, ops.take(m)), ops.skip(m)),
    decreases m,
{
    if m == 0 {
        assert(ops.take(0) =~= Seq::<SupervisorOp>::empty());
        assert(ops.skip(0) =~= ops);
    } else {
        let s1 = spec_step(s, ops.first());
        lemma_run_ops_split(s1, ops.drop_first(), m - 1);
        assert(ops.drop_first().take(m - 1) =~= ops.take(m).drop_first());
        assert(ops.drop_first().skip(m - 1) =~= ops.skip(m));
        assert(ops.take(m).first() == ops.first());
    }
}

/// The single-owner law: in any history from the initial supervisor,
/// between two launches that both go through stands the termination of
/// the controller the first of them started. A replacement never runs
/// before its predecessor has fully terminated.
pub proof fn lemma_single_owner(ops: Seq<SupervisorOp>, i: int, j: int)
    requires
        0 <= i < j < ops.len(),
        ops[i] matches SupervisorOp::Launch { host_ok: hi } && launch_succeeds(
            run_ops(initial_supervisor(), ops.take(i)),
            hi,
        ),
        ops[j] matches SupervisorOp::Launch { host_ok: hj } && launch_succeeds(
            run_ops(initial_supervisor(), ops.take(j)),
            hj,
        ),
    ensures
        exists|k: int|
            i < k < j && ops[k] == (SupervisorOp::Terminated {
                id: run_ops(initial_supervisor(), ops.take(i)).next_id,
            }),
{
    let s0 = initial_supervisor();
    let si = run_ops(s0, ops.take(i));
    let id = si.next_id;
    let sj = run_ops(s0, ops.take(j));
    if forall|k: int|
        i < k < j ==> ops[k] != (SupervisorOp::Terminated { id }) {
        let mid = ops.take(j);
        lemma_run_ops_split(s0, mid, i + 1);
        assert(mid.take(i + 1) =~= ops.take(i + 1));
        lemma_run_ops_split(s0, ops.take(i + 1), i);
        assert(ops.take(i + 1).take(i) =~= ops.take(i));
        assert(ops.take(i + 1).skip(i) =~= seq![ops[i]]);
        let one = seq![ops[i]];
        assert(one.first() == ops[i]);
        assert(one.drop_first() =~= Seq::<SupervisorOp>::empty());
        assert(run_ops(spec_step(si, ops[i]), one.drop_first()) == spec_step(si, ops[i]));
        assert(run_ops(si, one) == run_ops(spec_step(si, one.first()), one.drop_first()));
        let si1 = spec_step(si, ops[i]);
        assert(si1.live == Some(id));
        let rest = mid.skip(i + 1);
        assert(forall|k: int|
            0 <= k < rest.len() ==> rest[k] == ops[k + i + 1] && rest[k] != (
            SupervisorOp::Terminated { id }));
        lemma_live_until_terminated(si1, rest, id);
        assert(sj.live == Some(id));
        assert(false);
    }
}

} // verus!
