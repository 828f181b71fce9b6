use vstd::prelude::*;

use crate::error::CaptureError;
use crate::region::{area_view, area_well_shaped, plan_transfer, plan_wf, spec_plan, FrameDesc, TransferPlan};

verus! {

/// What the hardware reports when asked for the next frame.
#[derive(Clone, Copy, Debug, PartialEq, Eq, Structural)]
pub enum FrameOutcome {
    /// A new frame is ready.
    Ready(FrameDesc),
    /// No new frame arrived within the timeout.
    Timeout,
    /// The session was invalidated (mode change, device reset, full-screen switch).
    AccessLost,
    /// Any other failure.
    Failed,
}

/// The abstract state of a session: the display it captures, its one live
/// hardware duplication handle, and whether that handle has been invalidated.
pub struct SessionView<H, D> {
    pub monitor: H,
    pub duplication: D,
    pub lost: bool,
}

/// Whether the session is invalidated after an acquisition with this outcome.
pub open spec fn next_lost(lost: bool, outcome: FrameOutcome) -> bool {
    lost || outcome is AccessLost
}

/// What an acquisition returns on a live session, by the hardware's outcome:
/// `None` on a timeout, a transfer plan for a ready frame.
pub open spec fn spec_frame_result(outcome: FrameOutcome, area: Option<Seq<i32>>) -> Result<
    Option<TransferPlan>,
    CaptureError,
> {
    match outcome {
        FrameOutcome::Timeout => Ok(None),
        FrameOutcome::AccessLost => Err(CaptureError::AccessLost),
        FrameOutcome::Failed => Err(CaptureError::AcquireFailed),
        FrameOutcome::Ready(desc) => match spec_plan(desc, area) {
            Ok(p) => Ok(Some(p)),
            Err(e) => Err(e),
        },
    }
}

/// What an acquisition returns: `AccessLost` on an invalidated session,
/// whatever the hardware reports, else the result for the outcome.
pub open spec fn spec_acquire(lost: bool, outcome: FrameOutcome, area: Option<Seq<i32>>) -> Result<
    Option<TransferPlan>,
    CaptureError,
> {
    if lost {
        Err(CaptureError::AccessLost)
    } else {
        spec_frame_result(outcome, area)
    }
}

/// Whether a session is invalidated after a run of acquisitions.
pub open spec fn lost_after(lost: bool, outcomes: Seq<FrameOutcome>) -> bool
    decreases outcomes.len(),
{
    if outcomes.len() == 0 {
        lost
    } else {
        lost_after(next_lost(lost, outcomes[0]), outcomes.drop_first())
    }
}

/// The state after a successful recreation with a new hardware handle.
pub open spec fn recreated<H, D>(s: SessionView<H, D>, duplication: D) -> SessionView<H, D> {
    SessionView { monitor: s.monitor, duplication, lost: false }
}

proof fn lemma_lost_stays_lost(outcomes: Seq<FrameOutcome>)
    ensures
        lost_after(true, outcomes),
    decreases outcomes.len(),
{
    if outcomes.len() > 0 {
        lemma_lost_stays_lost(outcomes.drop_first());
    }
}

/// Once access is lost, every later acquisition fails with `AccessLost`,
/// whatever the hardware reports, until a recreation succeeds; after it the
/// session is live again and acquisition follows the hardware's outcome.
pub proof fn lemma_lost_until_recreated<H, D>(
    s: SessionView<H, D>,
    outcomes: Seq<FrameOutcome>,
    area: Option<Seq<i32>>,
    duplication: D,
    outcome: FrameOutcome,
)
    requires
        s.lost,
    ensures
        forall|i: int|
            0 <= i < outcomes.len() ==> lost_after(s.lost, #[trigger] outcomes.take(i))
                && spec_acquire(lost_after(s.lost, outcomes.take(i)), outcomes[i], area) == Err::<
                Option<TransferPlan>,
                CaptureError,
            >(CaptureError::AccessLost),
        lost_after(s.lost, outcomes),
        !recreated(s, duplication).lost,
        spec_acquire(recreated(s, duplication).lost, outcome, area) == spec_frame_result(outcome, area),
{
    lemma_lost_stays_lost(outcomes);
    assert forall|i: int| 0 <= i < outcomes.len() implies lost_after(s.lost, #[trigger] outcomes.take(i)) by {
        lemma_lost_stays_lost(outcomes.take(i));
    }
}

/// A desktop-duplication capture session on one display.
pub struct NativeDxgiDuplication<H, D> {
    duplication: D,
    monitor: H,
    lost: bool,
}

impl<H, D> View for NativeDxgiDuplication<H, D> {
    type V = SessionView<H, D>;

    closed spec fn view(&self) -> SessionView<H, D> {
        SessionView { monitor: self.monitor, duplication: self.duplication, lost: self.lost }
    }
}

impl<H, D> NativeDxgiDuplication<H, D> {
    /// Opens a session from the outcome of resolving the display (`None`: no
    /// such display) and of opening a duplication handle on it (`None`: the
    /// hardware refused).
    pub fn new(monitor: Option<H>, duplication: Option<D>) -> (r: Result<Self, CaptureError>)
        ensures
            monitor is None ==> r == Err::<Self, CaptureError>(CaptureError::DisplayResolution),
            monitor is Some && duplication is None ==> r == Err::<Self, CaptureError>(
                CaptureError::SessionCreate,
            ),
            monitor is Some && duplication is Some ==> r is Ok && r->Ok_0@ == (SessionView {
                monitor: monitor->Some_0,
                duplication: duplication->Some_0,
                lost: false,
            }),
    {
        match monitor {
            None => Err(CaptureError::DisplayResolution),
            Some(monitor) => match duplication {
                None => Err(CaptureError::SessionCreate),
                Some(duplication) => Ok(NativeDxgiDuplication { duplication, monitor, lost: false }),
            },
        }
    }

    /// The display this session captures.
    pub fn monitor(&self) -> (r: &H)
        ensures
            *r == self@.monitor,
    {
        &self.monitor
    }

    /// The live hardware duplication handle.
    pub fn duplication(&self) -> (r: &D)
        ensures
            *r == self@.duplication,
    {
        &self.duplication
    }

    /// Whether the session was invalidated and awaits recreation.
    pub fn is_lost(&self) -> (r: bool)
        ensures
            r == self@.lost,
    {
        self.lost
    }

    /// Decides what to do with the hardware's answer to a request for the next
    /// frame, cropped to `area` when given (four coordinates, all
    /// non-negative, else the whole frame). On an invalidated session this is
    /// `AccessLost` whatever the answer; a lost-access answer invalidates the
    /// session until `recreate` succeeds. A timeout gives `None`; a ready frame
    /// gives the plan of its staging copy, or the error that refuses it.
    pub fn acquire_next_frame(&mut self, outcome: FrameOutcome, area: Option<Vec<i32>>) -> (r: Result<
        Option<TransferPlan>,
        CaptureError,
    >)
        requires
            area_well_shaped(area_view(area)),
        ensures
            r == spec_acquire(old(self)@.lost, outcome, area_view(area)),
            final(self)@ == (SessionView { lost: next_lost(old(self)@.lost, outcome), ..old(self)@ }),
            r matches Ok(Some(p)) ==> plan_wf(p),
    {
        if self.lost {
            return Err(CaptureError::AccessLost);
        }
        match outcome {
            FrameOutcome::Timeout => Ok(None),
            FrameOutcome::AccessLost => {
                self.lost = true;
                Err(CaptureError::AccessLost)
            },
            FrameOutcome::Failed => Err(CaptureError::AcquireFailed),
            FrameOutcome::Ready(desc) => match plan_transfer(desc, &area) {
                Ok(p) => Ok(Some(p)),
                Err(e) => Err(e),
            },
        }
    }

    /// Moves the session to another display, from the outcome of resolving it
    /// and of opening a duplication handle on it. On either failure the session
    /// keeps its display and handle unchanged.
    pub fn switch_monitor(&mut self, monitor: Option<H>, duplication: Option<D>) -> (r: Result<(), CaptureError>)
        ensures
            monitor is None ==> r == Err::<(), CaptureError>(CaptureError::DisplayResolution),
            monitor is Some && duplication is None ==> r == Err::<(), CaptureError>(
                CaptureError::SessionCreate,
            ),
            r is Err ==> final(self)@ == old(self)@,
            monitor is Some && duplication is Some ==> r is Ok && final(self)@ == (SessionView {
                monitor: monitor->Some_0,
                duplication: duplication->Some_0,
                lost: false,
            }),
    {
        match monitor {
            None => Err(CaptureError::DisplayResolution),
            Some(monitor) => match duplication {
                None => Err(CaptureError::SessionCreate),
                Some(duplication) => {
                    self.monitor = monitor;
                    self.duplication = duplication;
                    self.lost = false;
                    Ok(())
                },
            },
        }
    }

    /// Rebuilds the hardware handle for the current display from the outcome of
    /// reopening it. On failure the session is unchanged, and stays invalidated
    /// if it was.
    pub fn recreate(&mut self, duplication: Option<D>) -> (r: Result<(), CaptureError>)
        ensures
            duplication is None ==> r == Err::<(), CaptureError>(CaptureError::SessionCreate)
                && final(self)@ == old(self)@,
            duplication is Some ==> r is Ok && final(self)@ == recreated(old(self)@, duplication->Some_0),
    {
        match duplication {
            None => Err(CaptureError::SessionCreate),
            Some(duplication) => {
                self.duplication = duplication;
                self.lost = false;
                Ok(())
            },
        }
    }
}

} // verus!
