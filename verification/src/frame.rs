//! The frame scheduler: which step of a frame comes next, given what the
//! device answered to the step before.
//!
//! The scheduler makes no call itself. It is handed an event and answers
//! with a decision; whoever drives it performs the decision and comes back
//! with the next event.

use crate::status::{frame_failure, frame_failure_of, ErrorKind};
use crate::swapchain::{
    acquisition, interpret_acquisition, interpret_presentation, presentation, Acquired, Presented,
};
use vstd::prelude::*;

verus! {

/// Where a frame slot stands.
#[derive(Clone, Copy, Debug, PartialEq, Eq, Structural)]
pub enum SlotState {
    /// No work of the slot is outstanding and its fence is signaled.
    Idle,
    /// The slot's fence was waited for and reset; an image is being acquired.
    Acquiring,
    /// The slot's command buffer is being recorded and submitted.
    Recording,
    /// Work was submitted; the fence signals when the device is done.
    Submitted,
}

/// The step of a frame at which something went wrong.
#[derive(Clone, Copy, Debug, PartialEq, Eq, Structural)]
pub enum Stage {
    FenceWait,
    Acquire,
    Submit,
    Present,
    /// The creation of the new swapchain and of what is built on it.
    Rebuild,
}

/// A failure that ends rendering.
#[derive(Clone, Copy, Debug, PartialEq, Eq, Structural)]
pub struct FrameError {
    pub kind: ErrorKind,
    pub stage: Stage,
    pub slot: usize,
}

/// What the scheduler is waiting for.
#[derive(Clone, Copy, Debug, PartialEq, Eq, Structural)]
pub enum Phase {
    /// Between frames.
    Ready,
    /// The wait for the current slot's fence.
    AwaitFence,
    /// The acquisition of an image.
    AwaitImage,
    /// The submission of the work for `image`.
    AwaitSubmit { image: u32 },
    /// The presentation of `image`.
    AwaitPresent { image: u32 },
    /// The swapchain is stale and still stands. `advance` says whether the
    /// frame that found it so was submitted.
    NeedsRecreate { advance: bool },
    /// The swapchain is torn down and not yet rebuilt.
    Rebuilding { advance: bool },
    /// Rendering has failed for good.
    Failed(FrameError),
    /// Everything is destroyed.
    TornDown,
}

/// What the device answered.
#[derive(Clone, Copy, Debug, PartialEq, Eq)]
pub enum FrameEvent {
    /// A frame is asked for.
    Begin,
    /// The wait for the fence returned: success, or a result code.
    Fence(Result<(), i32>),
    /// The acquisition returned: index and suboptimal flag, or a result code.
    Acquired(Result<(u32, bool), i32>),
    /// The submission returned: success, or a result code.
    Submitted(Result<(), i32>),
    /// The presentation returned: the suboptimal flag, or a result code.
    Presented(Result<bool, i32>),
}

/// What is to be done next.
#[derive(Clone, Copy, Debug, PartialEq, Eq, Structural)]
pub enum Decision {
    /// Wait for the fence of `slot`, then reset it.
    Wait { slot: usize },
    /// Acquire an image, signaling the image-available semaphore of `slot`.
    Acquire { slot: usize },
    /// Update the resources of `image`, record the command buffer of `slot`
    /// against `image` and submit it.
    Draw { slot: usize, image: u32 },
    /// Present `image`, waiting for the render-finished semaphore of `slot`.
    Present { slot: usize, image: u32 },
    /// Tear the swapchain down.
    Recreate,
    /// Build the new swapchain and hand it over.
    Rebuild,
    /// Nothing: the frame is over.
    Done,
    /// Nothing: rendering has failed.
    Fail(FrameError),
    /// Nothing: everything is destroyed.
    Stopped,
}

/// The scheduler as a value: the model that the contracts speak of.
pub struct SchedulerState {
    pub current_frame: int,
    pub slots: Seq<SlotState>,
    pub should_recreate: bool,
    pub phase: Phase,
}

/// The state of the frames in flight.
#[derive(Debug)]
pub struct FrameScheduler {
    pub frames_in_flight: usize,
    pub current_frame: usize,
    pub slots: Vec<SlotState>,
    pub should_recreate_swapchain: bool,
    pub phase: Phase,
}

impl View for FrameScheduler {
    type V = SchedulerState;

    open spec fn view(&self) -> SchedulerState {
        SchedulerState {
            current_frame: self.current_frame as int,
            slots: self.slots@,
            should_recreate: self.should_recreate_swapchain,
            phase: self.phase,
        }
    }
}

/// The state that the current slot must be in, by phase.
pub open spec fn current_slot_fits(phase: Phase, state: SlotState) -> bool {
    match phase {
        Phase::Ready => state != SlotState::Recording,
        Phase::AwaitFence => state == SlotState::Idle || state == SlotState::Submitted,
        Phase::AwaitImage => state == SlotState::Acquiring,
        Phase::AwaitSubmit { .. } => state == SlotState::Recording,
        Phase::AwaitPresent { .. } => state == SlotState::Submitted,
        Phase::NeedsRecreate { advance } => if advance {
            state == SlotState::Submitted
        } else {
            state != SlotState::Recording
        },
        Phase::Rebuilding { advance } => if advance {
            state == SlotState::Idle
        } else {
            state == SlotState::Idle || state == SlotState::Acquiring
        },
        Phase::Failed(_) => true,
        Phase::TornDown => true,
    }
}

/// A scheduler state that can arise: there is a slot (and no more slots than
/// the machine can count), the current frame
/// names one, every other slot is idle or submitted, and the current slot is
/// where the phase says; while the swapchain is being rebuilt the device is
/// idle and nothing is submitted.
pub open spec fn state_valid(s: SchedulerState) -> bool {
    &&& 1 <= s.slots.len() <= usize::MAX
    &&& 0 <= s.current_frame < s.slots.len()
    &&& current_slot_fits(s.phase, s.slots[s.current_frame])
    &&& forall|i: int|
        0 <= i < s.slots.len() && i != s.current_frame ==> (#[trigger] s.slots[i]
            == SlotState::Idle || s.slots[i] == SlotState::Submitted)
    &&& s.phase is Rebuilding ==> forall|i: int|
        0 <= i < s.slots.len() ==> #[trigger] s.slots[i] != SlotState::Submitted
}

/// The decision that a phase is still waiting to see carried out.
pub open spec fn pending(s: SchedulerState) -> Decision {
    let slot = s.current_frame as usize;
    match s.phase {
        Phase::Ready => Decision::Done,
        Phase::AwaitFence => Decision::Wait { slot },
        Phase::AwaitImage => Decision::Acquire { slot },
        Phase::AwaitSubmit { image } => Decision::Draw { slot, image },
        Phase::AwaitPresent { image } => Decision::Present { slot, image },
        Phase::NeedsRecreate { .. } => Decision::Recreate,
        Phase::Rebuilding { .. } => Decision::Rebuild,
        Phase::Failed(e) => Decision::Fail(e),
        Phase::TornDown => Decision::Stopped,
    }
}

/// The state after a failure of `kind` at `stage`, and the decision.
pub open spec fn failed(s: SchedulerState, kind: ErrorKind, stage: Stage) -> (
    SchedulerState,
    Decision,
) {
    let e = FrameError { kind, stage, slot: s.current_frame as usize };
    (SchedulerState { phase: Phase::Failed(e), ..s }, Decision::Fail(e))
}

/// The state in which the swapchain has been found stale, and the decision.
pub open spec fn stale(s: SchedulerState, advance: bool) -> (SchedulerState, Decision) {
    (
        SchedulerState { phase: Phase::NeedsRecreate { advance }, should_recreate: false, ..s },
        Decision::Recreate,
    )
}

/// The frame counter after one more frame.
pub open spec fn advanced(s: SchedulerState) -> int {
    (s.current_frame + 1) % (s.slots.len() as int)
}

/// The transition of the scheduler: the state after event `e` and what is
/// to be done next, for a swapchain of `image_count` images.
///
/// An event that the phase does not wait for changes nothing, and is
/// answered with the decision that is still pending.
pub open spec fn next(s: SchedulerState, image_count: u32, e: FrameEvent) -> (
    SchedulerState,
    Decision,
) {
    let f = s.current_frame;
    let slot = f as usize;
    match (s.phase, e) {
        (Phase::Ready, FrameEvent::Begin) => if s.slots[f] == SlotState::Acquiring {
            (SchedulerState { phase: Phase::AwaitImage, ..s }, Decision::Acquire { slot })
        } else {
            (SchedulerState { phase: Phase::AwaitFence, ..s }, Decision::Wait { slot })
        },
        (Phase::AwaitFence, FrameEvent::Fence(r)) => match r {
            Ok(_) => (
                SchedulerState {
                    phase: Phase::AwaitImage,
                    slots: s.slots.update(f, SlotState::Acquiring),
                    ..s
                },
                Decision::Acquire { slot },
            ),
            Err(code) => failed(s, frame_failure_of(code), Stage::FenceWait),
        },
        (Phase::AwaitImage, FrameEvent::Acquired(r)) => match acquisition(image_count, r) {
            Acquired::Image(image) => (
                SchedulerState {
                    phase: Phase::AwaitSubmit { image },
                    slots: s.slots.update(f, SlotState::Recording),
                    ..s
                },
                Decision::Draw { slot, image },
            ),
            Acquired::Stale => stale(s, false),
            Acquired::Failed(kind) => failed(s, kind, Stage::Acquire),
        },
        (Phase::AwaitSubmit { image }, FrameEvent::Submitted(r)) => match r {
            Ok(_) => (
                SchedulerState {
                    phase: Phase::AwaitPresent { image },
                    slots: s.slots.update(f, SlotState::Submitted),
                    ..s
                },
                Decision::Present { slot, image },
            ),
            Err(code) => failed(s, frame_failure_of(code), Stage::Submit),
        },
        (Phase::AwaitPresent { image }, FrameEvent::Presented(r)) => match presentation(r) {
            Presented::Shown => if s.should_recreate {
                stale(s, true)
            } else {
                (
                    SchedulerState { phase: Phase::Ready, current_frame: advanced(s), ..s },
                    Decision::Done,
                )
            },
            Presented::Stale => stale(s, true),
            Presented::Failed(kind) => failed(s, kind, Stage::Present),
        },
        _ => (s, pending(s)),
    }
}

/// A slot after the device has gone idle: what was submitted is done, and
/// what was being recorded was never submitted.
pub open spec fn settled(state: SlotState) -> SlotState {
    match state {
        SlotState::Submitted => SlotState::Idle,
        SlotState::Recording => SlotState::Acquiring,
        _ => state,
    }
}

/// The state after the swapchain was torn down: the device is idle, so every
/// slot is settled, and the scheduler waits for the new swapchain. A resize
/// that was noted stays noted. Nothing changes once rendering has failed or
/// everything is destroyed.
pub open spec fn torn_down(s: SchedulerState) -> SchedulerState {
    match s.phase {
        Phase::Failed(_) => s,
        Phase::TornDown => s,
        _ => SchedulerState {
            phase: Phase::Rebuilding {
                advance: s.phase == (Phase::NeedsRecreate { advance: true }) || s.phase == (
                Phase::Rebuilding { advance: true }),
            },
            slots: Seq::new(s.slots.len(), |i: int| settled(s.slots[i])),
            ..s
        },
    }
}

/// The state after the new swapchain was handed over: ready for a frame,
/// the next one if the frame that found the swapchain stale was submitted.
/// Nothing changes unless the scheduler waits for a swapchain.
pub open spec fn rebuilt(s: SchedulerState) -> SchedulerState {
    match s.phase {
        Phase::Rebuilding { advance } => SchedulerState {
            phase: Phase::Ready,
            current_frame: if advance {
                advanced(s)
            } else {
                s.current_frame
            },
            ..s
        },
        _ => s,
    }
}

/// The state after a creation call of the rebuild has failed: rendering has
/// failed for good, with a failure of `kind` at the rebuild. Nothing changes
/// unless the scheduler waits for a swapchain.
pub open spec fn rebuild_failure(s: SchedulerState, kind: ErrorKind) -> SchedulerState {
    match s.phase {
        Phase::Rebuilding { .. } => SchedulerState {
            phase: Phase::Failed(
                FrameError { kind, stage: Stage::Rebuild, slot: s.current_frame as usize },
            ),
            ..s
        },
        _ => s,
    }
}

/// The number of slots that are not idle.
pub open spec fn outstanding(slots: Seq<SlotState>) -> nat
    decreases slots.len(),
{
    if slots.len() == 0 {
        0
    } else {
        outstanding(slots.drop_last()) + if slots.last() == SlotState::Idle {
            0nat
        } else {
            1nat
        }
    }
}

impl FrameScheduler {
    /// The scheduler is in a state that can arise.
    pub open spec fn wf(&self) -> bool {
        &&& self.frames_in_flight == self.slots.len()
        &&& state_valid(self@)
    }

    /// A scheduler for `frames_in_flight` frames, all idle. `None` exactly
    /// when no frame would be in flight.
    pub fn new(frames_in_flight: usize) -> (r: Option<FrameScheduler>)
        ensures
            r is Some <==> frames_in_flight >= 1,
            r is Some ==> {
                let s = r.unwrap();
                &&& s.wf()
                &&& s.frames_in_flight == frames_in_flight
                &&& s@.current_frame == 0
                &&& s@.slots == Seq::new(frames_in_flight as nat, |i: int| SlotState::Idle)
                &&& !s@.should_recreate
                &&& s@.phase == Phase::Ready
            },
    {
        if frames_in_flight == 0 {
            return None;
        }
        let mut slots: Vec<SlotState> = Vec::new();
        let mut i: usize = 0;
        while i < frames_in_flight
            invariant
                0 <= i <= frames_in_flight,
                slots@ == Seq::new(i as nat, |j: int| SlotState::Idle),
            decreases frames_in_flight - i,
        {
            slots.push(SlotState::Idle);
            i += 1;
            assert(slots@ =~= Seq::new(i as nat, |j: int| SlotState::Idle));
        }
        Some(
            FrameScheduler {
                frames_in_flight,
                current_frame: 0,
                slots,
                should_recreate_swapchain: false,
                phase: Phase::Ready,
            },
        )
    }

    /// Whether the scheduler is in a state that can arise.
    pub fn is_well_formed(&self) -> (r: bool)
        ensures
            r == self.wf(),
    {
        if self.frames_in_flight != self.slots.len() || self.slots.len() == 0
            || self.current_frame >= self.slots.len() {
            return false;
        }
        let rebuilding = match self.phase {
            Phase::Rebuilding { .. } => true,
            _ => false,
        };
        let mut i: usize = 0;
        while i < self.slots.len()
            invariant
                0 <= i <= self.slots.len(),
                self.current_frame < self.slots.len(),
                rebuilding == (self.phase is Rebuilding),
                forall|j: int|
                    0 <= j < i && j != self.current_frame ==> (#[trigger] self.slots@[j]
                        == SlotState::Idle || self.slots@[j] == SlotState::Submitted),
                rebuilding ==> forall|j: int|
                    0 <= j < i ==> #[trigger] self.slots@[j] != SlotState::Submitted,
            decreases self.slots.len() - i,
        {
            let state = self.slots[i];
            if i != self.current_frame {
                match state {
                    SlotState::Idle => {},
                    SlotState::Submitted => {},
                    _ => {
                        return false;
                    },
                }
            }
            if rebuilding {
                match state {
                    SlotState::Submitted => {
                        return false;
                    },
                    _ => {},
                }
            }
            i += 1;
        }
        let state = self.slots[self.current_frame];
        match self.phase {
            Phase::Ready => match state {
                SlotState::Recording => false,
                _ => true,
            },
            Phase::AwaitFence => match state {
                SlotState::Idle => true,
                SlotState::Submitted => true,
                _ => false,
            },
            Phase::AwaitImage => match state {
                SlotState::Acquiring => true,
                _ => false,
            },
            Phase::AwaitSubmit { .. } => match state {
                SlotState::Recording => true,
                _ => false,
            },
            Phase::AwaitPresent { .. } => match state {
                SlotState::Submitted => true,
                _ => false,
            },
            Phase::NeedsRecreate { advance } => match state {
                SlotState::Submitted => true,
                SlotState::Recording => false,
                _ => !advance,
            },
            Phase::Rebuilding { advance } => match state {
                SlotState::Idle => true,
                SlotState::Acquiring => !advance,
                _ => false,
            },
            Phase::Failed(_) => true,
            Phase::TornDown => true,
        }
    }

    /// Takes one event and says what is to be done next.
    pub fn step(&mut self, image_count: u32, event: FrameEvent) -> (d: Decision)
        requires
            old(self).wf(),
        ensures
            (final(self)@, d) == next(old(self)@, image_count, event),
            final(self).wf(),
    {
        let slot = self.current_frame;
        let ghost s = self@;
        match (self.phase, event) {
            (Phase::Ready, FrameEvent::Begin) => {
                match self.slots[slot] {
                    SlotState::Acquiring => {
                        self.phase = Phase::AwaitImage;
                        Decision::Acquire { slot }
                    },
                    _ => {
                        self.phase = Phase::AwaitFence;
                        Decision::Wait { slot }
                    },
                }
            },
            (Phase::AwaitFence, FrameEvent::Fence(r)) => {
                match r {
                    Ok(_) => {
                        self.slots.set(slot, SlotState::Acquiring);
                        self.phase = Phase::AwaitImage;
                        Decision::Acquire { slot }
                    },
                    Err(code) => self.fail(frame_failure(code), Stage::FenceWait),
                }
            },
            (Phase::AwaitImage, FrameEvent::Acquired(r)) => {
                match interpret_acquisition(image_count, r) {
                    Acquired::Image(image) => {
                        self.slots.set(slot, SlotState::Recording);
                        self.phase = Phase::AwaitSubmit { image };
                        Decision::Draw { slot, image }
                    },
                    Acquired::Stale => self.found_stale(false),
                    Acquired::Failed(kind) => self.fail(kind, Stage::Acquire),
                }
            },
            (Phase::AwaitSubmit { image }, FrameEvent::Submitted(r)) => {
                match r {
                    Ok(_) => {
                        self.slots.set(slot, SlotState::Submitted);
                        self.phase = Phase::AwaitPresent { image };
                        Decision::Present { slot, image }
                    },
                    Err(code) => self.fail(frame_failure(code), Stage::Submit),
                }
            },
            (Phase::AwaitPresent { image }, FrameEvent::Presented(r)) => {
                match interpret_presentation(r) {
                    Presented::Shown => {
                        if self.should_recreate_swapchain {
                            self.found_stale(true)
                        } else {
                            self.current_frame = (self.current_frame + 1) % self.slots.len();
                            self.phase = Phase::Ready;
                            Decision::Done
                        }
                    },
                    Presented::Stale => self.found_stale(true),
                    Presented::Failed(kind) => self.fail(kind, Stage::Present),
                }
            },
            _ => self.pending_decision(),
        }
    }

    /// The decision that is still waiting to be carried out.
    pub fn pending_decision(&self) -> (d: Decision)
        ensures
            d == pending(self@),
    {
        let slot = self.current_frame;
        match self.phase {
            Phase::Ready => Decision::Done,
            Phase::AwaitFence => Decision::Wait { slot },
            Phase::AwaitImage => Decision::Acquire { slot },
            Phase::AwaitSubmit { image } => Decision::Draw { slot, image },
            Phase::AwaitPresent { image } => Decision::Present { slot, image },
            Phase::NeedsRecreate { .. } => Decision::Recreate,
            Phase::Rebuilding { .. } => Decision::Rebuild,
            Phase::Failed(e) => Decision::Fail(e),
            Phase::TornDown => Decision::Stopped,
        }
    }

    fn fail(&mut self, kind: ErrorKind, stage: Stage) -> (d: Decision)
        requires
            old(self).wf(),
        ensures
            (final(self)@, d) == failed(old(self)@, kind, stage),
            final(self).wf(),
    {
        let e = FrameError { kind, stage, slot: self.current_frame };
        self.phase = Phase::Failed(e);
        Decision::Fail(e)
    }

    fn found_stale(&mut self, advance: bool) -> (d: Decision)
        requires
            old(self).wf(),
            current_slot_fits(
                Phase::NeedsRecreate { advance },
                old(self).slots@[old(self).current_frame as int],
            ),
        ensures
            (final(self)@, d) == stale(old(self)@, advance),
            final(self).wf(),
    {
        self.phase = Phase::NeedsRecreate { advance };
        self.should_recreate_swapchain = false;
        Decision::Recreate
    }

    /// Notes that the surface has changed its size: the swapchain is
    /// recreated once the frame under way has been presented.
    pub fn notify_resized(&mut self)
        ensures
            final(self)@ == (SchedulerState { should_recreate: true, ..old(self)@ }),
            final(self).frames_in_flight == old(self).frames_in_flight,
            old(self).wf() ==> final(self).wf(),
    {
        self.should_recreate_swapchain = true;
    }

    /// Notes that the device is idle and the swapchain torn down.
    pub fn swapchain_torn_down(&mut self)
        requires
            old(self).wf(),
        ensures
            final(self)@ == torn_down(old(self)@),
            final(self).wf(),
    {
        let advance = match self.phase {
            Phase::Failed(_) => {
                return ;
            },
            Phase::TornDown => {
                return ;
            },
            Phase::NeedsRecreate { advance } => advance,
            Phase::Rebuilding { advance } => advance,
            _ => false,
        };
        let ghost before = self.slots@;
        let mut i: usize = 0;
        while i < self.slots.len()
            invariant
                0 <= i <= self.slots.len(),
                self.slots.len() == before.len(),
                forall|j: int| 0 <= j < i ==> #[trigger] self.slots@[j] == settled(before[j]),
                forall|j: int| i <= j < before.len() ==> #[trigger] self.slots@[j] == before[j],
                self.frames_in_flight == old(self).frames_in_flight,
                self.current_frame == old(self).current_frame,
                self.phase == old(self).phase,
                self.should_recreate_swapchain == old(self).should_recreate_swapchain,
            decreases self.slots.len() - i,
        {
            let state = match self.slots[i] {
                SlotState::Submitted => SlotState::Idle,
                SlotState::Recording => SlotState::Acquiring,
                other => other,
            };
            self.slots.set(i, state);
            i += 1;
        }
        self.phase = Phase::Rebuilding { advance };
        assert(self.slots@ =~= Seq::new(before.len(), |i: int| settled(before[i])));
    }

    /// Notes that the new swapchain stands.
    pub fn swapchain_rebuilt(&mut self)
        requires
            old(self).wf(),
        ensures
            final(self)@ == rebuilt(old(self)@),
            final(self).wf(),
    {
        match self.phase {
            Phase::Rebuilding { advance } => {
                if advance {
                    self.current_frame = (self.current_frame + 1) % self.slots.len();
                }
                self.phase = Phase::Ready;
            },
            _ => {},
        }
    }

    /// Notes that a creation call of the rebuild has failed, with a failure
    /// of `kind`. The failure comes back exactly when the scheduler was
    /// waiting for a swapchain; else nothing changes.
    pub fn rebuild_failed(&mut self, kind: ErrorKind) -> (r: Option<FrameError>)
        requires
            old(self).wf(),
        ensures
            final(self)@ == rebuild_failure(old(self)@, kind),
            final(self).frames_in_flight == old(self).frames_in_flight,
            final(self).wf(),
            r is Some <==> old(self).phase is Rebuilding,
            r is Some ==> final(self).phase == Phase::Failed(r.unwrap()) && r.unwrap() == (
            FrameError { kind, stage: Stage::Rebuild, slot: old(self).current_frame }),
    {
        match self.phase {
            Phase::Rebuilding { .. } => {
                let e = FrameError { kind, stage: Stage::Rebuild, slot: self.current_frame };
                self.phase = Phase::Failed(e);
                Some(e)
            },
            _ => None,
        }
    }

    /// Notes that everything is destroyed.
    pub fn stop(&mut self)
        ensures
            final(self)@ == (SchedulerState { phase: Phase::TornDown, ..old(self)@ }),
            final(self).frames_in_flight == old(self).frames_in_flight,
            old(self).wf() ==> final(self).wf(),
    {
        self.phase = Phase::TornDown;
    }
}

/// No more slots are outstanding than there are slots.
pub proof fn lemma_outstanding_bounded(slots: Seq<SlotState>)
    ensures
        outstanding(slots) <= slots.len(),
    decreases slots.len(),
{
    if slots.len() > 0 {
        lemma_outstanding_bounded(slots.drop_last());
    }
}

/// Every transition leads from a state that can arise to one that can
/// arise, and keeps the number of slots.
pub proof fn lemma_next_keeps_validity(s: SchedulerState, image_count: u32, e: FrameEvent)
    requires
        state_valid(s),
    ensures
        state_valid(next(s, image_count, e).0),
        next(s, image_count, e).0.slots.len() == s.slots.len(),
{
}

/// At most as many frames are in flight as there are frame slots, in every
/// state that can arise and after every event.
pub proof fn lemma_frames_in_flight_bounded(s: SchedulerState, image_count: u32, e: FrameEvent)
    requires
        state_valid(s),
    ensures
        outstanding(s.slots) <= s.slots.len(),
        outstanding(next(s, image_count, e).0.slots) <= s.slots.len(),
{
    lemma_outstanding_bounded(s.slots);
    lemma_outstanding_bounded(next(s, image_count, e).0.slots);
}

/// A frame whose slot still has work in flight begins by waiting for that
/// slot's fence, and while it waits nothing moves: every event but the
/// fence's own answer leaves the state as it is and is answered with the
/// same wait. Only the signaled fence lets the frame acquire an image.
pub proof fn lemma_frame_blocks_on_fence(s: SchedulerState, image_count: u32, e: FrameEvent)
    requires
        state_valid(s),
        s.phase == Phase::Ready,
        s.slots[s.current_frame] == SlotState::Submitted,
    ensures
        ({
            let slot = s.current_frame as usize;
            let (waiting, first) = next(s, image_count, FrameEvent::Begin);
            &&& first == Decision::Wait { slot }
            &&& waiting.slots == s.slots
            &&& !(e is Fence) ==> next(waiting, image_count, e) == (waiting, Decision::Wait { slot })
            &&& next(waiting, image_count, FrameEvent::Fence(Ok(()))).1 == Decision::Acquire { slot }
            &&& next(waiting, image_count, FrameEvent::Fence(Ok(()))).0.slots[s.current_frame]
                == SlotState::Acquiring
        }),
{
}

/// Work is only ever recorded for the current slot, for an image that the
/// acquisition just returned or that is already being recorded, and never
/// for a slot whose earlier work may still be in flight.
pub proof fn lemma_draw_needs_free_slot(
    s: SchedulerState,
    image_count: u32,
    e: FrameEvent,
    slot: usize,
    image: u32,
)
    requires
        state_valid(s),
        next(s, image_count, e).1 == (Decision::Draw { slot, image }),
    ensures
        slot == s.current_frame,
        s.slots[slot as int] == SlotState::Acquiring || s.slots[slot as int]
            == SlotState::Recording,
        s.phase == Phase::AwaitImage ==> image < image_count,
        s.phase == Phase::AwaitImage || s.phase == (Phase::AwaitSubmit { image }),
{
}

/// An acquisition that reports the swapchain stale, by the suboptimal flag
/// or by the out-of-date code, ends the frame without a draw: recreation is
/// decided, the frame counter stays, and the slot keeps its reset fence.
pub proof fn lemma_stale_acquisition_skips_frame(
    s: SchedulerState,
    image_count: u32,
    outcome: Result<(u32, bool), i32>,
)
    requires
        state_valid(s),
        s.phase == Phase::AwaitImage,
        acquisition(image_count, outcome) == Acquired::Stale,
    ensures
        ({
            let (after, d) = next(s, image_count, FrameEvent::Acquired(outcome));
            &&& d == Decision::Recreate
            &&& after.phase == (Phase::NeedsRecreate { advance: false })
            &&& after.current_frame == s.current_frame
            &&& after.slots == s.slots
            &&& !after.should_recreate
        }),
{
}

/// While the swapchain is stale or being rebuilt no event leads to an
/// acquisition, a draw or a presentation: the state stays, and the answer
/// is the recreation or the rebuild that is still due.
pub proof fn lemma_nothing_rendered_until_rebuilt(s: SchedulerState, image_count: u32, e: FrameEvent)
    requires
        s.phase is NeedsRecreate || s.phase is Rebuilding,
    ensures
        next(s, image_count, e).0 == s,
        s.phase is NeedsRecreate ==> next(s, image_count, e).1 == Decision::Recreate,
        s.phase is Rebuilding ==> next(s, image_count, e).1 == Decision::Rebuild,
{
}

/// A resize that is noted while a frame is under way changes nothing of
/// that frame up to its presentation: the decisions are those of the frame
/// without the resize, and so are phase, slots and frame counter.
pub proof fn lemma_resize_leaves_frame_alone(s: SchedulerState, image_count: u32, e: FrameEvent)
    requires
        state_valid(s),
        s.phase == Phase::Ready || s.phase == Phase::AwaitFence || s.phase == Phase::AwaitImage
            || s.phase is AwaitSubmit,
    ensures
        ({
            let noted = SchedulerState { should_recreate: true, ..s };
            let (plain, d) = next(s, image_count, e);
            let (resized, d_resized) = next(noted, image_count, e);
            &&& d_resized == d
            &&& resized.phase == plain.phase
            &&& resized.slots == plain.slots
            &&& resized.current_frame == plain.current_frame
        }),
{
}

/// A resize that was noted is honoured when the frame has been presented:
/// whatever the presentation says of the swapchain, short of a failure,
/// recreation is decided, and the next frame is the one after it.
pub proof fn lemma_resize_recreates_after_present(
    s: SchedulerState,
    image_count: u32,
    outcome: Result<bool, i32>,
)
    requires
        state_valid(s),
        s.phase is AwaitPresent,
        s.should_recreate,
        !(presentation(outcome) is Failed),
    ensures
        ({
            let (after, d) = next(s, image_count, FrameEvent::Presented(outcome));
            &&& d == Decision::Recreate
            &&& after.phase == (Phase::NeedsRecreate { advance: true })
            &&& !after.should_recreate
            &&& rebuilt(torn_down(after)).phase == Phase::Ready
            &&& rebuilt(torn_down(after)).current_frame == advanced(s)
        }),
{
}

/// A frame that runs without trouble goes through wait, acquisition, draw
/// and presentation in this order, and leaves the scheduler ready for the
/// next slot, with the slot it used submitted.
pub proof fn lemma_frame_runs_in_order(s: SchedulerState, image_count: u32, image: u32)
    requires
        state_valid(s),
        s.phase == Phase::Ready,
        s.slots[s.current_frame] != SlotState::Acquiring,
        !s.should_recreate,
        image < image_count,
    ensures
        ({
            let slot = s.current_frame as usize;
            let (s1, d1) = next(s, image_count, FrameEvent::Begin);
            let (s2, d2) = next(s1, image_count, FrameEvent::Fence(Ok(())));
            let (s3, d3) = next(s2, image_count, FrameEvent::Acquired(Ok((image, false))));
            let (s4, d4) = next(s3, image_count, FrameEvent::Submitted(Ok(())));
            let (s5, d5) = next(s4, image_count, FrameEvent::Presented(Ok(false)));
            &&& d1 == Decision::Wait { slot }
            &&& d2 == Decision::Acquire { slot }
            &&& d3 == Decision::Draw { slot, image }
            &&& d4 == Decision::Present { slot, image }
            &&& d5 == Decision::Done
            &&& s5.phase == Phase::Ready
            &&& s5.current_frame == advanced(s)
            &&& s5.slots == s.slots.update(s.current_frame, SlotState::Submitted)
        }),
{
}

/// Whatever the event, the decision names the current slot, and the image
/// that it names is one of the swapchain's, as long as the image of a frame
/// under way is. The same then holds of the phase that follows.
pub proof fn lemma_decision_in_range(s: SchedulerState, image_count: u32, e: FrameEvent)
    requires
        state_valid(s),
        s.phase is AwaitSubmit ==> s.phase->AwaitSubmit_image < image_count,
        s.phase is AwaitPresent ==> s.phase->AwaitPresent_image < image_count,
    ensures
        ({
            let (after, d) = next(s, image_count, e);
            &&& match d {
                Decision::Wait { slot } => slot == s.current_frame,
                Decision::Acquire { slot } => slot == s.current_frame,
                Decision::Draw { slot, image } => slot == s.current_frame && image < image_count,
                Decision::Present { slot, image } => slot == s.current_frame && image
                    < image_count,
                _ => true,
            }
            &&& after.phase is AwaitSubmit ==> after.phase->AwaitSubmit_image < image_count
            &&& after.phase is AwaitPresent ==> after.phase->AwaitPresent_image < image_count
            &&& (after.phase is Rebuilding <==> s.phase is Rebuilding)
            &&& (after.phase is TornDown <==> s.phase is TornDown)
            &&& (s.phase is Failed ==> after.phase is Failed)
        }),
{
}

/// A stale swapchain is never a failure: whatever the phase, short of a
/// failure that has happened already, an acquisition or a presentation
/// that reports the swapchain stale is not answered with a failure and does
/// not end rendering.
pub proof fn lemma_staleness_is_no_failure(s: SchedulerState, image_count: u32, e: FrameEvent)
    requires
        !(s.phase is Failed),
        match e {
            FrameEvent::Acquired(r) => acquisition(image_count, r) == Acquired::Stale,
            FrameEvent::Presented(r) => presentation(r) == Presented::Stale,
            _ => false,
        },
    ensures
        !(next(s, image_count, e).1 is Fail),
        !(next(s, image_count, e).0.phase is Failed),
{
}

/// A failure is final: once rendering has failed, every event leaves the
/// state as it is and is answered with the failure that happened.
pub proof fn lemma_failure_is_final(s: SchedulerState, image_count: u32, e: FrameEvent)
    requires
        s.phase is Failed,
    ensures
        next(s, image_count, e) == (s, Decision::Fail(s.phase->Failed_0)),
        torn_down(s) == s,
        rebuilt(s) == s,
{
}

/// Tearing the swapchain down and building it anew leads from a state that
/// can arise to one that can arise, cycle after cycle, and leaves the
/// scheduler ready for a frame unless rendering had ended before.
pub proof fn lemma_recreation_keeps_validity(s: SchedulerState)
    requires
        state_valid(s),
    ensures
        state_valid(torn_down(s)),
        state_valid(rebuilt(torn_down(s))),
        torn_down(torn_down(s)) == torn_down(s),
        !(s.phase is Failed) && !(s.phase is TornDown) ==> rebuilt(torn_down(s)).phase
            == Phase::Ready,
        rebuilt(torn_down(s)).slots.len() == s.slots.len(),
        rebuilt(torn_down(s)).should_recreate == s.should_recreate,
        torn_down(s).current_frame == s.current_frame,
{
    let t = torn_down(s);
    if !(s.phase is Failed) && !(s.phase is TornDown) {
        assert(torn_down(t).slots =~= t.slots);
    }
}

/// A rebuild that fails ends rendering with a failure of the kind given, at
/// the rebuild; the state stays one that can arise, and from then on every
/// event is answered with that failure.
pub proof fn lemma_failed_rebuild_is_fatal(
    s: SchedulerState,
    kind: ErrorKind,
    image_count: u32,
    e: FrameEvent,
)
    requires
        state_valid(s),
        s.phase is Rebuilding,
    ensures
        ({
            let after = rebuild_failure(s, kind);
            let failure = FrameError { kind, stage: Stage::Rebuild, slot: s.current_frame as usize };
            &&& state_valid(after)
            &&& after.phase == Phase::Failed(failure)
            &&& after.slots == s.slots
            &&& after.current_frame == s.current_frame
            &&& next(after, image_count, e) == (after, Decision::Fail(failure))
        }),
{
}

} // verus!
