use crate::size::WindowSize;
use crate::surface::{FramePlan, SurfaceError, SurfaceState};
use vstd::prelude::*;

verus! {

/// Where the lifecycle driver stands: no window yet, owner
/// construction begun but not finished, or a fully constructed owner.
/// The owner is never observed partially constructed: it is either
/// absent or carried whole by `Ready`.
#[derive(Clone, Copy, Debug, PartialEq, Eq, Structural)]
pub enum Phase {
    Uninitialized,
    Constructing,
    Ready(SurfaceState),
}

/// A lifecycle or window event, as the driver sees it.  Platform work
/// that completes asynchronously reports back through
/// `ConstructionComplete`, carrying the freshly built owner state.
#[derive(Clone, Copy, Debug, PartialEq, Eq, Structural)]
pub enum LoopEvent {
    Resumed,
    ConstructionComplete(SurfaceState),
    Resized(WindowSize),
    RedrawRequested,
    CloseRequested,
    Other,
}

/// What the caller must do after the driver has handled one event.
#[derive(Clone, Copy, Debug, PartialEq, Eq, Structural)]
pub enum LoopAction {
    /// Create the platform window and start the asynchronous owner
    /// construction; report completion as `ConstructionComplete`.
    BeginConstruction,
    /// Perform one render call as the plan directs, then report the
    /// outcome to `finish_redraw`.
    Render(FramePlan),
    /// Request the next redraw from the window.
    RequestRedraw,
    /// Leave the event loop.
    Exit,
    /// Nothing to do.
    Idle,
}

/// Classification of one completed render call.
#[derive(Clone, Copy, Debug, PartialEq, Eq, Structural)]
pub enum RenderDisposition {
    /// The frame was drawn (or legitimately skipped on a zero-area
    /// surface).
    Completed,
    /// The surface was lost: recoverable; the next reconfiguration
    /// heals it, so the loop merely notes it and continues.
    SurfaceLost,
    /// Any other frame error: noted, the frame is dropped, and the
    /// loop continues.
    ErrorSkipped,
}

/// What follows one render call: how it is classified, and that the
/// next redraw is always requested and the loop never terminated by a
/// frame error.
#[derive(Clone, Copy, Debug, PartialEq, Eq, Structural)]
pub struct RedrawFollowUp {
    pub disposition: RenderDisposition,
    pub request_redraw: bool,
    pub exit: bool,
}

/// The lifecycle driver: binds a platform event loop to exactly one
/// render surface owner, deferring construction until a window exists
/// and buffering at most one pending resize in the meantime (new
/// arrivals overwrite, never queue).
#[derive(Clone, Copy, Debug, PartialEq, Eq, Structural)]
pub struct Driver {
    pub phase: Phase,
    pub pending_resize: Option<WindowSize>,
}

impl Driver {
    /// A ready owner always has its dirty flag in step with its
    /// configuration.
    pub open spec fn wf(self) -> bool {
        match self.phase {
            Phase::Ready(st) => st.wf(),
            _ => true,
        }
    }

    /// The driver after a resize arrives while the owner is absent:
    /// a drawable size overwrites the single pending slot, a zero-area
    /// size is ignored.
    pub open spec fn spec_buffer_resize(self, s: WindowSize) -> Driver {
        if s.spec_is_positive() {
            Driver { pending_resize: Some(s), ..self }
        } else {
            self
        }
    }

    /// The driver and action once owner construction completes: the
    /// owner is stored whole, any pending resize is applied to it
    /// immediately (exactly once) and cleared, and a redraw is
    /// requested exactly when a pending resize was applied.
    pub open spec fn spec_complete_construction(self, st: SurfaceState) -> (Driver, LoopAction) {
        match self.pending_resize {
            Some(sz) => (
                Driver { phase: Phase::Ready(st.spec_set_window_size(sz)), pending_resize: None },
                LoopAction::RequestRedraw,
            ),
            None => (Driver { phase: Phase::Ready(st), pending_resize: None }, LoopAction::Idle),
        }
    }

    /// The transition relation of the driver: one event in, the next
    /// driver state and the action owed by the caller out.
    pub open spec fn spec_handle_event(self, event: LoopEvent) -> (Driver, LoopAction) {
        match event {
            LoopEvent::Resumed => match self.phase {
                // The platform may resume a window whose owner already
                // exists; a second construction is suppressed then.
                Phase::Ready(_) => (self, LoopAction::Idle),
                _ => (Driver { phase: Phase::Constructing, ..self }, LoopAction::BeginConstruction),
            },
            LoopEvent::ConstructionComplete(st) => self.spec_complete_construction(st),
            LoopEvent::Resized(s) => match self.phase {
                Phase::Ready(st) => if s.spec_is_positive() {
                    (
                        Driver { phase: Phase::Ready(st.spec_set_window_size(s)), ..self },
                        LoopAction::Idle,
                    )
                } else {
                    // The window was minimized; the owner keeps its size.
                    (self, LoopAction::Idle)
                },
                _ => (self.spec_buffer_resize(s), LoopAction::Idle),
            },
            LoopEvent::RedrawRequested => match self.phase {
                Phase::Ready(st) => {
                    let (st2, plan) = st.spec_begin_frame();
                    (Driver { phase: Phase::Ready(st2), ..self }, LoopAction::Render(plan))
                },
                _ => (self, LoopAction::Idle),
            },
            LoopEvent::CloseRequested => match self.phase {
                Phase::Ready(_) => (self, LoopAction::Exit),
                // While the owner is absent, every event but a resize
                // is dropped, a close request included.
                _ => (self, LoopAction::Idle),
            },
            LoopEvent::Other => (self, LoopAction::Idle),
        }
    }

    /// What follows one render call, for every possible outcome: a
    /// lost surface is recoverable, any other error only drops the
    /// frame, and in all cases the next redraw is requested and the
    /// loop continues.
    pub open spec fn spec_finish_redraw(result: Result<(), SurfaceError>) -> RedrawFollowUp {
        RedrawFollowUp {
            disposition: match result {
                Ok(_) => RenderDisposition::Completed,
                Err(SurfaceError::Lost) => RenderDisposition::SurfaceLost,
                Err(_) => RenderDisposition::ErrorSkipped,
            },
            request_redraw: true,
            exit: false,
        }
    }

    /// A fresh driver: no window, no owner, no pending resize.
    pub fn new() -> (d: Driver)
        ensures
            d.phase == Phase::Uninitialized,
            d.pending_resize is None,
            d.wf(),
    {
        Driver { phase: Phase::Uninitialized, pending_resize: None }
    }

    /// A freshly constructed owner arrives well-formed; every other
    /// event carries no owner at all.
    pub open spec fn event_wf(event: LoopEvent) -> bool {
        match event {
            LoopEvent::ConstructionComplete(st) => st.wf(),
            _ => true,
        }
    }

    /// Handle one event and say what the caller must now do.
    pub fn handle_event(&mut self, event: LoopEvent) -> (action: LoopAction)
        ensures
            (*final(self), action) == old(self).spec_handle_event(event),
            old(self).wf() && Self::event_wf(event) ==> final(self).wf(),
    {
        match event {
            LoopEvent::Resumed => match self.phase {
                Phase::Ready(_) => LoopAction::Idle,
                _ => {
                    self.phase = Phase::Constructing;
                    LoopAction::BeginConstruction
                },
            },
            LoopEvent::ConstructionComplete(st) => match self.pending_resize {
                Some(sz) => {
                    let mut owner = st;
                    owner.set_window_size(sz);
                    self.phase = Phase::Ready(owner);
                    self.pending_resize = None;
                    LoopAction::RequestRedraw
                },
                None => {
                    self.phase = Phase::Ready(st);
                    LoopAction::Idle
                },
            },
            LoopEvent::Resized(s) => match self.phase {
                Phase::Ready(mut st) => {
                    if s.is_positive() {
                        st.set_window_size(s);
                        self.phase = Phase::Ready(st);
                    }
                    LoopAction::Idle
                },
                _ => {
                    if s.is_positive() {
                        self.pending_resize = Some(s);
                    }
                    LoopAction::Idle
                },
            },
            LoopEvent::RedrawRequested => match self.phase {
                Phase::Ready(mut st) => {
                    let plan = st.begin_frame();
                    self.phase = Phase::Ready(st);
                    LoopAction::Render(plan)
                },
                _ => LoopAction::Idle,
            },
            LoopEvent::CloseRequested => match self.phase {
                Phase::Ready(_) => LoopAction::Exit,
                _ => LoopAction::Idle,
            },
            LoopEvent::Other => LoopAction::Idle,
        }
    }

    /// Close out one render call: classify the outcome and request the
    /// next redraw.  No outcome terminates the loop.
    pub fn finish_redraw(&self, result: Result<(), SurfaceError>) -> (follow: RedrawFollowUp)
        ensures
            follow == Self::spec_finish_redraw(result),
            follow.request_redraw,
            !follow.exit,
    {
        let disposition = match result {
            Ok(_) => RenderDisposition::Completed,
            Err(SurfaceError::Lost) => RenderDisposition::SurfaceLost,
            Err(_) => RenderDisposition::ErrorSkipped,
        };
        RedrawFollowUp { disposition, request_redraw: true, exit: false }
    }
}

/// The driver after handling each event of a sequence in order.
pub open spec fn spec_apply_events(d: Driver, events: Seq<LoopEvent>) -> Driver
    decreases events.len(),
{
    if events.len() == 0 {
        d
    } else {
        spec_apply_events(d, events.drop_last()).spec_handle_event(events.last()).0
    }
}

/// True when every event of the sequence is a resize.
pub open spec fn all_resized(events: Seq<LoopEvent>) -> bool {
    forall|i: int| 0 <= i < events.len() ==> events[i] is Resized
}

/// The single size a pending-resize slot holds after a sequence of
/// resize events: the most recent drawable one, or the slot's prior
/// content when none arrived (zero-area sizes are ignored).
pub open spec fn spec_coalesced_resize(init: Option<WindowSize>, events: Seq<LoopEvent>) -> Option<
    WindowSize,
>
    decreases events.len(),
{
    if events.len() == 0 {
        init
    } else {
        let rest = spec_coalesced_resize(init, events.drop_last());
        match events.last() {
            LoopEvent::Resized(s) => if s.spec_is_positive() {
                Some(s)
            } else {
                rest
            },
            _ => rest,
        }
    }
}

/// While the owner is absent, resize events only overwrite the single
/// pending slot: after any sequence of them the driver's phase is
/// unchanged and the slot holds exactly the coalesced size.
pub proof fn lemma_pending_resize_coalesces(d: Driver, events: Seq<LoopEvent>)
    requires
        !(d.phase is Ready),
        all_resized(events),
    ensures
        ({
            let d2 = spec_apply_events(d, events);
            &&& d2.phase == d.phase
            &&& d2.pending_resize == spec_coalesced_resize(d.pending_resize, events)
        }),
    decreases events.len(),
{
    if events.len() > 0 {
        assert(all_resized(events.drop_last()));
        lemma_pending_resize_coalesces(d, events.drop_last());
    }
}

/// For every sequence of resize events delivered before owner
/// construction completes, only the most recent drawable size is
/// applied — exactly once, by a single size update on the finished
/// owner — when construction completes; the intermediate sizes are
/// never replayed.  The pending slot is cleared, and a redraw is
/// requested exactly when a buffered size was applied.
pub proof fn lemma_construction_applies_last_resize_once(
    d: Driver,
    events: Seq<LoopEvent>,
    st: SurfaceState,
)
    requires
        !(d.phase is Ready),
        all_resized(events),
    ensures
        ({
            let d2 = spec_apply_events(d, events);
            let (d3, action) = d2.spec_handle_event(LoopEvent::ConstructionComplete(st));
            let pending = spec_coalesced_resize(d.pending_resize, events);
            &&& d3.pending_resize is None
            &&& match pending {
                Some(sz) => d3.phase == Phase::Ready(st.spec_set_window_size(sz)) && action
                    == LoopAction::RequestRedraw,
                None => d3.phase == Phase::Ready(st) && action == LoopAction::Idle,
            }
        }),
{
    lemma_pending_resize_coalesces(d, events);
}

/// However many resize events arrive while the owner is live, none of
/// them reconfigures anything: the owner's configuration is untouched
/// and only its recorded size moves, to the most recently delivered
/// drawable size.  The one reconfiguration owed is applied by the next
/// render call, whose plan carries at most one size by construction.
pub proof fn lemma_ready_resizes_coalesce(
    st: SurfaceState,
    pending: Option<WindowSize>,
    events: Seq<LoopEvent>,
)
    requires
        all_resized(events),
    ensures
        ({
            let d2 = spec_apply_events(Driver { phase: Phase::Ready(st), pending_resize: pending }, events);
            &&& d2.pending_resize == pending
            &&& match d2.phase {
                Phase::Ready(st2) => {
                    &&& Some(st2.size) == spec_coalesced_resize(Some(st.size), events)
                    &&& st2.config == st.config
                    &&& (st.wf() ==> st2.wf())
                },
                _ => false,
            }
        }),
    decreases events.len(),
{
    if events.len() > 0 {
        assert(all_resized(events.drop_last()));
        lemma_ready_resizes_coalesce(st, pending, events.drop_last());
    }
}

/// A surface-lost failure from frame acquisition never terminates the
/// loop — it is classified as recoverable — and the next redraw is
/// still requested; the same holds of every other render outcome.
pub proof fn lemma_surface_lost_is_recoverable(result: Result<(), SurfaceError>)
    ensures
        Driver::spec_finish_redraw(result).request_redraw,
        !Driver::spec_finish_redraw(result).exit,
        Driver::spec_finish_redraw(Err(SurfaceError::Lost)).disposition
            == RenderDisposition::SurfaceLost,
{
}

/// The default inner size requested for a newly created window: a
/// square, 600 pixels scaled by the monitor's whole-number scale
/// factor.
pub fn default_inner_size(scale_factor: u32) -> (s: WindowSize)
    requires
        600 * scale_factor <= u32::MAX,
    ensures
        s.width == 600 * scale_factor,
        s.height == s.width,
{
    let side: u32 = 600 * scale_factor;
    WindowSize { width: side, height: side }
}

} // verus!
