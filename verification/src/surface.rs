use crate::size::WindowSize;
use vstd::prelude::*;

verus! {

/// How acquired frames are queued for presentation.  Only the
/// vertical-sync mode is ever chosen here, but the other modes a
/// platform can report are listed so a configuration can carry them.
#[derive(Clone, Copy, Debug, PartialEq, Eq, Structural)]
pub enum PresentMode {
    Fifo,
    FifoRelaxed,
    Immediate,
    Mailbox,
}

/// The surface configuration currently in effect: the dimensions the
/// surface was last configured with, and the fixed choices made at
/// construction.  Formats and alpha modes are carried as the opaque
/// identifiers under which the platform reported them.
#[derive(Clone, Copy, Debug, PartialEq, Eq, Structural)]
pub struct SurfaceConfig {
    pub width: u32,
    pub height: u32,
    pub format: u32,
    pub alpha_mode: u32,
    pub present_mode: PresentMode,
    pub desired_maximum_frame_latency: u32,
}

/// What the platform reports a surface supports: the texture formats
/// and alpha modes, each as a list of opaque identifiers, in the order
/// reported.
pub struct SurfaceCaps {
    pub formats: Vec<u32>,
    pub alpha_modes: Vec<u32>,
}

/// A frame error reported when acquiring a presentable frame from the
/// surface.
#[derive(Clone, Copy, Debug, PartialEq, Eq, Structural)]
pub enum SurfaceError {
    /// The surface was lost and needs to be reconfigured.
    Lost,
    /// The surface no longer matches the window and needs to be
    /// reconfigured.
    Outdated,
    /// Acquisition took too long; the frame is simply late.
    Timeout,
    /// The device ran out of memory.
    OutOfMemory,
    /// Any other acquisition failure.
    Other,
}

/// What one render call must do, decided before any platform work:
/// either nothing at all, or one frame, preceded by at most one surface
/// reconfiguration.
#[derive(Clone, Copy, Debug, PartialEq, Eq, Structural)]
pub enum FramePlan {
    /// The surface has zero area: no reconfiguration, no frame
    /// acquisition; the render call reports success.
    Skip,
    /// Draw one frame.  When `reconfigure` carries a size, the surface
    /// must first be reconfigured to exactly that size, once.
    Draw { reconfigure: Option<WindowSize> },
}

/// The size state of the render surface owner: the most recently set
/// window size, the dirty flag marking that the surface configuration
/// no longer matches it, and the configuration in effect.
#[derive(Clone, Copy, Debug, PartialEq, Eq, Structural)]
pub struct SurfaceState {
    pub size: WindowSize,
    pub size_changed: bool,
    pub config: SurfaceConfig,
}

impl SurfaceState {
    /// While the dirty flag is clear, the configuration's dimensions
    /// agree with the stored size.
    pub open spec fn wf(self) -> bool {
        !self.size_changed ==> self.config.width == self.size.width
            && self.config.height == self.size.height
    }

    /// The state after recording a new window size: a no-op when the
    /// size is already in effect, otherwise the size is stored and the
    /// dirty flag set.
    pub open spec fn spec_set_window_size(self, new_size: WindowSize) -> SurfaceState {
        if new_size == self.size {
            self
        } else {
            SurfaceState { size: new_size, size_changed: true, ..self }
        }
    }

    /// The state after applying a pending resize: when dirty, the
    /// configuration takes the stored size and the flag clears;
    /// otherwise nothing changes.
    pub open spec fn spec_resize(self) -> SurfaceState {
        if self.size_changed {
            SurfaceState {
                size_changed: false,
                config: SurfaceConfig {
                    width: self.size.width,
                    height: self.size.height,
                    ..self.config
                },
                ..self
            }
        } else {
            self
        }
    }

    /// The state and plan produced by one render call: on a zero-area
    /// surface nothing happens and the frame is skipped; otherwise the
    /// pending resize (if any) is applied and one frame is drawn.
    pub open spec fn spec_begin_frame(self) -> (SurfaceState, FramePlan) {
        if !self.size.spec_is_positive() {
            (self, FramePlan::Skip)
        } else if self.size_changed {
            (self.spec_resize(), FramePlan::Draw { reconfigure: Some(self.size) })
        } else {
            (self, FramePlan::Draw { reconfigure: None })
        }
    }

    /// The configuration chosen at construction for a surface of the
    /// given (already clamped) size: the first reported format and
    /// alpha mode, vertical sync, and a two-frame latency bound.
    pub open spec fn spec_initial_config(size: WindowSize, caps: SurfaceCaps) -> SurfaceConfig {
        SurfaceConfig {
            width: size.width,
            height: size.height,
            format: caps.formats@[0],
            alpha_mode: caps.alpha_modes@[0],
            present_mode: PresentMode::Fifo,
            desired_maximum_frame_latency: 2,
        }
    }

    /// Construct the owner's size state from the window's reported
    /// inner size and the surface's reported capabilities.  Each zero
    /// dimension is raised to one pixel; the configuration picks the
    /// first reported format and alpha mode, vertical sync, and a
    /// two-frame latency bound.  The platform is relied on to report at
    /// least one format and one alpha mode for a compatible surface.
    pub fn new(window_size: WindowSize, caps: &SurfaceCaps) -> (s: SurfaceState)
        requires
            caps.formats@.len() > 0,
            caps.alpha_modes@.len() > 0,
        ensures
            s.size == window_size.spec_clamped(),
            !s.size_changed,
            s.config == Self::spec_initial_config(window_size.spec_clamped(), *caps),
            s.wf(),
            s.size.spec_is_positive(),
    {
        let size = window_size.clamped();
        SurfaceState {
            size,
            size_changed: false,
            config: SurfaceConfig {
                width: size.width,
                height: size.height,
                format: caps.formats[0],
                alpha_mode: caps.alpha_modes[0],
                present_mode: PresentMode::Fifo,
                desired_maximum_frame_latency: 2,
            },
        }
    }

    /// Record a new window size.  Idempotent: given the size already
    /// stored, the state (dirty flag included) is left untouched.
    pub fn set_window_size(&mut self, new_size: WindowSize)
        ensures
            *final(self) == old(self).spec_set_window_size(new_size),
            old(self).wf() ==> final(self).wf(),
    {
        if new_size != self.size {
            self.size = new_size;
            self.size_changed = true;
        }
    }

    /// The size currently configured on the surface.
    pub fn get_size(&self) -> (s: WindowSize)
        ensures
            s == (WindowSize { width: self.config.width, height: self.config.height }),
    {
        WindowSize { width: self.config.width, height: self.config.height }
    }

    /// Apply a pending resize to the configuration.  Returns the size
    /// the platform surface must now be reconfigured to, or `None` when
    /// the configuration was already current.
    pub fn resize(&mut self) -> (reconfigure: Option<WindowSize>)
        ensures
            *final(self) == old(self).spec_resize(),
            reconfigure == (if old(self).size_changed {
                Some(old(self).size)
            } else {
                None::<WindowSize>
            }),
            old(self).wf() ==> final(self).wf(),
    {
        if self.size_changed {
            self.size_changed = false;
            self.config.width = self.size.width;
            self.config.height = self.size.height;
            Some(self.size)
        } else {
            None
        }
    }

    /// Decide one render call.  On a zero-area surface the state is
    /// untouched (the dirty flag keeps any pending resize) and the
    /// frame is skipped; otherwise at most one reconfiguration is
    /// applied and one frame is drawn.
    pub fn begin_frame(&mut self) -> (plan: FramePlan)
        ensures
            (*final(self), plan) == old(self).spec_begin_frame(),
            old(self).wf() ==> final(self).wf(),
    {
        if !self.size.is_positive() {
            return FramePlan::Skip;
        }
        let reconfigure = self.resize();
        FramePlan::Draw { reconfigure }
    }
}

/// Recording a window size is idempotent: a second call with the same
/// size changes nothing, and a call with the size already stored is a
/// complete no-op — in particular it does not set the dirty flag.
pub proof fn lemma_set_window_size_idempotent(st: SurfaceState, s: WindowSize)
    ensures
        st.spec_set_window_size(s).spec_set_window_size(s) == st.spec_set_window_size(s),
        st.size == s ==> st.spec_set_window_size(s) == st,
{
}

/// A render call on a surface with a zero dimension does nothing at
/// all: no reconfiguration, no frame acquisition, and the state — the
/// dirty flag included — is untouched; the call reports success by
/// skipping the frame.
pub proof fn lemma_zero_area_render_skips(st: SurfaceState)
    requires
        st.size.width == 0 || st.size.height == 0,
    ensures
        st.spec_begin_frame() == (st, FramePlan::Skip),
{
}

/// After a resize followed by a render on a drawable size, the
/// configuration's dimensions equal the most recently set size, and
/// the render applied at most one reconfiguration: exactly one when
/// the recorded size differed from the configuration, none when it was
/// already in effect.
pub proof fn lemma_resize_then_render(st: SurfaceState, s: WindowSize)
    requires
        st.wf(),
        s.spec_is_positive(),
    ensures
        ({
            let st1 = st.spec_set_window_size(s);
            let (st2, plan) = st1.spec_begin_frame();
            &&& st2.config.width == s.width
            &&& st2.config.height == s.height
            &&& st2.size == s
            &&& !st2.size_changed
            &&& st2.wf()
            &&& plan == (FramePlan::Draw {
                reconfigure: if st1.size_changed {
                    Some(s)
                } else {
                    None
                },
            })
        }),
{
}

} // verus!
