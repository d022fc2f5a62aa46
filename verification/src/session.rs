use vstd::prelude::*;
use vstd::string::StringExecFns;
use crate::Rect;
use crate::clamp_dimension;
use crate::buffer::FrameBuffer;
use crate::keyboard::KeyboardState;
use crate::pool::BufferPool;

verus! {

/// The four server capabilities a session must bind; the protocol is
/// unusable without any one of them.
#[derive(Clone, Copy, PartialEq, Eq, Structural, Debug)]
pub enum GlobalKind {
    Compositor,
    Shm,
    Seat,
    WmBase,
}

/// Which required capabilities the registry has advertised and the session
/// has bound so far.
#[derive(Clone, Copy, PartialEq, Eq, Structural, Debug)]
pub struct BoundGlobals {
    pub compositor: bool,
    pub shm: bool,
    pub seat: bool,
    pub wm_base: bool,
}

/// What the next frame needs: draw into an existing pool buffer, allocate
/// one of the given dimension first, or present nothing because no
/// dimension is known yet.
#[derive(Clone, Copy, PartialEq, Eq, Structural, Debug)]
pub enum RenderStep {
    Draw { index: usize },
    Allocate { dimension: Rect },
    Skip,
}

/// A liveness probe must be answered immediately, inside the same dispatch
/// that delivered it, with the serial it carried; an unanswered ping
/// disconnects the client.
pub fn pong_serial(serial: u32) -> (r: u32)
    ensures
        r == serial,
{
    serial
}

/// The aggregate the dispatch loop owns for the process lifetime: bound
/// capabilities, the surface's last configured dimension, the buffer pool,
/// the keyboard engine, and the termination flag.
pub struct AppState {
    pub globals: BoundGlobals,
    pub dimension: Option<Rect>,
    pub pool: BufferPool,
    pub keyboard: KeyboardState,
    pub quit: bool,
}

impl AppState {
    /// Every pool buffer is well formed and carries the currently
    /// configured dimension; the keyboard record is well formed.
    pub open spec fn wf(&self) -> bool {
        &&& self.pool.wf()
        &&& self.keyboard.wf()
        &&& self.pool@.len() > 0 ==> self.dimension is Some
        &&& forall|i: int|
            0 <= i < self.pool@.len() ==> self.pool@[i].dimension == self.dimension->0
    }

    pub fn new() -> (r: AppState)
        ensures
            r.wf(),
            r.globals == (BoundGlobals { compositor: false, shm: false, seat: false, wm_base: false }),
            r.dimension is None,
            r.pool@ == Seq::<FrameBuffer>::empty(),
            r.keyboard.held_key is None,
            r.keyboard.repeat_info is None,
            !r.quit,
    {
        AppState {
            globals: BoundGlobals { compositor: false, shm: false, seat: false, wm_base: false },
            dimension: None,
            pool: BufferPool::new(),
            keyboard: KeyboardState::new(),
            quit: false,
        }
    }

    /// One registry advertisement: a required interface is recorded as
    /// bound and named to the caller, which performs the actual bind; any
    /// other interface is ignored.
    pub fn on_global(&mut self, interface: &String) -> (r: Option<GlobalKind>)
        requires
            old(self).wf(),
        ensures
            final(self).wf(),
            r == (if interface@ == "wl_compositor"@ {
                Some(GlobalKind::Compositor)
            } else if interface@ == "wl_shm"@ {
                Some(GlobalKind::Shm)
            } else if interface@ == "wl_seat"@ {
                Some(GlobalKind::Seat)
            } else if interface@ == "xdg_wm_base"@ {
                Some(GlobalKind::WmBase)
            } else {
                None::<GlobalKind>
            }),
            final(self).globals == (BoundGlobals {
                compositor: old(self).globals.compositor || interface@ == "wl_compositor"@,
                shm: old(self).globals.shm || interface@ == "wl_shm"@,
                seat: old(self).globals.seat || interface@ == "wl_seat"@,
                wm_base: old(self).globals.wm_base || interface@ == "xdg_wm_base"@,
            }),
            final(self).dimension == old(self).dimension,
            final(self).pool@ == old(self).pool@,
            final(self).keyboard == old(self).keyboard,
            final(self).quit == old(self).quit,
    {
        proof {
            reveal_strlit("wl_compositor");
            reveal_strlit("wl_shm");
            reveal_strlit("wl_seat");
            reveal_strlit("xdg_wm_base");
            assert("wl_compositor"@.len() == 13);
            assert("wl_shm"@.len() == 6);
            assert("wl_seat"@.len() == 7);
            assert("xdg_wm_base"@.len() == 11);
        }
        let compositor_name = String::from_str("wl_compositor");
        let shm_iface = String::from_str("wl_shm");
        let seat_name = String::from_str("wl_seat");
        let wm_base_name = String::from_str("xdg_wm_base");
        if *interface == compositor_name {
            self.globals.compositor = true;
            Some(GlobalKind::Compositor)
        } else if *interface == shm_iface {
            self.globals.shm = true;
            Some(GlobalKind::Shm)
        } else if *interface == seat_name {
            self.globals.seat = true;
            Some(GlobalKind::Seat)
        } else if *interface == wm_base_name {
            self.globals.wm_base = true;
            Some(GlobalKind::WmBase)
        } else {
            None
        }
    }

    /// Whether every required capability was advertised during discovery;
    /// bootstrap fails fatally otherwise.
    pub fn bootstrap_ok(&self) -> (r: bool)
        ensures
            r == (self.globals.compositor && self.globals.shm && self.globals.seat
                && self.globals.wm_base),
    {
        self.globals.compositor && self.globals.shm && self.globals.seat && self.globals.wm_base
    }

    /// Decide how the next frame is produced. With a full pool the buffer
    /// not currently presented becomes the draw target and moves into the
    /// presented position; with room left and a known dimension a new
    /// buffer must be allocated; with no dimension the frame presents
    /// nothing.
    pub fn next_render_step(&mut self) -> (r: RenderStep)
        requires
            old(self).wf(),
        ensures
            final(self).wf(),
            old(self).pool@.len() == 2 ==> r == (RenderStep::Draw { index: 1usize })
                && final(self).pool@ =~= seq![old(self).pool@[1], old(self).pool@[0]],
            old(self).pool@.len() < 2 && old(self).dimension is Some ==> r
                == (RenderStep::Allocate { dimension: old(self).dimension->0 })
                && final(self).pool@ == old(self).pool@,
            old(self).pool@.len() < 2 && old(self).dimension is None ==> r == RenderStep::Skip
                && final(self).pool@ == old(self).pool@,
            final(self).dimension == old(self).dimension,
            final(self).globals == old(self).globals,
            final(self).keyboard == old(self).keyboard,
            final(self).quit == old(self).quit,
    {
        match self.pool.rotate_for_draw() {
            Some(i) => RenderStep::Draw { index: i },
            None => match &self.dimension {
                Some(d) => RenderStep::Allocate { dimension: *d },
                None => RenderStep::Skip,
            },
        }
    }

    /// A surface configure: the compositor is owed an acknowledgement
    /// carrying the event's own serial before anything is presented, and
    /// the frame that follows is produced as `next_render_step` decides.
    pub fn on_surface_configure(&mut self, serial: u32) -> (r: (u32, RenderStep))
        requires
            old(self).wf(),
        ensures
            final(self).wf(),
            r.0 == serial,
            old(self).pool@.len() == 2 ==> r.1 == (RenderStep::Draw { index: 1usize })
                && final(self).pool@ =~= seq![old(self).pool@[1], old(self).pool@[0]],
            old(self).pool@.len() < 2 && old(self).dimension is Some ==> r.1
                == (RenderStep::Allocate { dimension: old(self).dimension->0 })
                && final(self).pool@ == old(self).pool@,
            old(self).pool@.len() < 2 && old(self).dimension is None ==> r.1 == RenderStep::Skip
                && final(self).pool@ == old(self).pool@,
            final(self).dimension == old(self).dimension,
            final(self).globals == old(self).globals,
            final(self).keyboard == old(self).keyboard,
            final(self).quit == old(self).quit,
    {
        let step = self.next_render_step();
        (serial, step)
    }

    /// Record a freshly allocated buffer; it is drawn and presented by the
    /// caller and becomes the pool's presented buffer.
    pub fn finish_allocate(&mut self, fb: FrameBuffer)
        requires
            old(self).wf(),
            fb.wf(),
            old(self).pool@.len() < 2,
            old(self).dimension == Some(fb.dimension),
        ensures
            final(self).wf(),
            final(self).pool@ =~= old(self).pool@.push(fb),
            final(self).pool.presented() == Some(fb),
            final(self).dimension == old(self).dimension,
            final(self).globals == old(self).globals,
            final(self).keyboard == old(self).keyboard,
            final(self).quit == old(self).quit,
    {
        self.pool.push(fb);
    }

    /// A toplevel configure: zero components are clamped to 1; if the
    /// delivered dimension differs from the last known one, every pool
    /// buffer is handed back for release and the pool is emptied until the
    /// next successful allocation.
    pub fn on_toplevel_configure(&mut self, width: i32, height: i32) -> (released: Vec<
        FrameBuffer,
    >)
        requires
            old(self).wf(),
        ensures
            final(self).wf(),
            final(self).dimension == Some(clamped_rect(width, height)),
            old(self).dimension == Some(clamped_rect(width, height)) ==> released@
                == Seq::<FrameBuffer>::empty() && final(self).pool@ == old(self).pool@,
            old(self).dimension != Some(clamped_rect(width, height)) ==> released@ == old(
                self,
            ).pool@ && final(self).pool@ == Seq::<FrameBuffer>::empty(),
            final(self).globals == old(self).globals,
            final(self).keyboard == old(self).keyboard,
            final(self).quit == old(self).quit,
    {
        let dim = clamp_dimension(width, height);
        let same = match &self.dimension {
            Some(d) => d.width == dim.width && d.height == dim.height,
            None => false,
        };
        if same {
            Vec::new()
        } else {
            self.dimension = Some(dim);
            self.pool.take_all()
        }
    }

    /// A close signal: the termination flag is set; the loop observes it
    /// after the dispatch that delivered it.
    pub fn on_close(&mut self)
        requires
            old(self).wf(),
        ensures
            final(self).wf(),
            final(self).quit,
            final(self).dimension == old(self).dimension,
            final(self).pool@ == old(self).pool@,
            final(self).globals == old(self).globals,
            final(self).keyboard == old(self).keyboard,
    {
        self.quit = true;
    }

    /// The authentication outcome: success sets the termination flag;
    /// failure leaves the session running and the flag as it was.
    pub fn on_auth_result(&mut self, ok: bool)
        requires
            old(self).wf(),
        ensures
            final(self).wf(),
            final(self).quit == (old(self).quit || ok),
            final(self).dimension == old(self).dimension,
            final(self).pool@ == old(self).pool@,
            final(self).globals == old(self).globals,
            final(self).keyboard == old(self).keyboard,
    {
        if ok {
            self.quit = true;
        }
    }
}

/// The dimension a configure event takes effect as: zero components mean
/// "client's choice" and are clamped to 1.
pub open spec fn clamped_rect(width: i32, height: i32) -> Rect {
    Rect {
        width: if width == 0 { 1i32 } else { width },
        height: if height == 0 { 1i32 } else { height },
    }
}

} // verus!
