use vstd::prelude::*;
use crate::control::{normalize, normalized, Control, WebControl};
use crate::geometry::{DrawCommand, Viewport};
use crate::raster::{
    first_failure, list_ok, list_trace, rasterize, BitmapRegistry, CanvasOp, RenderError,
};
use crate::transform::{
    spec_unit_transform, spec_viewport_transform, unit_transform, viewport_transform,
};

verus! {

/// What the core knows of the attached raster surface: its pixel dimensions
/// and the registered bitmap names.  The embedding shell owns the pixel
/// buffer and the decoded images, keyed by the same names.
pub struct Surface {
    pub width: u32,
    pub height: u32,
    pub bitmaps: BitmapRegistry,
}

/// A frame descriptor as the simulation supplies it each frame: the viewport
/// of the world pass, the world draw list, and the UI draw list.
pub struct RenderFrame {
    pub viewport: Viewport,
    pub world: Vec<DrawCommand>,
    pub ui: Vec<DrawCommand>,
}

impl RenderFrame {
    /// A frame the renderer accepts: a valid viewport (nonzero height) and
    /// host-bounded rectangle coordinates.
    pub open spec fn valid(self) -> bool {
        &&& self.viewport.valid()
        &&& forall|i: int| 0 <= i < self.world@.len() ==> (#[trigger] self.world@[i]).bounded()
        &&& forall|i: int| 0 <= i < self.ui@.len() ==> (#[trigger] self.ui@[i]).bounded()
    }
}

/// Whether every command of both passes can be replayed against a surface.
pub open spec fn frame_ok(s: Surface, f: RenderFrame) -> bool {
    list_ok(f.world@, s.bitmaps) && list_ok(f.ui@, s.bitmaps)
}

/// The full operation sequence of one frame: exactly two passes, the world
/// pass under the viewport transform and then the UI pass under the unit
/// transform, each pass replaying its draw list in order.
pub open spec fn frame_trace(s: Surface, f: RenderFrame) -> Seq<CanvasOp> {
    seq![CanvasOp::SetTransform(spec_viewport_transform(s.width, s.height, f.viewport))]
        + list_trace(f.world@)
        + seq![CanvasOp::SetTransform(spec_unit_transform(s.width, s.height))]
        + list_trace(f.ui@)
}

/// The error of a frame whose replay failed: the world pass's first missing
/// bitmap or, with the world pass clean, the UI pass's.
pub open spec fn frame_err(s: Surface, f: RenderFrame, e: RenderError) -> bool {
    if !list_ok(f.world@, s.bitmaps) {
        first_failure(f.world@, s.bitmaps, e)
    } else {
        first_failure(f.ui@, s.bitmaps, e)
    }
}

/// The adapter between the host and the simulation: an optional surface
/// binding for rendering and an optional input binding for control reads.
/// Both are late-bound; until [`WebContext::mount`] runs, render and control
/// report absence rather than failing.
pub struct WebContext {
    pub canvas: Option<Surface>,
    pub control: bool,
}

impl WebContext {
    /// A fresh adapter with nothing bound yet.
    pub fn new() -> (r: WebContext)
        ensures
            r.canvas is None,
            !r.control,
    {
        WebContext { canvas: None, control: false }
    }

    /// Binds the surface and the input source.  The resulting state depends
    /// only on the surface bound, so re-binding with the same surface is
    /// idempotent.
    pub fn mount(&mut self, surface: Surface)
        ensures
            *final(self) == (WebContext { canvas: Some(surface), control: true }),
    {
        self.canvas = Some(surface);
        self.control = true;
    }

    /// Renders one frame as the ordered operation sequence the embedding
    /// shell must replay: the world pass under the viewport transform, then
    /// the UI pass under the unit transform.  Reports `None` when no surface
    /// is bound — late binding is a normal state, not an error.  A missing
    /// bitmap is fatal to the frame: the first unresolvable command is
    /// reported and nothing after it is replayed.
    pub fn render(&self, frame: &RenderFrame) -> (r: Option<
        Result<Vec<CanvasOp>, RenderError>,
    >)
        requires
            frame.valid(),
        ensures
            r is None <==> self.canvas is None,
            self.canvas is Some ==> {
                let s = self.canvas->0;
                &&& r is Some
                &&& frame_ok(s, *frame) ==> r->0 is Ok && (r->0)->Ok_0@ == frame_trace(
                    s,
                    *frame,
                )
                &&& !frame_ok(s, *frame) ==> r->0 is Err && frame_err(s, *frame, (r->0)->Err_0)
            },
    {
        let surface = match &self.canvas {
            None => {
                return None;
            },
            Some(s) => s,
        };
        let t_world = viewport_transform(surface.width, surface.height, &frame.viewport);
        let mut ops: Vec<CanvasOp> = Vec::new();
        ops.push(CanvasOp::SetTransform(t_world));
        let mut world_ops = match rasterize(&frame.world, &surface.bitmaps) {
            Ok(o) => o,
            Err(e) => {
                return Some(Err(e));
            },
        };
        ops.append(&mut world_ops);
        let t_ui = unit_transform(surface.width, surface.height);
        ops.push(CanvasOp::SetTransform(t_ui));
        let mut ui_ops = match rasterize(&frame.ui, &surface.bitmaps) {
            Ok(o) => o,
            Err(e) => {
                return Some(Err(e));
            },
        };
        ops.append(&mut ui_ops);
        proof {
            assert(ops@ =~= frame_trace(*surface, *frame));
        }
        Some(Ok(ops))
    }

    /// Reads the control state from a raw input snapshot: `None` when no
    /// input source is bound — callers can tell "nothing attached" from
    /// "attached but nothing pressed" — and otherwise the snapshot
    /// normalized, verbatim.
    pub fn control(&self, raw: &WebControl) -> (r: Option<Control>)
        ensures
            r is None <==> !self.control,
            self.control ==> r is Some && normalized(*raw, r->0),
    {
        if !self.control {
            None
        } else {
            Some(normalize(raw))
        }
    }
}

/// Binding is idempotent: two adapters that each just bound the same surface
/// and input source are in the same state, and [`WebContext::render`] and
/// [`WebContext::control`] read nothing but that state, so all subsequent
/// render and control behavior is unchanged by a repeated mount.
pub proof fn lemma_mount_idempotent(surface: Surface, once: WebContext, twice: WebContext)
    requires
        once == (WebContext { canvas: Some(surface), control: true }),
        twice == (WebContext { canvas: Some(surface), control: true }),
    ensures
        once == twice,
{
}

} // verus!
