//! The root container: event routing, layout and paint ordering for a
//! floating palette overlay over an editor split tree.
//!
//! The container owns the identities of exactly two children — the overlay
//! and the main tree — plus the overlay's fixed maximum size and the
//! overlay rectangle cached from the most recent layout pass. Every
//! decision the container makes (where an event goes, where the overlay
//! sits, in what order painting happens) is computed here over plain
//! values; the host toolkit performs the deliveries and the drawing.

use vstd::prelude::*;

use crate::events::{Command, InputEvent, KeyInput, PointerInput, UiCommand};
use crate::geometry::{Color, Point, Rect, Size, MAX_COORD};

verus! {

/// One of the container's two children.
#[derive(Clone, Copy, Debug, PartialEq, Eq, Structural)]
pub enum ChildRef {
    Overlay,
    MainTree,
}

/// Where one event is delivered. Exactly one target per event: delivery is
/// mutually exclusive except for the internal class, which reaches both
/// children.
#[derive(Clone, Copy, Debug, PartialEq, Eq, Structural)]
pub enum RouteTarget {
    /// Internal signal: forwarded to both children, overlay first.
    BothChildren,
    /// Raw key press: handed to the global keyboard handler, bypassing both
    /// children.
    KeyboardHandler,
    /// Buffer-update UI command: handed to the editor-split state.
    EditorBufferUpdate,
    /// Any other UI command, or a command under a foreign selector:
    /// consumed without effect.
    ConsumedNoOp,
    /// Domain command: forwarded to the overlay whether or not it is
    /// visible.
    OverlayCommand,
    /// Pointer event over a visible overlay: delivered to the overlay
    /// alone.
    OverlayPointer,
    /// Pointer event anywhere else: delivered to the main tree alone.
    MainTreePointer,
    /// An event matching no class: silently dropped.
    Dropped,
}

/// The container's answer for one incoming event.
#[derive(Clone, Copy, Debug, PartialEq, Eq, Structural)]
pub struct RouteDecision {
    /// The container requests input focus for itself on every event,
    /// unconditionally, before any routing.
    pub request_focus: bool,
    pub target: RouteTarget,
}

/// What one layout pass decided.
#[derive(Clone, Copy, Debug, PartialEq, Eq, Structural)]
pub struct LayoutOutcome {
    /// Where the overlay now sits: newly computed origin, subsystem-reported
    /// size.
    pub overlay_rect: Rect,
    /// The main tree's rectangle: the whole available area from the origin,
    /// independent of the overlay's placement.
    pub main_tree_rect: Rect,
    /// The container consumes the full available size.
    pub consumed: Size,
}

/// One step of a paint pass.
#[derive(Clone, Copy, Debug, PartialEq, Eq, Structural)]
pub enum PaintOp {
    /// Fill one dirty region with the theme's background color.
    FillBackground { area: Rect, color: Color },
    /// Paint the editor split tree.
    PaintMainTree,
    /// Paint the overlay, above everything painted before it.
    PaintOverlay,
}

/// Registrations the container makes into shared application state at
/// construction time, so other components can address its children by
/// stable identifier without holding a reference.
pub struct WidgetRegistry {
    pub palette_id: Option<u64>,
    pub editor_split_id: Option<u64>,
    pub active_view_id: Option<u64>,
}

/// The root composition node.
pub struct LapceContainer {
    /// Fixed upper bound on the overlay's size; immutable after
    /// construction.
    pub palette_max_size: Size,
    /// The overlay's rectangle from the most recent layout pass, used for
    /// hit-testing.
    pub palette_rect: Rect,
    /// Stable identifier of the overlay subtree.
    pub palette_widget_id: u64,
    /// Stable identifier of the editor-split subtree.
    pub editor_split_widget_id: u64,
}

/// State of one child as shared application state tracks it.
pub struct ChildState {
    pub origin: Option<Point>,
    pub size: Option<Size>,
    pub hidden: bool,
}

/// The routing decision table, in precedence order: internal signals reach
/// both children; key presses reach the global keyboard handler; commands
/// are told apart by selector and consumed; pointer events are hit-tested
/// against the cached overlay rectangle when the overlay is visible; all
/// else is dropped.
pub open spec fn route_target_spec(
    overlay_hidden: bool,
    overlay_rect: Rect,
    event: InputEvent,
) -> RouteTarget {
    match event {
        InputEvent::Internal => RouteTarget::BothChildren,
        InputEvent::KeyDown(_) => RouteTarget::KeyboardHandler,
        InputEvent::Command(cmd) => match cmd {
            Command::Ui(ui) => match ui {
                UiCommand::BufferUpdate { .. } => RouteTarget::EditorBufferUpdate,
                UiCommand::Unhandled => RouteTarget::ConsumedNoOp,
            },
            Command::Domain(_) => RouteTarget::OverlayCommand,
            Command::Foreign => RouteTarget::ConsumedNoOp,
        },
        InputEvent::Pointer(p) => {
            if !overlay_hidden && overlay_rect.spec_contains(p.pos) {
                RouteTarget::OverlayPointer
            } else {
                RouteTarget::MainTreePointer
            }
        },
        InputEvent::Unmatched => RouteTarget::Dropped,
    }
}

/// Horizontal centering: half the leftover width, negative when the window
/// is narrower than the overlay bound (no horizontal clamp), halving toward
/// zero either way.
pub open spec fn centered_offset(available: int, extent: int) -> int {
    if available >= extent {
        (available - extent) / 2
    } else {
        -((extent - available) / 2)
    }
}

/// Vertical placement: one quarter of the leftover height, clamped to a
/// minimum of zero when the window is shorter than the overlay bound.
pub open spec fn quarter_offset_clamped(available: int, extent: int) -> int {
    if available >= extent {
        (available - extent) / 4
    } else {
        0
    }
}

/// The overlay rectangle one layout pass computes: origin from the bound
/// and the available size, extent as the overlay reported it.
pub open spec fn spec_overlay_rect(max: Size, available: Size, reported: Size) -> Rect {
    Rect {
        origin: Point {
            x: centered_offset(available.width as int, max.width as int) as i64,
            y: quarter_offset_clamped(available.height as int, max.height as int) as i64,
        },
        size: reported,
    }
}

/// The whole available area from the origin.
pub open spec fn full_window_rect(available: Size) -> Rect {
    Rect { origin: Point { x: 0, y: 0 }, size: available }
}

/// Everything one layout pass decides, as a function of the overlay bound,
/// the available size and the overlay-reported size alone.
pub open spec fn spec_layout_outcome(max: Size, available: Size, reported: Size) -> LayoutOutcome {
    LayoutOutcome {
        overlay_rect: spec_overlay_rect(max, available, reported),
        main_tree_rect: full_window_rect(available),
        consumed: available,
    }
}

/// A well-formed paint plan: background fills first, then the main tree,
/// then the overlay last.
pub open spec fn wf_paint_plan(plan: Seq<PaintOp>) -> bool {
    &&& plan.len() >= 2
    &&& plan[plan.len() - 2] == PaintOp::PaintMainTree
    &&& plan[plan.len() - 1] == PaintOp::PaintOverlay
    &&& forall|i: int| 0 <= i < plan.len() - 2 ==> plan[i] is FillBackground
}

impl WidgetRegistry {
    pub open spec fn wf(self) -> bool {
        self.palette_id matches Some(p) ==> (self.editor_split_id matches Some(e) ==> p != e)
    }

    /// A registry with nothing registered yet.
    pub fn new() -> (r: WidgetRegistry)
        ensures
            r.palette_id is None,
            r.editor_split_id is None,
            r.active_view_id is None,
            r.wf(),
    {
        WidgetRegistry { palette_id: None, editor_split_id: None, active_view_id: None }
    }

    /// Record the overlay's stable identifier. Registering twice, or reusing
    /// the main tree's identifier, is an unrecoverable programming error and
    /// is ruled out up front.
    pub fn register_palette(&mut self, id: u64)
        requires
            old(self).palette_id is None,
            old(self).editor_split_id matches Some(e) ==> e != id,
        ensures
            final(self).palette_id == Some(id),
            final(self).editor_split_id == old(self).editor_split_id,
            final(self).active_view_id == old(self).active_view_id,
            final(self).wf(),
    {
        self.palette_id = Some(id);
    }

    /// Record the editor-split tree's stable identifier, under the same
    /// uniqueness rule.
    pub fn register_editor_split(&mut self, id: u64)
        requires
            old(self).editor_split_id is None,
            old(self).palette_id matches Some(p) ==> p != id,
        ensures
            final(self).editor_split_id == Some(id),
            final(self).palette_id == old(self).palette_id,
            final(self).active_view_id == old(self).active_view_id,
            final(self).wf(),
    {
        self.editor_split_id = Some(id);
    }

    /// Mark one editor view as the active one.
    pub fn set_active_view(&mut self, view_id: u64)
        requires
            old(self).wf(),
        ensures
            final(self).active_view_id == Some(view_id),
            final(self).palette_id == old(self).palette_id,
            final(self).editor_split_id == old(self).editor_split_id,
            final(self).wf(),
    {
        self.active_view_id = Some(view_id);
    }
}

impl LapceContainer {
    pub open spec fn wf(self) -> bool {
        &&& self.palette_max_size.wf()
        &&& self.palette_rect.wf()
        &&& self.palette_rect.size.width <= self.palette_max_size.width
        &&& self.palette_rect.size.height <= self.palette_max_size.height
        &&& self.palette_widget_id != self.editor_split_widget_id
    }

    /// Wire up a fresh container: register both children's identifiers into
    /// shared state, mark the initially active editor view, and start from
    /// the default overlay bound of 600 by 400 logical units with a
    /// provisional overlay rectangle at (200, 100). The identifiers must be
    /// process-unique; a duplicate is an unrecoverable programming error
    /// and is ruled out up front.
    pub fn new(
        registry: &mut WidgetRegistry,
        palette_widget_id: u64,
        editor_split_widget_id: u64,
        initial_view_id: u64,
    ) -> (c: LapceContainer)
        requires
            old(registry).palette_id is None,
            old(registry).editor_split_id is None,
            palette_widget_id != editor_split_widget_id,
        ensures
            c.wf(),
            c.palette_widget_id == palette_widget_id,
            c.editor_split_widget_id == editor_split_widget_id,
            c.palette_max_size == (Size { width: 600, height: 400 }),
            c.palette_rect == (Rect {
                origin: Point { x: 200, y: 100 },
                size: Size { width: 600, height: 400 },
            }),
            final(registry).palette_id == Some(palette_widget_id),
            final(registry).editor_split_id == Some(editor_split_widget_id),
            final(registry).active_view_id == Some(initial_view_id),
            final(registry).wf(),
    {
        registry.register_palette(palette_widget_id);
        registry.register_editor_split(editor_split_widget_id);
        registry.set_active_view(initial_view_id);
        LapceContainer {
            palette_max_size: Size { width: 600, height: 400 },
            palette_rect: Rect {
                origin: Point { x: 200, y: 100 },
                size: Size { width: 600, height: 400 },
            },
            palette_widget_id,
            editor_split_widget_id,
        }
    }

    /// Decide where one event goes. Routing reads the overlay's visibility
    /// from shared state and hit-tests against the rectangle cached by the
    /// most recent layout pass; it never moves that rectangle.
    pub fn route_event(&self, overlay_hidden: bool, event: &InputEvent) -> (d: RouteDecision)
        requires
            self.wf(),
        ensures
            d.request_focus,
            d.target == route_target_spec(overlay_hidden, self.palette_rect, *event),
    {
        let target = match event {
            InputEvent::Internal => RouteTarget::BothChildren,
            InputEvent::KeyDown(_) => RouteTarget::KeyboardHandler,
            InputEvent::Command(cmd) => match cmd {
                Command::Ui(ui) => match ui {
                    UiCommand::BufferUpdate { .. } => RouteTarget::EditorBufferUpdate,
                    UiCommand::Unhandled => RouteTarget::ConsumedNoOp,
                },
                Command::Domain(_) => RouteTarget::OverlayCommand,
                Command::Foreign => RouteTarget::ConsumedNoOp,
            },
            InputEvent::Pointer(p) => {
                if !overlay_hidden && self.palette_rect.contains(p.pos) {
                    RouteTarget::OverlayPointer
                } else {
                    RouteTarget::MainTreePointer
                }
            },
            InputEvent::Unmatched => RouteTarget::Dropped,
        };
        RouteDecision { request_focus: true, target }
    }

    /// The order in which lifecycle notifications — and internal events —
    /// are forwarded: overlay first, then the main tree, unconditionally,
    /// with no filtering and no short-circuit.
    pub fn lifecycle_order(&self) -> (order: Vec<ChildRef>)
        ensures
            order@ == seq![ChildRef::Overlay, ChildRef::MainTree],
    {
        let mut order: Vec<ChildRef> = Vec::new();
        order.push(ChildRef::Overlay);
        order.push(ChildRef::MainTree);
        proof {
            assert(order@ =~= seq![ChildRef::Overlay, ChildRef::MainTree]);
        }
        order
    }

    /// The constraints the overlay is laid out under: from zero up to the
    /// fixed overlay bound.
    pub fn overlay_constraints(&self) -> (bc: (Size, Size))
        ensures
            bc.0 == (Size { width: 0, height: 0 }),
            bc.1 == self.palette_max_size,
    {
        (Size { width: 0, height: 0 }, self.palette_max_size)
    }

    /// One layout pass: place the overlay from the bound and the size it
    /// reported, cache its rectangle for the next event pass, give the main
    /// tree the whole available area, and consume the full available size.
    /// The overlay's and the main tree's placements are computed
    /// independently of each other.
    pub fn apply_layout(&mut self, available: Size, overlay_size: Size) -> (outcome: LayoutOutcome)
        requires
            old(self).wf(),
            available.wf(),
            overlay_size.wf(),
            overlay_size.width <= old(self).palette_max_size.width,
            overlay_size.height <= old(self).palette_max_size.height,
        ensures
            final(self).wf(),
            final(self).palette_max_size == old(self).palette_max_size,
            final(self).palette_widget_id == old(self).palette_widget_id,
            final(self).editor_split_widget_id == old(self).editor_split_widget_id,
            final(self).palette_rect == spec_overlay_rect(
                old(self).palette_max_size,
                available,
                overlay_size,
            ),
            outcome == spec_layout_outcome(old(self).palette_max_size, available, overlay_size),
    {
        let aw: i64 = available.width;
        let mw: i64 = self.palette_max_size.width;
        let ah: i64 = available.height;
        let mh: i64 = self.palette_max_size.height;
        let x: i64 = if aw >= mw {
            (((aw - mw) as u64) / 2) as i64
        } else {
            -((((mw - aw) as u64) / 2) as i64)
        };
        let y: i64 = if ah >= mh {
            (((ah - mh) as u64) / 4) as i64
        } else {
            0
        };
        self.palette_rect = Rect { origin: Point { x, y }, size: overlay_size };
        LayoutOutcome {
            overlay_rect: self.palette_rect,
            main_tree_rect: Rect { origin: Point { x: 0, y: 0 }, size: available },
            consumed: available,
        }
    }

    /// Plan one paint pass: fill every dirty region with the theme's
    /// background color — or skip filling entirely when the theme has no
    /// such color — then paint the main tree, then the overlay on top.
    pub fn paint_plan(&self, dirty: &Vec<Rect>, background: Option<Color>) -> (plan: Vec<PaintOp>)
        ensures
            wf_paint_plan(plan@),
            background matches Some(c) ==> plan@.len() == dirty@.len() + 2 && (forall|i: int|
                0 <= i < dirty@.len() ==> plan@[i] == (PaintOp::FillBackground {
                    area: dirty@[i],
                    color: c,
                })),
            background is None ==> plan@.len() == 2,
    {
        let mut plan: Vec<PaintOp> = Vec::new();
        match background {
            Some(color) => {
                let mut i: usize = 0;
                while i < dirty.len()
                    invariant
                        i <= dirty@.len(),
                        plan@.len() == i,
                        forall|j: int|
                            0 <= j < i ==> plan@[j] == (PaintOp::FillBackground {
                                area: dirty@[j],
                                color,
                            }),
                    decreases dirty@.len() - i,
                {
                    plan.push(PaintOp::FillBackground { area: dirty[i], color });
                    i = i + 1;
                }
            },
            None => {},
        }
        plan.push(PaintOp::PaintMainTree);
        plan.push(PaintOp::PaintOverlay);
        plan
    }

    /// The overlay rectangle cached from the most recent layout pass.
    pub fn overlay_rect(&self) -> (r: Rect)
        ensures
            r == self.palette_rect,
    {
        self.palette_rect
    }

    /// The fixed upper bound on the overlay's size.
    pub fn overlay_max_size(&self) -> (s: Size)
        ensures
            s == self.palette_max_size,
    {
        self.palette_max_size
    }
}

/// Law: while the overlay is hidden, no pointer event reaches it; every
/// pointer event is delivered to the main tree alone.
pub proof fn lemma_pointer_hidden_overlay(overlay_rect: Rect, p: PointerInput)
    ensures
        route_target_spec(true, overlay_rect, InputEvent::Pointer(p))
            == RouteTarget::MainTreePointer,
        route_target_spec(true, overlay_rect, InputEvent::Pointer(p))
            != RouteTarget::OverlayPointer,
{
}

/// Law: while the overlay is visible and the pointer lies inside the cached
/// overlay rectangle, the pointer event is delivered to the overlay and not
/// to the main tree.
pub proof fn lemma_pointer_inside_visible_overlay(overlay_rect: Rect, p: PointerInput)
    requires
        overlay_rect.spec_contains(p.pos),
    ensures
        route_target_spec(false, overlay_rect, InputEvent::Pointer(p))
            == RouteTarget::OverlayPointer,
        route_target_spec(false, overlay_rect, InputEvent::Pointer(p))
            != RouteTarget::MainTreePointer,
{
}

/// Law: a pointer event outside the cached overlay rectangle is delivered
/// to the main tree alone, whether or not the overlay is visible.
pub proof fn lemma_pointer_outside_overlay(
    overlay_hidden: bool,
    overlay_rect: Rect,
    p: PointerInput,
)
    requires
        !overlay_rect.spec_contains(p.pos),
    ensures
        route_target_spec(overlay_hidden, overlay_rect, InputEvent::Pointer(p))
            == RouteTarget::MainTreePointer,
        route_target_spec(overlay_hidden, overlay_rect, InputEvent::Pointer(p))
            != RouteTarget::OverlayPointer,
{
}

/// Law: a raw key press always goes to the global keyboard handler,
/// whatever the overlay's visibility and wherever the pointer sits —
/// keyboard routing bypasses the hit-test branch entirely.
pub proof fn lemma_keyboard_bypasses_hit_test(
    overlay_hidden: bool,
    overlay_rect: Rect,
    k: KeyInput,
)
    ensures
        route_target_spec(overlay_hidden, overlay_rect, InputEvent::KeyDown(k))
            == RouteTarget::KeyboardHandler,
{
}

/// Law: layout is idempotent under unchanged constraints. A layout pass
/// leaves the overlay bound untouched and determines its outcome from the
/// bound, the available size and the overlay-reported size alone, so two
/// passes with identical inputs decide identical overlay and main-tree
/// rectangles.
pub proof fn lemma_layout_idempotent(
    max: Size,
    available: Size,
    reported: Size,
    first: LayoutOutcome,
    second: LayoutOutcome,
)
    requires
        first == spec_layout_outcome(max, available, reported),
        second == spec_layout_outcome(max, available, reported),
    ensures
        second == first,
        second.overlay_rect == first.overlay_rect,
        second.main_tree_rect == first.main_tree_rect,
{
}

/// Law: the overlay rectangle never exceeds the overlay bound, and its
/// vertical origin is never negative, even when the available height is
/// smaller than the bound's height.
pub proof fn lemma_overlay_rect_bounded(max: Size, available: Size, reported: Size)
    requires
        max.wf(),
        available.wf(),
        reported.wf(),
        reported.width <= max.width,
        reported.height <= max.height,
    ensures
        spec_overlay_rect(max, available, reported).size.width <= max.width,
        spec_overlay_rect(max, available, reported).size.height <= max.height,
        spec_overlay_rect(max, available, reported).origin.y >= 0,
        spec_overlay_rect(max, available, reported).wf(),
{
    let aw = available.width as int;
    let mw = max.width as int;
    let ah = available.height as int;
    let mh = max.height as int;
    assert(0 <= quarter_offset_clamped(ah, mh) <= MAX_COORD);
    assert(-MAX_COORD <= centered_offset(aw, mw) <= MAX_COORD);
}

/// Law: in a well-formed paint plan the overlay is painted last — strictly
/// after the main tree — so for any dirty region both children touch, the
/// overlay's output is the visible one.
pub proof fn lemma_overlay_painted_last(plan: Seq<PaintOp>, i: int, j: int)
    requires
        wf_paint_plan(plan),
        0 <= i < plan.len(),
        0 <= j < plan.len(),
        plan[i] == PaintOp::PaintMainTree,
        plan[j] == PaintOp::PaintOverlay,
    ensures
        j == plan.len() - 1,
        i < j,
{
    assert(j == plan.len() - 1) by {
        if j < plan.len() - 2 {
            assert(plan[j] is FillBackground);
        }
    }
    assert(i == plan.len() - 2) by {
        if i < plan.len() - 2 {
            assert(plan[i] is FillBackground);
        }
    }
}

} // verus!
