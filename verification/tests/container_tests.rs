use lapce_container::container::{
    ChildRef, ChildState, LapceContainer, PaintOp, RouteTarget, WidgetRegistry,
};
use lapce_container::events::{
    Command, DomainCommand, InputEvent, InvalLines, KeyInput, PointerInput, PointerKind, UiCommand,
};
use lapce_container::geometry::{Color, Point, Rect, Size};

fn fresh_container() -> LapceContainer {
    let mut registry = WidgetRegistry::new();
    LapceContainer::new(&mut registry, 1, 2, 3)
}

fn pointer_at(x: i64, y: i64) -> InputEvent {
    InputEvent::Pointer(PointerInput {
        kind: PointerKind::Down,
        pos: Point { x, y },
    })
}

#[test]
fn construction_registers_children_and_defaults() {
    let mut registry = WidgetRegistry::new();
    let c = LapceContainer::new(&mut registry, 10, 20, 30);
    assert_eq!(registry.palette_id, Some(10));
    assert_eq!(registry.editor_split_id, Some(20));
    assert_eq!(registry.active_view_id, Some(30));
    assert_eq!(c.overlay_max_size(), Size::new(600, 400));
    assert_eq!(
        c.overlay_rect(),
        Rect::new(Point::new(200, 100), Size::new(600, 400))
    );
}

#[test]
fn overlay_constraints_run_from_zero_to_the_bound() {
    let c = fresh_container();
    let (min, max) = c.overlay_constraints();
    assert_eq!(min, Size::new(0, 0));
    assert_eq!(max, Size::new(600, 400));
}

#[test]
fn layout_centers_overlay_in_a_large_window() {
    // Available 1000 by 800 with a 600 by 400 bound: horizontally centered
    // at (1000 - 600) / 2 = 200, vertically at (800 - 400) / 4 = 100.
    let mut c = fresh_container();
    let outcome = c.apply_layout(Size::new(1000, 800), Size::new(600, 400));
    assert_eq!(outcome.overlay_rect.origin, Point::new(200, 100));
    assert_eq!(outcome.overlay_rect.size, Size::new(600, 400));
    assert_eq!(
        outcome.main_tree_rect,
        Rect::new(Point::new(0, 0), Size::new(1000, 800))
    );
    assert_eq!(outcome.consumed, Size::new(1000, 800));
    assert_eq!(c.overlay_rect(), outcome.overlay_rect);
}

#[test]
fn layout_clamps_vertical_origin_in_a_short_window() {
    // Available 500 by 300 is shorter than the 600 by 400 bound: the
    // vertical origin clamps to zero instead of going negative, while the
    // horizontal origin may go negative ((500 - 600) / 2 = -50).
    let mut c = fresh_container();
    let outcome = c.apply_layout(Size::new(500, 300), Size::new(500, 300));
    assert_eq!(outcome.overlay_rect.origin.y, 0);
    assert_eq!(outcome.overlay_rect.origin.x, -50);
    assert_eq!(outcome.overlay_rect.size, Size::new(500, 300));
}

#[test]
fn layout_keeps_the_overlay_reported_size() {
    // The overlay may report less than the bound; the cached rectangle
    // takes the reported size, not the bound.
    let mut c = fresh_container();
    let outcome = c.apply_layout(Size::new(1000, 800), Size::new(300, 200));
    assert_eq!(outcome.overlay_rect.size, Size::new(300, 200));
    assert!(outcome.overlay_rect.size.width <= c.overlay_max_size().width);
    assert!(outcome.overlay_rect.size.height <= c.overlay_max_size().height);
}

#[test]
fn layout_is_idempotent_for_unchanged_constraints() {
    let mut c = fresh_container();
    let first = c.apply_layout(Size::new(1234, 777), Size::new(600, 399));
    let second = c.apply_layout(Size::new(1234, 777), Size::new(600, 399));
    assert_eq!(first, second);
    assert_eq!(first.overlay_rect, second.overlay_rect);
    assert_eq!(first.main_tree_rect, second.main_tree_rect);
}

#[test]
fn layout_of_main_tree_ignores_the_overlay() {
    // The main tree always covers the whole window, never resized to make
    // room for the overlay.
    let mut c = fresh_container();
    let outcome = c.apply_layout(Size::new(640, 480), Size::new(600, 400));
    assert_eq!(
        outcome.main_tree_rect,
        Rect::new(Point::new(0, 0), Size::new(640, 480))
    );
}

#[test]
fn pointer_over_hidden_overlay_goes_to_main_tree() {
    let mut c = fresh_container();
    c.apply_layout(Size::new(1000, 800), Size::new(600, 400));
    // (300, 200) lies inside the overlay rectangle (200..800, 100..500).
    let d = c.route_event(true, &pointer_at(300, 200));
    assert_eq!(d.target, RouteTarget::MainTreePointer);
}

#[test]
fn pointer_inside_visible_overlay_goes_to_overlay_only() {
    let mut c = fresh_container();
    c.apply_layout(Size::new(1000, 800), Size::new(600, 400));
    let d = c.route_event(false, &pointer_at(300, 200));
    assert_eq!(d.target, RouteTarget::OverlayPointer);
}

#[test]
fn pointer_outside_overlay_goes_to_main_tree_either_way() {
    let mut c = fresh_container();
    c.apply_layout(Size::new(1000, 800), Size::new(600, 400));
    // (100, 50) lies outside the overlay rectangle.
    let hidden = c.route_event(true, &pointer_at(100, 50));
    let visible = c.route_event(false, &pointer_at(100, 50));
    assert_eq!(hidden.target, RouteTarget::MainTreePointer);
    assert_eq!(visible.target, RouteTarget::MainTreePointer);
}

#[test]
fn pointer_on_the_far_edges_counts_as_outside() {
    let mut c = fresh_container();
    c.apply_layout(Size::new(1000, 800), Size::new(600, 400));
    // The left and top edges are inside; the right and bottom edges are not.
    assert_eq!(
        c.route_event(false, &pointer_at(200, 100)).target,
        RouteTarget::OverlayPointer
    );
    assert_eq!(
        c.route_event(false, &pointer_at(800, 200)).target,
        RouteTarget::MainTreePointer
    );
    assert_eq!(
        c.route_event(false, &pointer_at(300, 500)).target,
        RouteTarget::MainTreePointer
    );
}

#[test]
fn hit_testing_follows_the_latest_layout() {
    let mut c = fresh_container();
    c.apply_layout(Size::new(1000, 800), Size::new(600, 400));
    assert_eq!(
        c.route_event(false, &pointer_at(250, 150)).target,
        RouteTarget::OverlayPointer
    );
    // After a resize the same point falls outside the recomputed rectangle.
    c.apply_layout(Size::new(4000, 3000), Size::new(600, 400));
    assert_eq!(
        c.route_event(false, &pointer_at(250, 150)).target,
        RouteTarget::MainTreePointer
    );
}

#[test]
fn keyboard_bypasses_overlay_even_when_pointer_is_over_it() {
    // The pointer sits over a visible overlay, yet a key press still goes
    // to the global keyboard handler, not to the overlay.
    let mut c = fresh_container();
    c.apply_layout(Size::new(1000, 800), Size::new(600, 400));
    let d = c.route_event(false, &InputEvent::KeyDown(KeyInput { key_code: 13 }));
    assert_eq!(d.target, RouteTarget::KeyboardHandler);
}

#[test]
fn internal_events_reach_both_children_overlay_first() {
    let c = fresh_container();
    let d = c.route_event(true, &InputEvent::Internal);
    assert_eq!(d.target, RouteTarget::BothChildren);
    assert_eq!(
        c.lifecycle_order(),
        vec![ChildRef::Overlay, ChildRef::MainTree]
    );
}

#[test]
fn buffer_update_command_goes_to_editor_split_state() {
    let c = fresh_container();
    let event = InputEvent::Command(Command::Ui(UiCommand::BufferUpdate {
        buffer_id: 7,
        inval_lines: InvalLines {
            start_line: 10,
            inval_count: 2,
            new_count: 3,
        },
    }));
    let d = c.route_event(false, &event);
    assert_eq!(d.target, RouteTarget::EditorBufferUpdate);
}

#[test]
fn other_ui_and_foreign_commands_are_consumed_without_effect() {
    let c = fresh_container();
    let unhandled = InputEvent::Command(Command::Ui(UiCommand::Unhandled));
    let foreign = InputEvent::Command(Command::Foreign);
    assert_eq!(c.route_event(false, &unhandled).target, RouteTarget::ConsumedNoOp);
    assert_eq!(c.route_event(true, &foreign).target, RouteTarget::ConsumedNoOp);
}

#[test]
fn domain_commands_reach_the_overlay_even_while_hidden() {
    let c = fresh_container();
    let open = InputEvent::Command(Command::Domain(DomainCommand::Palette));
    let other = InputEvent::Command(Command::Domain(DomainCommand::Unhandled));
    assert_eq!(c.route_event(true, &open).target, RouteTarget::OverlayCommand);
    assert_eq!(c.route_event(false, &other).target, RouteTarget::OverlayCommand);
}

#[test]
fn unmatched_events_are_dropped() {
    let c = fresh_container();
    let d = c.route_event(false, &InputEvent::Unmatched);
    assert_eq!(d.target, RouteTarget::Dropped);
}

#[test]
fn every_event_requests_focus() {
    let c = fresh_container();
    let events = vec![
        InputEvent::Internal,
        InputEvent::KeyDown(KeyInput { key_code: 65 }),
        InputEvent::Command(Command::Foreign),
        pointer_at(0, 0),
        InputEvent::Unmatched,
    ];
    for event in &events {
        assert!(c.route_event(false, event).request_focus);
        assert!(c.route_event(true, event).request_focus);
    }
}

#[test]
fn paint_fills_dirty_regions_then_main_tree_then_overlay() {
    let c = fresh_container();
    let dirty = vec![
        Rect::new(Point::new(0, 0), Size::new(100, 100)),
        Rect::new(Point::new(100, 0), Size::new(50, 50)),
    ];
    let background = Color {
        r: 30,
        g: 30,
        b: 30,
        a: 255,
    };
    let plan = c.paint_plan(&dirty, Some(background));
    assert_eq!(plan.len(), 4);
    assert_eq!(
        plan[0],
        PaintOp::FillBackground {
            area: dirty[0],
            color: background
        }
    );
    assert_eq!(
        plan[1],
        PaintOp::FillBackground {
            area: dirty[1],
            color: background
        }
    );
    assert_eq!(plan[2], PaintOp::PaintMainTree);
    assert_eq!(plan[3], PaintOp::PaintOverlay);
}

#[test]
fn paint_skips_filling_when_the_theme_has_no_background() {
    let c = fresh_container();
    let dirty = vec![Rect::new(Point::new(0, 0), Size::new(100, 100))];
    let plan = c.paint_plan(&dirty, None);
    assert_eq!(plan, vec![PaintOp::PaintMainTree, PaintOp::PaintOverlay]);
}

#[test]
fn overlay_is_painted_after_main_tree_in_every_plan() {
    let c = fresh_container();
    let dirty = vec![Rect::new(Point::new(0, 0), Size::new(800, 600))];
    for background in [
        None,
        Some(Color {
            r: 0,
            g: 0,
            b: 0,
            a: 255,
        }),
    ] {
        let plan = c.paint_plan(&dirty, background);
        let main = plan.iter().position(|op| *op == PaintOp::PaintMainTree);
        let overlay = plan.iter().position(|op| *op == PaintOp::PaintOverlay);
        assert!(main.unwrap() < overlay.unwrap());
        assert_eq!(overlay.unwrap(), plan.len() - 1);
    }
}

#[test]
fn child_state_tracks_placement_and_visibility() {
    let mut state = ChildState {
        origin: None,
        size: None,
        hidden: true,
    };
    state.origin = Some(Point::new(200, 100));
    state.size = Some(Size::new(600, 400));
    state.hidden = false;
    assert_eq!(state.origin, Some(Point::new(200, 100)));
    assert_eq!(state.size, Some(Size::new(600, 400)));
    assert!(!state.hidden);
}

#[test]
fn registry_records_each_registration() {
    let mut registry = WidgetRegistry::new();
    assert_eq!(registry.palette_id, None);
    assert_eq!(registry.editor_split_id, None);
    assert_eq!(registry.active_view_id, None);
    registry.register_palette(4);
    registry.register_editor_split(5);
    registry.set_active_view(6);
    assert_eq!(registry.palette_id, Some(4));
    assert_eq!(registry.editor_split_id, Some(5));
    assert_eq!(registry.active_view_id, Some(6));
}
