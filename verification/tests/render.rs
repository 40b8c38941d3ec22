use onion_engine::render::{
    choose_surface_format, handle_event, handle_render_outcome, instance_grid, GridInstance,
    LoopAction, LoopEvent, RenderFollowUp, RenderOutcome, SurfaceSize, Viewport,
    NUM_INSTANCES_PER_ROW,
};

fn size(width: u32, height: u32) -> SurfaceSize {
    SurfaceSize { width, height }
}

#[test]
fn escape_press_forwards_then_exits() {
    let actions = handle_event(LoopEvent::Keyboard { pressed: true, escape: true });
    assert_eq!(actions, vec![LoopAction::ForwardKey, LoopAction::Exit]);
}

#[test]
fn escape_release_only_forwards() {
    let actions = handle_event(LoopEvent::Keyboard { pressed: false, escape: true });
    assert_eq!(actions, vec![LoopAction::ForwardKey]);
}

#[test]
fn other_key_press_only_forwards() {
    let actions = handle_event(LoopEvent::Keyboard { pressed: true, escape: false });
    assert_eq!(actions, vec![LoopAction::ForwardKey]);
}

#[test]
fn close_request_exits() {
    assert_eq!(handle_event(LoopEvent::CloseRequested), vec![LoopAction::Exit]);
}

#[test]
fn idle_loop_requests_a_frame() {
    assert_eq!(handle_event(LoopEvent::AboutToWait), vec![LoopAction::RequestRedraw]);
}

#[test]
fn resize_events_resize() {
    assert_eq!(
        handle_event(LoopEvent::Resized(size(800, 600))),
        vec![LoopAction::Resize(size(800, 600))]
    );
    assert_eq!(
        handle_event(LoopEvent::ScaleFactorChanged(size(1600, 1200))),
        vec![LoopAction::Resize(size(1600, 1200))]
    );
}

#[test]
fn redraw_updates_and_renders() {
    assert_eq!(handle_event(LoopEvent::RedrawRequested), vec![LoopAction::UpdateAndRender]);
}

#[test]
fn other_events_are_ignored() {
    assert!(handle_event(LoopEvent::Other).is_empty());
}

#[test]
fn viewport_takes_drawable_sizes() {
    let mut viewport = Viewport::new(size(800, 600));
    assert_eq!(viewport.size(), size(800, 600));
    assert!(viewport.resize(size(1024, 768)));
    assert_eq!(viewport.size(), size(1024, 768));
    assert!(viewport.resize(size(1024, 768)));
    assert_eq!(viewport.size(), size(1024, 768));
}

#[test]
fn viewport_refuses_a_zero_side() {
    let mut viewport = Viewport::new(size(800, 600));
    assert!(!viewport.resize(size(0, 600)));
    assert!(!viewport.resize(size(800, 0)));
    assert!(!viewport.resize(size(0, 0)));
    assert_eq!(viewport.size(), size(800, 600));
}

#[test]
fn render_outcomes() {
    let viewport = Viewport::new(size(640, 480));
    assert_eq!(handle_render_outcome(RenderOutcome::Presented, &viewport), RenderFollowUp::Continue);
    assert_eq!(
        handle_render_outcome(RenderOutcome::SurfaceLost, &viewport),
        RenderFollowUp::Resize(size(640, 480))
    );
    assert_eq!(handle_render_outcome(RenderOutcome::OutOfMemory, &viewport), RenderFollowUp::Exit);
    assert_eq!(handle_render_outcome(RenderOutcome::OtherFailure, &viewport), RenderFollowUp::Report);
}

#[test]
fn surface_format_prefers_first_srgb() {
    assert_eq!(choose_surface_format(&vec![false, true, true]), 1);
    assert_eq!(choose_surface_format(&vec![true, false]), 0);
    assert_eq!(choose_surface_format(&vec![false, false, false]), 0);
    assert_eq!(choose_surface_format(&vec![false]), 0);
}

#[test]
fn instance_grid_is_centred() {
    let grid = instance_grid();
    let n = NUM_INSTANCES_PER_ROW as usize;
    assert_eq!(grid.len(), n * n);
    assert_eq!(grid[0], GridInstance { x: -5, z: -5, rotated: true });
    assert_eq!(grid[1], GridInstance { x: -4, z: -5, rotated: true });
    assert_eq!(grid[10], GridInstance { x: -5, z: -4, rotated: true });
    assert_eq!(grid[55], GridInstance { x: 0, z: 0, rotated: false });
    assert_eq!(grid[99], GridInstance { x: 4, z: 4, rotated: true });
    assert_eq!(grid.iter().filter(|g| !g.rotated).count(), 1);
}

#[test]
fn instance_grid_offsets_are_distinct() {
    let grid = instance_grid();
    for (j, a) in grid.iter().enumerate() {
        assert!(a.x >= -5 && a.x < 5 && a.z >= -5 && a.z < 5);
        for b in grid.iter().skip(j + 1) {
            assert!(a.x != b.x || a.z != b.z);
        }
    }
}
