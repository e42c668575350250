use satellite::geometry::{Point, Scale, Size, Window, WindowDims};
use satellite::metrics::Metrics;
use satellite::request::{ConstraintAdjustment, Corner, Positioner, Request};
use satellite::role::{PendingAnchor, PopupData, SurfaceRole, ToplevelData};
use satellite::state::{Environment, InnerServerState};
use satellite::window::{
    Decorations, WindowData, WindowRole, WmHints, WmName, WmNormalHints,
};
use satellite::world::{
    ClientSurface, OnOutput, OutputDimensions, OutputScaleFactor, ServerSurface,
    SurfaceScaleFactor,
};

const UNSCALED: Scale = Scale { key: 100 };
const DOUBLE: Scale = Scale { key: 200 };

fn environment() -> Environment {
    Environment {
        xdg_wm_base_version: 6,
        activation: true,
        decoration_manager: true,
        titlebar_height: 25,
        unscaled: UNSCALED,
    }
}

fn divide(length: i32, scale: Scale) -> i32 {
    (length as f64 / (scale.key as f64 / 100.0)) as i32
}

fn logical_size(width: u16, height: u16, scale: Scale) -> Size {
    Size { width: divide(width as i32, scale), height: divide(height as i32, scale) }
}

fn wide_enough(_: u64, width: i32) -> bool {
    width > 40
}

type Plain = Metrics<fn(i32, Scale) -> i32, fn(u16, u16, Scale) -> Size, fn(u64, i32) -> bool>;

fn metrics() -> Plain {
    Metrics { divide, logical_size, draws_titlebar: wide_enough }
}

fn no_environ(_: u32) -> Option<Vec<u8>> {
    None
}

fn window(id: u32) -> Window {
    Window { id }
}

fn dims(x: i16, y: i16, width: u16, height: u16) -> WindowDims {
    WindowDims { x, y, width, height }
}

/// Adds a mapped window with a surface.
fn add(state: &mut InnerServerState, id: u32, popup: bool, at: WindowDims, scale: Scale) -> u64 {
    state.new_window(window(id), popup, at, None, no_environ);
    state.map_window(window(id));
    let entity = state.entity_of(window(id)).unwrap();
    assert!(state.attach(entity, ClientSurface));
    assert!(state.attach(entity, ServerSurface));
    assert!(state.attach(entity, SurfaceScaleFactor { scale }));
    entity
}

fn popup_of(state: &InnerServerState, entity: u64) -> PopupData {
    match state.component_of::<SurfaceRole>(entity) {
        Some(SurfaceRole::Popup(Some(popup))) => popup,
        other => panic!("no popup: {other:?}"),
    }
}

fn toplevel_of(state: &InnerServerState, entity: u64) -> ToplevelData {
    match state.component_of::<SurfaceRole>(entity) {
        Some(SurfaceRole::Toplevel(Some(toplevel))) => toplevel,
        other => panic!("no toplevel: {other:?}"),
    }
}

/// A server with a toplevel that it decorates, and a popup of it.
fn with_popup() -> (InnerServerState, u64, u64) {
    let mut state =
        InnerServerState::new(Environment { decoration_manager: false, ..environment() });
    let parent = add(&mut state, 1, false, dims(100, 50, 200, 160), DOUBLE);
    state.create_role_window(parent, &metrics());
    state.set_satellite_decoration(parent);
    state.last_focused_toplevel = Some(window(1));
    let child = add(&mut state, 2, true, dims(120, 90, 61, 0), UNSCALED);
    let (is_toplevel, requests) = state.create_role_window(child, &metrics());
    assert!(!is_toplevel);
    assert_eq!(requests.len(), 5);
    (state, parent, child)
}

#[test]
fn plain_toplevel_is_created() {
    let mut state = InnerServerState::new(environment());
    let entity = add(&mut state, 1, false, dims(0, 0, 300, 200), UNSCALED);
    let (is_toplevel, requests) = state.create_role_window(entity, &metrics());
    assert!(is_toplevel);
    assert_eq!(
        requests,
        vec![
            Request::AttachNothing { entity },
            Request::Commit { entity },
            Request::CreateXdgSurface { entity },
            Request::CreateToplevel { entity },
            Request::CreateDecoration { entity },
            Request::SetDecorationMode { entity, mode: Decorations::Server },
            Request::Commit { entity },
        ]
    );
    let toplevel = toplevel_of(&state, entity);
    assert!(toplevel.decoration.wl);
    assert!(!toplevel.decoration.satellite);
    assert!(!toplevel.fullscreen);
    assert!(!toplevel.xdg.configured);
}

#[test]
fn toplevel_is_told_all_that_is_known() {
    let mut state = InnerServerState::new(environment());
    let parent = add(&mut state, 1, false, dims(0, 0, 300, 200), UNSCALED);
    state.create_role_window(parent, &metrics());
    let environ = b"XDG_ACTIVATION_TOKEN=tok\0".to_vec();
    state.new_window(window(2), false, dims(5, 6, 70, 80), Some(7), |_: u32| Some(environ.clone()));
    let entity = state.entity_of(window(2)).unwrap();
    assert!(state.attach(entity, ClientSurface));
    state.set_size_hints(
        window(2),
        WmNormalHints {
            min_size: Some(Size { width: 1, height: 2 }),
            max_size: Some(Size { width: 3, height: 4 }),
        },
    );
    state.set_window_role(window(2), WindowRole::Splash);
    state.set_win_class(window(2), "class".to_string());
    state.set_win_title(window(2), WmName::WmName("title".to_string()));
    state.set_win_decorations(window(2), Decorations::Client);
    state.set_transient_for(window(2), window(1));
    let output = state.spawn_entity();
    assert!(state.attach(output, OutputDimensions { x: 0, y: 0, width: 70, height: 80 }));
    let (is_toplevel, requests) = state.create_role_window(entity, &metrics());
    assert!(is_toplevel);
    assert_eq!(
        requests,
        vec![
            Request::AttachNothing { entity },
            Request::Commit { entity },
            Request::CreateXdgSurface { entity },
            Request::CreateToplevel { entity },
            Request::SetMinSize { entity, width: 1, height: 2 },
            Request::SetMaxSize { entity, width: 3, height: 4 },
            Request::SetMinSize { entity, width: 70, height: 80 },
            Request::SetMaxSize { entity, width: 70, height: 80 },
            Request::SetAppId { entity, app_id: "class".to_string() },
            Request::SetTitle { entity, title: "title".to_string() },
            Request::SetFullscreen { entity },
            Request::CreateDecoration { entity },
            Request::SetDecorationMode { entity, mode: Decorations::Client },
            Request::Activate { entity, activation_token: "tok".to_string() },
            Request::SetParent { entity, parent },
            Request::Commit { entity },
        ]
    );
}

#[test]
fn names_come_from_the_group_leader() {
    let mut state = InnerServerState::new(environment());
    let leader = add(&mut state, 1, false, dims(0, 0, 1, 1), UNSCALED);
    state.set_win_class(window(1), "leading".to_string());
    state.set_win_title(window(1), WmName::NetWmName("leader".to_string()));
    let entity = add(&mut state, 2, false, dims(0, 0, 1, 1), UNSCALED);
    state.set_win_hints(
        window(2),
        WmHints { window_group: Some(window(1)), acquire_input_via_wm: false },
    );
    state.set_win_title(window(2), WmName::WmName("own".to_string()));
    let (_, requests) = state.create_role_window(entity, &metrics());
    assert!(requests.contains(&Request::SetAppId { entity, app_id: "leading".to_string() }));
    assert!(requests.contains(&Request::SetTitle { entity, title: "own".to_string() }));
    assert_ne!(leader, entity);
}

#[test]
fn server_decorates_where_the_compositor_does_not() {
    let environment = Environment { decoration_manager: false, activation: false, ..environment() };
    let mut state = InnerServerState::new(environment);
    let entity = add(&mut state, 1, false, dims(0, 0, 300, 200), UNSCALED);
    state.set_win_title(window(1), WmName::WmName("t".to_string()));
    let (_, requests) = state.create_role_window(entity, &metrics());
    assert!(requests.contains(&Request::CreateSatelliteDecoration {
        entity,
        initial_title: Some("t".to_string()),
    }));
    assert!(!toplevel_of(&state, entity).decoration.wl);
    assert!(!toplevel_of(&state, entity).decoration.satellite);
    state.set_satellite_decoration(entity);
    assert!(toplevel_of(&state, entity).decoration.satellite);

    let entity = add(&mut state, 2, false, dims(0, 0, 300, 200), UNSCALED);
    state.set_win_decorations(window(2), Decorations::Client);
    let (_, requests) = state.create_role_window(entity, &metrics());
    assert_eq!(requests.len(), 5);
    state.set_satellite_decoration(u64::MAX);
}

#[test]
fn window_of_unknown_parent_gets_none() {
    let mut state = InnerServerState::new(environment());
    let entity = add(&mut state, 1, false, dims(0, 0, 300, 200), UNSCALED);
    state.set_transient_for(window(1), window(7));
    let (_, requests) = state.create_role_window(entity, &metrics());
    assert_eq!(requests.len(), 7);
    let other = add(&mut state, 2, false, dims(0, 0, 300, 200), UNSCALED);
    state.set_transient_for(window(2), window(1));
    state.unmap_window(window(1));
    let (_, requests) = state.create_role_window(other, &metrics());
    assert_eq!(requests.len(), 7);
}

#[test]
fn popup_is_created_by_its_parents_scale() {
    let (state, parent, child) = with_popup();
    let popup = popup_of(&state, child);
    assert_eq!(popup.parent, parent);
    assert_eq!(popup.size, Size { width: 30, height: 1 });
    assert_eq!(popup.offset, Point { x: 10, y: 20 });
    assert_eq!(popup.anchor_origin, Point { x: 0, y: 25 });
    assert_eq!(popup.configure_anchor, Point { x: 0, y: 25 });
    assert_eq!(popup.anchor_size, Size { width: 100, height: 80 });
    assert_eq!(popup.parent_size, None);
    assert_eq!(popup.parent_configure, None);
    assert_eq!(popup.pending_anchors, vec![]);
    assert_eq!(popup.next_reposition_token, 1);
    assert_eq!(
        state.component_of::<SurfaceScaleFactor>(child),
        Some(SurfaceScaleFactor { scale: DOUBLE })
    );
}

#[test]
fn popup_request_carries_the_positioner() {
    let mut state = InnerServerState::new(environment());
    let parent = add(&mut state, 1, false, dims(0, 0, 80, 60), UNSCALED);
    state.create_role_window(parent, &metrics());
    let hovered = add(&mut state, 2, false, dims(10, 10, 50, 40), UNSCALED);
    state.create_role_window(hovered, &metrics());
    state.last_focused_toplevel = Some(window(1));
    state.last_hovered = Some(window(2));
    let entity = add(&mut state, 3, true, dims(5, 30, 8, 9), DOUBLE);
    let (is_toplevel, requests) = state.create_role_window(entity, &metrics());
    assert!(!is_toplevel);
    assert_eq!(
        requests,
        vec![
            Request::AttachNothing { entity },
            Request::Commit { entity },
            Request::CreateXdgSurface { entity },
            Request::CreatePopup {
                entity,
                parent: hovered,
                positioner: Positioner {
                    size: Size { width: 8, height: 9 },
                    offset: Point { x: -5, y: 20 },
                    anchor: Corner::TopLeft,
                    gravity: Corner::BottomRight,
                    anchor_origin: Point { x: 0, y: 0 },
                    anchor_size: Size { width: 50, height: 40 },
                    constraint_adjustment: ConstraintAdjustment { slide_x: true, slide_y: true },
                    parent_size: None,
                    parent_configure: None,
                },
            },
            Request::Commit { entity },
        ]
    );
}

#[test]
fn popup_without_parent_becomes_a_toplevel() {
    let mut state = InnerServerState::new(environment());
    let entity = add(&mut state, 1, true, dims(5, 30, 8, 9), UNSCALED);
    assert!(state.create_role_window(entity, &metrics()).0);
}

#[test]
fn output_sized_popup_becomes_a_fullscreen_toplevel() {
    let (mut state, _, _) = with_popup();
    let output = state.spawn_entity();
    assert!(state.attach(output, OutputDimensions { x: 0, y: 0, width: 640, height: 480 }));
    let entity = add(&mut state, 3, true, dims(0, 0, 640, 480), UNSCALED);
    let (is_toplevel, requests) = state.create_role_window(entity, &metrics());
    assert!(is_toplevel);
    assert!(requests.contains(&Request::SetFullscreen { entity }));
}

#[test]
fn new_popup_is_left_alone() {
    let (mut state, parent, child) = with_popup();
    let before = popup_of(&state, child);
    assert_eq!(state.refresh_child_popups(parent, None, &metrics()), vec![]);
    assert_eq!(popup_of(&state, child), before);
}

#[test]
fn popup_follows_its_parent_once() {
    let (mut state, parent, child) = with_popup();
    state.reconfigure_window(window(1), dims(100, 50, 60, 160), &metrics());
    assert_eq!(state.pending_popup_refresh, vec![parent]);
    let requests = state.refresh_pending_popups(&metrics());
    let popup = popup_of(&state, child);
    assert_eq!(popup.anchor_origin, Point { x: 0, y: 0 });
    assert_eq!(popup.anchor_size, Size { width: 30, height: 80 });
    assert_eq!(popup.parent_size, Some(Size { width: 30, height: 80 }));
    assert_eq!(popup.configure_anchor, Point { x: 0, y: 25 });
    assert_eq!(
        requests,
        vec![Request::Reposition {
            entity: child,
            positioner: popup.configure_positioner(),
            token: 1,
        }]
    );
    assert_eq!(
        popup.pending_anchors,
        vec![PendingAnchor { token: 1, origin: Point { x: 0, y: 0 } }]
    );
    assert_eq!(state.pending_popup_refresh, vec![]);
    assert_eq!(state.refresh_child_popups(parent, None, &metrics()), vec![]);
    assert_eq!(popup_of(&state, child), popup);
}

#[test]
fn configure_is_always_responded_to() {
    let (mut state, parent, child) = with_popup();
    let requests = state.refresh_child_popups(parent, Some(42), &metrics());
    assert_eq!(requests.len(), 1);
    let popup = popup_of(&state, child);
    assert_eq!(popup.parent_configure, Some(42));
    assert_eq!(popup.parent_size, Some(Size { width: 100, height: 105 }));
    assert_eq!(popup.next_reposition_token, 2);
}

#[test]
fn popup_is_refreshed_through_its_parent() {
    let (mut state, parent, child) = with_popup();
    assert!(state.attach(child, SurfaceScaleFactor { scale: UNSCALED }));
    state.pending_popup_refresh = vec![child, parent, child];
    assert_eq!(state.refresh_pending_popups(&metrics()).len(), 1);
    assert_eq!(popup_of(&state, child).size, Size { width: 61, height: 1 });
    let data = state.component_of::<WindowData>(child).unwrap();
    assert_eq!(data.attrs.dims, dims(120, 90, 61, 0));
}

#[test]
fn old_compositors_do_not_reposition() {
    let mut state = InnerServerState::new(Environment { xdg_wm_base_version: 2, ..environment() });
    let parent = add(&mut state, 1, false, dims(0, 0, 80, 60), UNSCALED);
    state.create_role_window(parent, &metrics());
    state.last_focused_toplevel = Some(window(1));
    let child = add(&mut state, 2, true, dims(5, 30, 8, 9), UNSCALED);
    state.create_role_window(child, &metrics());
    assert_eq!(state.refresh_child_popups(parent, Some(1), &metrics()), vec![]);
    assert_eq!(state.reconfigure_window(window(2), dims(6, 30, 8, 9), &metrics()), vec![]);
    assert_eq!(
        state.component_of::<WindowData>(child).unwrap().attrs.dims,
        dims(6, 30, 8, 9)
    );
    assert_eq!(popup_of(&state, child).pending_anchors, vec![]);
}

#[test]
fn reconfigured_popup_is_repositioned() {
    let (mut state, parent, child) = with_popup();
    state.refresh_child_popups(parent, Some(42), &metrics());
    let requests = state.reconfigure_window(window(2), dims(140, 60, 20, 1), &metrics());
    let popup = popup_of(&state, child);
    assert_eq!(popup.offset, Point { x: 20, y: 5 });
    assert_eq!(popup.size, Size { width: 10, height: 1 });
    assert_eq!(popup.parent_configure, None);
    assert_eq!(
        requests,
        vec![Request::Reposition {
            entity: child,
            positioner: popup.configure_positioner(),
            token: 2,
        }]
    );
    assert_eq!(popup.pending_anchors.len(), 2);
    assert_eq!(
        state.component_of::<WindowData>(child).unwrap().attrs.dims,
        dims(140, 60, 20, 1)
    );
}

#[test]
fn reconfigured_popup_is_where_a_refresh_puts_it() {
    let (mut state, parent, child) = with_popup();
    assert!(state.attach(child, SurfaceScaleFactor { scale: UNSCALED }));
    state.reconfigure_window(window(2), dims(95, 61, 20, 8), &metrics());
    let popup = popup_of(&state, child);
    assert_eq!(popup.offset, Point { x: -2, y: 5 });
    assert_eq!(popup.size, Size { width: 20, height: 8 });
    assert_eq!(state.refresh_child_popups(parent, None, &metrics()), vec![]);
    assert_eq!(state.refresh_child_popups(parent, Some(3), &metrics()).len(), 1);
    assert_eq!(popup_of(&state, child).offset, popup.offset);
}

#[test]
fn popups_far_from_their_parents_keep_the_distance() {
    let mut state = InnerServerState::new(environment());
    let parent = add(&mut state, 1, false, dims(-30000, 20000, 80, 60), UNSCALED);
    state.create_role_window(parent, &metrics());
    state.last_hovered = Some(window(1));
    let child = add(&mut state, 2, true, dims(32767, -32768, 8, 9), UNSCALED);
    state.create_role_window(child, &metrics());
    assert_eq!(popup_of(&state, child).offset, Point { x: 62767, y: -52768 });
    state.reconfigure_window(window(2), dims(30000, -30000, 8, 9), &metrics());
    assert_eq!(popup_of(&state, child).offset, Point { x: 60000, y: -50000 });
    state.refresh_child_popups(parent, Some(1), &metrics());
    assert_eq!(popup_of(&state, child).offset, Point { x: 60000, y: -50000 });
}

#[test]
fn reconfigured_popup_without_parent_keeps_its_offset() {
    let (mut state, parent, child) = with_popup();
    assert!(state.detach::<SurfaceScaleFactor>(parent).is_some());
    assert_eq!(
        state.reconfigure_window(window(2), dims(140, 60, 20, 8), &metrics()).len(),
        1
    );
    assert_eq!(popup_of(&state, child).offset, Point { x: 10, y: 20 });
    assert_eq!(popup_of(&state, child).size, Size { width: 10, height: 4 });
}

#[test]
fn no_toplevel_is_decorated_twice() {
    let mut state = InnerServerState::new(environment());
    let entity = add(&mut state, 1, false, dims(0, 0, 300, 200), UNSCALED);
    state.create_role_window(entity, &metrics());
    state.set_satellite_decoration(entity);
    let mut toplevel = toplevel_of(&state, entity);
    assert!(toplevel.decoration.wl);
    assert!(!toplevel.decoration.satellite);
    toplevel.decoration.satellite = true;
    assert!(!state.set_role(entity, SurfaceRole::Toplevel(Some(toplevel))));
    toplevel.decoration.wl = false;
    assert!(state.set_role(entity, SurfaceRole::Toplevel(Some(toplevel))));
    assert_eq!(toplevel_of(&state, entity), toplevel);
    assert!(!state.set_role(u64::MAX, SurfaceRole::Popup(None)));
}

#[test]
fn answered_reposition_moves_the_anchor() {
    let (mut state, parent, child) = with_popup();
    state.refresh_child_popups(parent, Some(1), &metrics());
    let mut popup = popup_of(&state, child);
    popup.repositioned(1);
    assert!(state.set_role(child, SurfaceRole::Popup(Some(popup))));
    assert_eq!(popup_of(&state, child).pending_anchors, vec![]);
}

#[test]
fn surfaces_take_over_the_scale_of_their_output() {
    let mut state = InnerServerState::new(environment());
    let output = state.spawn_entity();
    assert!(state.attach(output, OutputScaleFactor::Output(DOUBLE)));
    let fractional = state.spawn_entity();
    assert!(state.attach(fractional, OutputScaleFactor::Fractional(Scale { key: 150 })));
    let on = add(&mut state, 1, false, dims(0, 0, 80, 60), UNSCALED);
    assert!(state.attach(on, OnOutput { output }));
    let off = add(&mut state, 2, false, dims(0, 0, 80, 60), UNSCALED);
    assert!(state.attach(off, OnOutput { output: fractional }));
    let bare = state.spawn_entity();
    assert!(state.attach(bare, OnOutput { output }));
    assert!(state.attach(bare, SurfaceScaleFactor { scale: UNSCALED }));

    assert_eq!(state.handle_updated_outputs(&metrics()), vec![]);
    assert_eq!(state.new_global_scale(), None);

    state.updated_outputs = vec![output, fractional];
    assert_eq!(
        state.handle_updated_outputs(&metrics()),
        vec![Request::UpdateViewport { entity: on }]
    );
    let scale_of = |entity: u64| state.component_of::<SurfaceScaleFactor>(entity).unwrap().scale;
    assert_eq!(scale_of(on), DOUBLE);
    assert_eq!(scale_of(off), UNSCALED);
    assert_eq!(scale_of(bare), UNSCALED);
    assert_eq!(state.updated_outputs, vec![]);
    assert_eq!(state.current_scale, Scale { key: 150 });
    assert_eq!(state.new_global_scale(), Some(Scale { key: 150 }));
    assert_eq!(state.new_global_scale(), None);
}

#[test]
fn popups_follow_a_change_of_scale() {
    let (mut state, parent, child) = with_popup();
    let output = state.spawn_entity();
    assert!(state.attach(output, OutputScaleFactor::Output(UNSCALED)));
    assert!(state.attach(parent, OnOutput { output }));
    assert!(state.attach(child, OnOutput { output }));
    state.updated_outputs = vec![output];
    let requests = state.handle_updated_outputs(&metrics());
    assert_eq!(requests.len(), 3);
    let popup = popup_of(&state, child);
    assert_eq!(popup.size, Size { width: 61, height: 1 });
    assert_eq!(popup.anchor_size, Size { width: 200, height: 160 });
    assert_eq!(popup.offset, Point { x: 20, y: 40 });
    assert_eq!(state.current_scale, UNSCALED);
}

#[test]
fn scale_stays_where_no_output_has_one() {
    let mut state = InnerServerState::new(environment());
    state.current_scale = DOUBLE;
    state.updated_outputs = vec![3];
    assert_eq!(state.handle_updated_outputs(&metrics()), vec![]);
    assert_eq!(state.current_scale, DOUBLE);
    assert_eq!(state.new_global_scale(), None);
    assert_eq!(state.updated_outputs, vec![]);
}

#[test]
fn role_needs_a_surface_and_a_window() {
    let mut state = InnerServerState::new(environment());
    assert!(state.has_room());
    assert!(!state.can_take_role(17));
    state.new_window(window(1), false, dims(0, 0, 1, 1), None, no_environ);
    let entity = state.entity_of(window(1)).unwrap();
    assert!(!state.can_take_role(entity));
    assert!(state.attach(entity, ClientSurface));
    assert!(state.can_take_role(entity));
    assert!(state.set_role(entity, SurfaceRole::Toplevel(None)));
    assert!(state.can_take_role(entity));
    assert!(state.set_role(entity, SurfaceRole::Popup(None)));
    assert!(!state.can_take_role(entity));
}

#[test]
fn popup_needs_an_active_parent() {
    let mut state = InnerServerState::new(environment());
    let parent = add(&mut state, 1, false, dims(0, 0, 80, 60), UNSCALED);
    let child = add(&mut state, 2, true, dims(5, 30, 8, 9), UNSCALED);
    state.last_hovered = Some(window(1));
    assert!(!state.can_take_role(child));
    state.create_role_window(parent, &metrics());
    assert!(state.can_take_role(child));
    assert!(state.detach::<SurfaceScaleFactor>(child).is_some());
    assert!(!state.can_take_role(child));
    assert!(state.attach(child, SurfaceScaleFactor { scale: DOUBLE }));
    state.last_hovered = Some(window(2));
    assert!(!state.can_take_role(child));
    state.last_hovered = Some(window(7));
    assert!(!state.can_take_role(child));
}

#[test]
fn nothing_due_is_nothing_done() {
    let (mut state, _, child) = with_popup();
    let before = popup_of(&state, child);
    assert_eq!(state.refresh_pending_popups(&metrics()), vec![]);
    assert_eq!(popup_of(&state, child), before);
}
