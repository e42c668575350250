use satellite::geometry::{PendingSurfaceState, Scale, Size, Window, WindowDims, WindowOutputOffset};
use satellite::metrics::Metrics;
use satellite::request::{LastClickSerial, Request, ResizeEdge};
use satellite::role::{DecorationsData, SurfaceRole, ToplevelData, XdgSurfaceData};
use satellite::state::{Environment, InnerServerState};
use satellite::window::{
    Decorations, MoveResizeDirection, SetState, WindowData, WindowRole, WmHints, WmName,
    WmNormalHints,
};
use satellite::world::{ClientSurface, ServerSurface, SurfaceScaleFactor, SurfaceSerial};

const UNSCALED: Scale = Scale { key: 100 };
const DOUBLE: Scale = Scale { key: 200 };

fn environment() -> Environment {
    Environment {
        xdg_wm_base_version: 6,
        activation: true,
        decoration_manager: true,
        titlebar_height: 25,
        unscaled: UNSCALED,
    }
}

fn no_environ(_: u32) -> Option<Vec<u8>> {
    None
}

fn window(id: u32) -> Window {
    Window { id }
}

fn dims(x: i16, y: i16, width: u16, height: u16) -> WindowDims {
    WindowDims { x, y, width, height }
}

fn toplevel(wl: bool, satellite: bool, fullscreen: bool) -> SurfaceRole {
    SurfaceRole::Toplevel(Some(ToplevelData {
        xdg: XdgSurfaceData::new(),
        fullscreen,
        decoration: DecorationsData { wl, satellite },
    }))
}

/// A server with one mapped window, whose role is the given one, and the window's entity.
fn with_window(role: Option<SurfaceRole>) -> (InnerServerState, u64) {
    let mut state = InnerServerState::new(environment());
    state.new_window(window(1), false, dims(10, 20, 300, 200), None, no_environ);
    state.map_window(window(1));
    let entity = state.entity_of(window(1)).unwrap();
    if let Some(role) = role {
        assert!(state.set_role(entity, role));
    }
    (state, entity)
}

fn data(state: &InnerServerState, id: u32) -> WindowData {
    let entity = state.entity_of(window(id)).unwrap();
    state.component_of::<WindowData>(entity).unwrap()
}

#[test]
fn new_window_is_known_and_plain() {
    let mut state = InnerServerState::new(environment());
    assert_eq!(state.entity_of(window(1)), None);
    state.new_window(window(1), true, dims(-5, 7, 30, 40), None, no_environ);
    let data = data(&state, 1);
    assert!(!data.mapped);
    assert_eq!(data.attrs.role, WindowRole::Popup);
    assert_eq!(data.attrs.dims, dims(-5, 7, 30, 40));
    assert_eq!(data.output_offset, WindowOutputOffset { x: 0, y: 0 });
    assert_eq!(data.activation_token, None);
    assert_eq!(data.attrs.title, None);
    let entity = state.entity_of(window(1)).unwrap();
    assert_eq!(state.component_of::<Window>(entity), Some(window(1)));
}

#[test]
fn new_window_takes_token_from_environment() {
    let mut state = InnerServerState::new(environment());
    let environ = b"HOME=/\0XDG_ACTIVATION_TOKEN=abc\0A=b\0".to_vec();
    state.new_window(window(1), false, dims(0, 0, 1, 1), Some(7), |_: u32| Some(environ.clone()));
    assert_eq!(data(&state, 1).activation_token.as_deref(), Some("abc"));
    assert_eq!(data(&state, 1).attrs.role, WindowRole::Normal);
}

#[test]
fn only_the_first_window_of_a_process_has_a_token() {
    let mut state = InnerServerState::new(environment());
    let read = |pid: u32| match pid {
        7 => Some(b"XDG_ACTIVATION_TOKEN=seven\0".to_vec()),
        8 => Some(b"HOME=/\0".to_vec()),
        _ => None,
    };
    let at = dims(0, 0, 1, 1);
    for (id, pid) in [(1, Some(7)), (2, Some(7)), (3, Some(8)), (4, Some(9)), (5, None)] {
        state.new_window(window(id), false, at, pid, read);
    }
    assert_eq!(data(&state, 1).activation_token.as_deref(), Some("seven"));
    for id in 2..=5 {
        assert_eq!(data(&state, id).activation_token, None);
    }
}

#[test]
fn windows_have_entities_of_their_own() {
    let mut state = InnerServerState::new(environment());
    state.new_window(window(1), false, dims(0, 0, 1, 1), None, no_environ);
    state.new_window(window(2), false, dims(0, 0, 2, 2), None, no_environ);
    assert_ne!(state.entity_of(window(1)), state.entity_of(window(2)));
    state.set_window_role(window(1), WindowRole::Splash);
    assert_eq!(data(&state, 1).attrs.role, WindowRole::Splash);
    assert_eq!(data(&state, 2).attrs.role, WindowRole::Normal);
}

#[test]
fn destroyed_window_leaves_no_trace() {
    let (mut state, entity) = with_window(None);
    state.destroy_window(window(1));
    assert_eq!(state.entity_of(window(1)), None);
    assert!(!state.contains(entity));
    state.destroy_window(window(1));
    assert!(!state.contains(entity));
}

#[test]
fn destroyed_window_leaves_its_surface() {
    let (mut state, entity) = with_window(None);
    assert!(state.attach(entity, ServerSurface));
    state.destroy_window(window(1));
    assert!(state.contains(entity));
    assert_eq!(state.component_of::<WindowData>(entity), None);
    assert_eq!(state.component_of::<Window>(entity), None);
    assert_eq!(state.component_of::<ServerSurface>(entity), Some(ServerSurface));
    assert_eq!(state.detach::<ServerSurface>(entity), Some(ServerSurface));
    assert_eq!(state.detach::<ServerSurface>(entity), None);
}

#[test]
fn nothing_can_be_attached_to_a_stale_entity() {
    let (mut state, entity) = with_window(None);
    state.destroy_window(window(1));
    assert!(!state.attach(entity, ClientSurface));
    assert_eq!(state.detach::<ClientSurface>(entity), None);
    let fresh = state.spawn_entity();
    assert!(state.contains(fresh));
    assert_ne!(fresh, entity);
}

#[test]
fn unknown_windows_are_ignored() {
    let (mut state, _) = with_window(None);
    state.set_window_role(window(9), WindowRole::Popup);
    assert_eq!(state.set_win_title(window(9), WmName::WmName("x".to_string())), vec![]);
    assert_eq!(state.set_win_class(window(9), "x".to_string()), vec![]);
    state.set_win_hints(window(9), WmHints { window_group: None, acquire_input_via_wm: true });
    state.set_take_focus(window(9), true);
    assert_eq!(
        state.set_size_hints(window(9), WmNormalHints { min_size: None, max_size: None }),
        vec![]
    );
    assert_eq!(state.set_win_decorations(window(9), Decorations::Client), vec![]);
    state.set_window_serial(window(9), [1, 2]);
    state.map_window(window(9));
    assert_eq!(state.unmap_window(window(9)), vec![]);
    state.set_transient_for(window(9), window(1));
    assert_eq!(state.set_fullscreen(window(9), SetState::Add), vec![]);
    assert_eq!(state.move_window(window(9)), vec![]);
    assert_eq!(state.resize_window(window(9), MoveResizeDirection::Cancel), vec![]);
    assert!(state.can_change_position(window(9)));
    assert_eq!(state.entity_of(window(9)), None);
}

#[test]
fn net_wm_name_is_not_replaced_by_wm_name() {
    let (mut state, entity) = with_window(Some(toplevel(true, false, false)));
    assert_eq!(
        state.set_win_title(window(1), WmName::WmName("plain".to_string())),
        vec![Request::SetTitle { entity, title: "plain".to_string() }]
    );
    assert_eq!(
        state.set_win_title(window(1), WmName::NetWmName("net".to_string())),
        vec![Request::SetTitle { entity, title: "net".to_string() }]
    );
    assert_eq!(state.set_win_title(window(1), WmName::WmName("late".to_string())), vec![]);
    assert_eq!(data(&state, 1).attrs.title, Some(WmName::NetWmName("net".to_string())));
    assert_eq!(
        state.set_win_title(window(1), WmName::NetWmName("newer".to_string())),
        vec![Request::SetTitle { entity, title: "newer".to_string() }]
    );
}

#[test]
fn title_is_drawn_where_the_server_decorates() {
    let (mut state, entity) = with_window(Some(toplevel(false, true, false)));
    assert_eq!(
        state.set_win_title(window(1), WmName::WmName("t".to_string())),
        vec![
            Request::SetTitle { entity, title: "t".to_string() },
            Request::DrawTitle { entity, title: "t".to_string() },
        ]
    );
}

#[test]
fn title_without_role_is_only_noted() {
    let (mut state, _) = with_window(None);
    assert_eq!(state.set_win_title(window(1), WmName::WmName("t".to_string())), vec![]);
    assert_eq!(data(&state, 1).attrs.title_name().as_deref(), Some("t"));
}

#[test]
fn class_is_told_as_app_id() {
    let (mut state, entity) = with_window(Some(toplevel(false, false, false)));
    assert_eq!(
        state.set_win_class(window(1), "app".to_string()),
        vec![Request::SetAppId { entity, app_id: "app".to_string() }]
    );
    assert_eq!(data(&state, 1).attrs.class.as_deref(), Some("app"));
}

#[test]
fn hints_set_group_and_input_model() {
    let (mut state, _) = with_window(None);
    state.set_win_hints(
        window(1),
        WmHints { window_group: Some(window(5)), acquire_input_via_wm: true },
    );
    let attrs = data(&state, 1).attrs;
    assert_eq!(attrs.group, Some(window(5)));
    assert!(attrs.require_wm_focus());
    state.set_take_focus(window(1), true);
    assert!(!data(&state, 1).attrs.require_wm_focus());
}

#[test]
fn same_size_hints_are_told_once() {
    let (mut state, entity) = with_window(Some(toplevel(true, false, false)));
    assert!(state.attach(entity, SurfaceScaleFactor { scale: DOUBLE }));
    let hints = WmNormalHints { min_size: Some(Size { width: 10, height: 20 }), max_size: None };
    assert_eq!(
        state.set_size_hints(window(1), hints),
        vec![Request::UpdateSizeHints { entity, hints, scale: DOUBLE }]
    );
    assert_eq!(state.set_size_hints(window(1), hints), vec![]);
    let other = WmNormalHints { min_size: None, max_size: None };
    assert_eq!(state.set_size_hints(window(1), other).len(), 1);
    assert_eq!(data(&state, 1).attrs.size_hints, Some(other));
}

#[test]
fn size_hints_without_scale_are_only_noted() {
    let (mut state, _) = with_window(Some(toplevel(true, false, false)));
    let hints = WmNormalHints { min_size: None, max_size: Some(Size { width: 1, height: 1 }) };
    assert_eq!(state.set_size_hints(window(1), hints), vec![]);
    assert_eq!(data(&state, 1).attrs.size_hints, Some(hints));
}

#[test]
fn same_decorations_are_told_once() {
    let (mut state, entity) = with_window(Some(toplevel(true, false, false)));
    assert_eq!(
        state.set_win_decorations(window(1), Decorations::Client),
        vec![Request::SetDecorationMode { entity, mode: Decorations::Client }]
    );
    assert_eq!(state.set_win_decorations(window(1), Decorations::Client), vec![]);
    assert_eq!(state.set_win_decorations(window(1), Decorations::Server).len(), 1);
}

#[test]
fn decorations_are_told_to_the_compositor_only() {
    let (mut state, _) = with_window(Some(toplevel(false, true, false)));
    assert_eq!(state.set_win_decorations(window(1), Decorations::Client), vec![]);
    assert_eq!(data(&state, 1).attrs.decorations, Some(Decorations::Client));
}

#[test]
fn serial_is_kept_with_the_window() {
    let (mut state, entity) = with_window(None);
    state.set_window_serial(window(1), [3, 4]);
    assert_eq!(
        state.component_of::<SurfaceSerial>(entity),
        Some(SurfaceSerial { serial: [3, 4] })
    );
}

#[test]
fn mapped_windows_keep_their_position_unless_popups() {
    let mut state = InnerServerState::new(environment());
    state.new_window(window(1), false, dims(0, 0, 1, 1), None, no_environ);
    assert!(state.can_change_position(window(1)));
    state.map_window(window(1));
    assert!(!state.can_change_position(window(1)));
    state.set_window_role(window(1), WindowRole::Popup);
    assert!(state.can_change_position(window(1)));
}

#[test]
fn unmapping_takes_the_role_down() {
    let (mut state, entity) = with_window(Some(toplevel(true, false, false)));
    state.last_focused_toplevel = Some(window(1));
    state.last_hovered = Some(window(1));
    assert_eq!(state.focus_restore_target(), window(1));
    assert_eq!(
        state.unmap_window(window(1)),
        vec![
            Request::DestroyDecoration { entity },
            Request::DestroyToplevel { entity },
            Request::DestroyXdgSurface { entity },
        ]
    );
    assert!(!data(&state, 1).mapped);
    assert_eq!(state.component_of::<SurfaceRole>(entity), None);
    assert_eq!(state.focus_restore_target(), Window::none());
    assert_eq!(state.last_hovered, None);
    assert_eq!(state.unmap_window(window(1)), vec![]);
    assert!(state.can_change_position(window(1)));
}

#[test]
fn unmapping_leaves_focus_of_other_windows() {
    let (mut state, _) = with_window(None);
    state.last_focused_toplevel = Some(window(2));
    state.last_hovered = Some(window(3));
    assert_eq!(state.unmap_window(window(1)), vec![]);
    assert_eq!(state.focus_restore_target(), window(2));
    assert_eq!(state.last_hovered, Some(window(3)));
}

#[test]
fn fullscreen_is_added_removed_and_toggled() {
    let (state, entity) = with_window(Some(toplevel(true, false, false)));
    assert_eq!(
        state.set_fullscreen(window(1), SetState::Add),
        vec![Request::SetFullscreen { entity }]
    );
    assert_eq!(
        state.set_fullscreen(window(1), SetState::Remove),
        vec![Request::UnsetFullscreen { entity }]
    );
    assert_eq!(
        state.set_fullscreen(window(1), SetState::Toggle),
        vec![Request::SetFullscreen { entity }]
    );
    let (state, entity) = with_window(Some(toplevel(true, false, true)));
    assert_eq!(
        state.set_fullscreen(window(1), SetState::Toggle),
        vec![Request::UnsetFullscreen { entity }]
    );
    let (state, _) = with_window(Some(SurfaceRole::Toplevel(None)));
    assert_eq!(state.set_fullscreen(window(1), SetState::Add), vec![]);
}

#[test]
fn move_and_resize_start_at_the_last_click() {
    let (mut state, entity) = with_window(Some(toplevel(true, false, false)));
    assert_eq!(state.move_window(window(1)), vec![]);
    let click = LastClickSerial { seat: 4, serial: 77 };
    assert!(state.attach(entity, click));
    assert_eq!(state.move_window(window(1)), vec![Request::Move { entity, click }]);
    let edges = [
        (MoveResizeDirection::SizeTopLeft, ResizeEdge::TopLeft),
        (MoveResizeDirection::SizeTop, ResizeEdge::Top),
        (MoveResizeDirection::SizeTopRight, ResizeEdge::TopRight),
        (MoveResizeDirection::SizeRight, ResizeEdge::Right),
        (MoveResizeDirection::SizeBottomRight, ResizeEdge::BottomRight),
        (MoveResizeDirection::SizeBottom, ResizeEdge::Bottom),
        (MoveResizeDirection::SizeBottomLeft, ResizeEdge::BottomLeft),
        (MoveResizeDirection::SizeLeft, ResizeEdge::Left),
    ];
    for (direction, edge) in edges {
        assert_eq!(
            state.resize_window(window(1), direction),
            vec![Request::Resize { entity, click, edge }]
        );
    }
    assert_eq!(MoveResizeDirection::Move.edge(), None);
    assert_eq!(MoveResizeDirection::MoveKeyboard.edge(), None);
    assert_eq!(MoveResizeDirection::SizeKeyboard.edge(), None);
    assert_eq!(MoveResizeDirection::Cancel.edge(), None);
}

#[test]
fn token_is_requested_for_the_focused_toplevel() {
    let (mut state, entity) = with_window(Some(toplevel(true, false, false)));
    state.set_win_class(window(1), "app".to_string());
    assert_eq!(state.activate_window(window(2)), vec![]);
    state.last_focused_toplevel = Some(window(1));
    assert_eq!(state.activate_window(window(2)), vec![]);
    assert!(state.attach(entity, ClientSurface));
    state.last_kb_serial = Some(LastClickSerial { seat: 1, serial: 2 });
    assert_eq!(
        state.activate_window(window(2)),
        vec![Request::RequestActivationToken {
            entity,
            window: window(2),
            for_app: Some("app".to_string()),
            seat_and_serial: Some(LastClickSerial { seat: 1, serial: 2 }),
        }]
    );
    state.last_focused_toplevel = Some(window(9));
    assert_eq!(state.activate_window(window(2)), vec![]);
}

#[test]
fn no_token_is_requested_without_activation() {
    let mut state = InnerServerState::new(Environment { activation: false, ..environment() });
    state.new_window(window(1), false, dims(0, 0, 1, 1), None, no_environ);
    let entity = state.entity_of(window(1)).unwrap();
    assert!(state.attach(entity, ClientSurface));
    state.last_focused_toplevel = Some(window(1));
    assert_eq!(state.activate_window(window(2)), vec![]);
}

#[test]
fn transient_parent_is_noted() {
    let (mut state, _) = with_window(None);
    state.set_transient_for(window(1), window(3));
    assert_eq!(data(&state, 1).attrs.transient_for, Some(window(3)));
}

#[test]
fn reconfigured_toplevel_takes_the_size_only() {
    let (mut state, entity) = with_window(Some(toplevel(true, false, false)));
    assert!(state.attach(entity, SurfaceScaleFactor { scale: UNSCALED }));
    let metrics = Metrics {
        divide: |length: i32, scale: Scale| (length as i64 * 100 / scale.key) as i32,
        logical_size: |width: u16, height: u16, scale: Scale| Size {
            width: (width as i64 * 100 / scale.key) as i32,
            height: (height as i64 * 100 / scale.key) as i32,
        },
        draws_titlebar: |_: u64, _: i32| true,
    };
    assert_eq!(state.reconfigure_window(window(1), dims(10, 20, 300, 200), &metrics), vec![]);
    assert_eq!(
        state.reconfigure_window(window(1), dims(50, 60, 640, 480), &metrics),
        vec![Request::UpdateViewport { entity }]
    );
    assert_eq!(data(&state, 1).attrs.dims, dims(10, 20, 640, 480));
    assert_eq!(state.pending_popup_refresh, vec![entity]);
    assert_eq!(state.reconfigure_window(window(9), dims(0, 0, 1, 1), &metrics), vec![]);
}

#[test]
fn reconfigured_window_that_is_not_mapped_takes_all() {
    let mut state = InnerServerState::new(environment());
    state.new_window(window(1), false, dims(0, 0, 1, 1), None, no_environ);
    let metrics = Metrics {
        divide: |length: i32, _: Scale| length,
        logical_size: |_: u16, _: u16, _: Scale| Size { width: 1, height: 1 },
        draws_titlebar: |_: u64, _: i32| false,
    };
    assert_eq!(state.reconfigure_window(window(1), dims(3, 4, 5, 6), &metrics), vec![]);
    assert_eq!(data(&state, 1).attrs.dims, dims(3, 4, 5, 6));
    state.map_window(window(1));
    assert_eq!(state.reconfigure_window(window(1), dims(7, 7, 7, 7), &metrics), vec![]);
    assert_eq!(data(&state, 1).attrs.dims, dims(3, 4, 5, 6));
}

#[test]
fn default_surface_state_is_zero() {
    assert_eq!(
        PendingSurfaceState::default(),
        PendingSurfaceState { x: 0, y: 0, width: 0, height: 0 }
    );
    assert_eq!(WindowOutputOffset::default(), WindowOutputOffset { x: 0, y: 0 });
}
