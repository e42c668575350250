use satellite::geometry::{
    Area, PendingSurfaceState, Point, Scale, Size, Window, WindowDims, WindowOutputOffset,
};
use satellite::connection::{NoConnection, XConnection};
use satellite::metrics::Metrics;
use satellite::request::{ConstraintAdjustment, Corner, Positioner, Request};
use satellite::role::{
    popup_anchor, set_up_positioner, DecorationsData, PendingAnchor, PopupData, SurfaceRole,
    ToplevelData, XdgSurfaceData,
};
use satellite::window::{Decorations, WindowData, WindowRole, WmName};

fn popup() -> PopupData {
    PopupData {
        xdg: XdgSurfaceData::new(),
        parent: 7,
        size: Size { width: 10, height: 20 },
        offset: Point { x: 1, y: 2 },
        anchor_origin: Point { x: 0, y: 25 },
        anchor_size: Size { width: 100, height: 200 },
        parent_size: None,
        parent_configure: None,
        configure_anchor: Point { x: 0, y: 25 },
        pending_anchors: Vec::new(),
        next_reposition_token: 1,
    }
}

fn toplevel(wl: bool, satellite: bool) -> ToplevelData {
    ToplevelData {
        xdg: XdgSurfaceData::new(),
        fullscreen: false,
        decoration: DecorationsData { wl, satellite },
    }
}

#[test]
fn positioner_is_told_everything() {
    let positioner = set_up_positioner(
        Size { width: 3, height: 4 },
        Point { x: -1, y: 5 },
        Area { origin: Point { x: 0, y: 25 }, size: Size { width: 30, height: 40 } },
        Some(Size { width: 30, height: 65 }),
        Some(12),
    );
    assert_eq!(
        positioner,
        Positioner {
            size: Size { width: 3, height: 4 },
            offset: Point { x: -1, y: 5 },
            anchor: Corner::TopLeft,
            gravity: Corner::BottomRight,
            anchor_origin: Point { x: 0, y: 25 },
            anchor_size: Size { width: 30, height: 40 },
            constraint_adjustment: ConstraintAdjustment { slide_x: true, slide_y: true },
            parent_size: Some(Size { width: 30, height: 65 }),
            parent_configure: Some(12),
        }
    );
}

#[test]
fn repositions_are_counted_and_remembered() {
    let mut popup = popup();
    let expected = popup.configure_positioner();
    assert_eq!(
        popup.reposition(5),
        Request::Reposition { entity: 5, positioner: expected, token: 1 }
    );
    popup.anchor_origin = Point { x: 0, y: 0 };
    popup.reposition(5);
    assert_eq!(popup.next_reposition_token, 3);
    assert_eq!(
        popup.pending_anchors,
        vec![
            PendingAnchor { token: 1, origin: Point { x: 0, y: 25 } },
            PendingAnchor { token: 2, origin: Point { x: 0, y: 0 } },
        ]
    );
}

#[test]
fn tokens_wrap_around() {
    let mut popup = popup();
    popup.next_reposition_token = u32::MAX;
    popup.reposition(5);
    assert_eq!(popup.next_reposition_token, 0);
}

#[test]
fn an_answer_drops_earlier_repositions() {
    let mut popup = popup();
    for y in 1..4 {
        popup.anchor_origin = Point { x: 0, y };
        popup.reposition(5);
    }
    popup.repositioned(2);
    assert_eq!(popup.configure_anchor, Point { x: 0, y: 2 });
    assert_eq!(
        popup.pending_anchors,
        vec![PendingAnchor { token: 3, origin: Point { x: 0, y: 3 } }]
    );
    popup.repositioned(1);
    assert_eq!(popup.configure_anchor, Point { x: 0, y: 2 });
    assert_eq!(popup.pending_anchors.len(), 1);
    popup.repositioned(3);
    assert_eq!(popup.configure_anchor, Point { x: 0, y: 3 });
    assert_eq!(popup.pending_anchors, vec![]);
}

#[test]
fn anchor_lies_below_the_titlebar() {
    let metrics = Metrics {
        divide: |length: i32, _: Scale| length,
        logical_size: |width: u16, height: u16, _: Scale| Size {
            width: width as i32 / 2,
            height: height as i32 / 2,
        },
        draws_titlebar: |toplevel: u64, width: i32| toplevel == 9 && width == 50,
    };
    let dims = WindowDims { x: 0, y: 0, width: 100, height: 60 };
    let scale = Scale { key: 2 };
    let size = Size { width: 50, height: 30 };
    let role: SurfaceRole = SurfaceRole::Toplevel(Some(toplevel(false, true)));
    let below = Area { origin: Point { x: 0, y: 25 }, size };
    let plain = Area { origin: Point { x: 0, y: 0 }, size };
    assert_eq!(popup_anchor(9, &role, dims, scale, 25, &metrics), below);
    assert_eq!(popup_anchor(8, &role, dims, scale, 25, &metrics), plain);
    let role: SurfaceRole = SurfaceRole::Toplevel(Some(toplevel(true, false)));
    assert_eq!(popup_anchor(9, &role, dims, scale, 25, &metrics), plain);
    let role: SurfaceRole = SurfaceRole::Popup(Some(popup()));
    assert_eq!(popup_anchor(9, &role, dims, scale, 25, &metrics), plain);
}

#[test]
fn xdg_surface_is_that_of_the_role() {
    let mut role: SurfaceRole = SurfaceRole::Toplevel(Some(toplevel(true, false)));
    assert_eq!(role.xdg(), Some(&XdgSurfaceData { configured: false, pending: None }));
    role.xdg_mut().unwrap().configured = true;
    assert!(role.xdg().unwrap().configured);
    let mut role: SurfaceRole = SurfaceRole::Popup(Some(popup()));
    let state = PendingSurfaceState { x: 1, y: 2, width: 3, height: 4 };
    role.xdg_mut().unwrap().pending = Some(state);
    assert_eq!(role.xdg().unwrap().pending, Some(state));
    let mut role: SurfaceRole = SurfaceRole::Popup(None);
    assert_eq!(role.xdg(), None);
    assert!(role.xdg_mut().is_none());
    let mut role: SurfaceRole = SurfaceRole::Toplevel(None);
    assert_eq!(role.xdg(), None);
    assert!(role.xdg_mut().is_none());
}

#[test]
fn roles_are_taken_down_from_the_outside_in() {
    let mut role: SurfaceRole = SurfaceRole::Toplevel(Some(toplevel(true, true)));
    assert_eq!(
        role.destroy(3),
        vec![
            Request::DestroyDecoration { entity: 3 },
            Request::DestroyToplevel { entity: 3 },
            Request::DestroyXdgSurface { entity: 3 },
        ]
    );
    assert_eq!(role, SurfaceRole::Toplevel(Some(toplevel(false, true))));
    let mut role: SurfaceRole = SurfaceRole::Toplevel(Some(toplevel(false, false)));
    assert_eq!(
        role.destroy(3),
        vec![Request::DestroyToplevel { entity: 3 }, Request::DestroyXdgSurface { entity: 3 }]
    );
    let mut role: SurfaceRole = SurfaceRole::Popup(Some(popup()));
    assert_eq!(
        role.destroy(3),
        vec![
            Request::DestroyPositioner { entity: 3 },
            Request::DestroyPopup { entity: 3 },
            Request::DestroyXdgSurface { entity: 3 },
        ]
    );
    let mut role: SurfaceRole = SurfaceRole::Popup(None);
    assert_eq!(role.destroy(3), vec![]);
}

#[test]
fn offset_moves_the_window_and_back() {
    let mut connection: NoConnection<()> = NoConnection::new();
    let dims = WindowDims { x: 10, y: 20, width: 30, height: 40 };
    let mut data: WindowData = WindowData::new(false, dims, None);
    let window = Window { id: 1 };
    data.update_output_offset(window, WindowOutputOffset { x: 100, y: -5 }, &mut connection);
    assert_eq!(data.attrs.dims, WindowDims { x: 110, y: 15, ..dims });
    assert_eq!(data.output_offset, WindowOutputOffset { x: 100, y: -5 });
    data.update_output_offset(window, WindowOutputOffset { x: 70000, y: 1 }, &mut connection);
    assert_eq!(data.attrs.dims, WindowDims { x: 4474, y: 21, ..dims });
    data.update_output_offset(window, WindowOutputOffset { x: 0, y: 0 }, &mut connection);
    assert_eq!(data.attrs.dims, dims);
}

#[test]
fn offsets_compose() {
    let mut connection: NoConnection<()> = NoConnection::new();
    let dims = WindowDims { x: -3, y: 9, width: 1, height: 1 };
    let window = Window { id: 1 };
    let mut one: WindowData = WindowData::new(true, dims, None);
    let mut two: WindowData = WindowData::new(true, dims, None);
    one.update_output_offset(window, WindowOutputOffset { x: 7, y: 8 }, &mut connection);
    one.update_output_offset(window, WindowOutputOffset { x: -20, y: 300 }, &mut connection);
    two.update_output_offset(window, WindowOutputOffset { x: -20, y: 300 }, &mut connection);
    assert_eq!(one, two);
}

#[test]
fn without_a_connection_nothing_is_done() {
    let mut connection: NoConnection<()> = NoConnection::new();
    let window = Window { id: 1 };
    connection.focus_window(window, Some("out".to_string()));
    connection.close_window(window);
    connection.unmap_window(window);
    connection.raise_to_top(window);
    connection.set_fullscreen(window, true);
    assert!(!connection.set_window_dims(window, PendingSurfaceState::default()));
}

#[test]
fn basic_roles_and_names() {
    assert_eq!(WindowRole::new_basic(true), WindowRole::Popup);
    assert_eq!(WindowRole::new_basic(false), WindowRole::Normal);
    assert!(WindowRole::Popup.is_popup());
    assert!(!WindowRole::Splash.is_popup());
    assert!(!WindowRole::Normal.is_popup());
    assert!(Decorations::Server.is_serverside());
    assert!(!Decorations::Client.is_serverside());
    assert_eq!(WmName::WmName("a".to_string()).name(), "a");
    assert_eq!(WmName::NetWmName("b".to_string()).name(), "b");
}
