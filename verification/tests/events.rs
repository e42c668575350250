use satellite::clientside::ServerState;
use satellite::connection::{NoConnection, XConnection};
use satellite::flush::{after_flush, after_poll, FlushStep, Flushed, Polled};
use satellite::geometry::{
    PendingSurfaceState, Point, Scale, Size, Window, WindowDims, WindowOutputOffset,
};
use satellite::globals::ServerGlobal;
use satellite::metrics::Metrics;
use satellite::request::Request;
use satellite::state::{
    Environment, FocusData, Global, GlobalOutputOffset, GlobalOutputOffsetDimension,
    PendingActivation,
};
use satellite::role::SurfaceRole;
use satellite::window::{WindowData, WindowRole};
use satellite::world::{
    ClientSurface, GlobalName, OnOutput, OutputDimensions, OutputScaleFactor, ServerOutput,
    SurfaceScaleFactor,
};

/// A connection that writes down what it is asked for.
struct Notes {
    notes: Vec<String>,
}

impl XConnection for Notes {
    type X11Selection = ();

    fn focus_window(&mut self, window: Window, output_name: Option<String>) {
        self.notes.push(format!("focus {} {:?}", window.id, output_name));
    }

    fn close_window(&mut self, window: Window) {
        self.notes.push(format!("close {}", window.id));
    }

    fn unmap_window(&mut self, window: Window) {
        self.notes.push(format!("unmap {}", window.id));
    }

    fn raise_to_top(&mut self, window: Window) {
        self.notes.push(format!("raise {}", window.id));
    }

    fn set_fullscreen(&mut self, window: Window, fullscreen: bool) {
        self.notes.push(format!("fullscreen {} {}", window.id, fullscreen));
    }

    fn set_window_dims(&mut self, window: Window, dims: PendingSurfaceState) -> bool {
        self.notes.push(format!(
            "dims {} {} {} {} {}",
            window.id, dims.x, dims.y, dims.width, dims.height
        ));
        true
    }
}

fn server() -> ServerState<Notes> {
    let environment = Environment {
        xdg_wm_base_version: 6,
        activation: true,
        decoration_manager: true,
        titlebar_height: 25,
        unscaled: Scale { key: 100 },
    };
    let (server, advertised) = ServerState::<NoConnection<()>>::new(environment, &vec![]);
    assert_eq!(advertised, vec![]);
    server.upgrade_connection(Notes { notes: Vec::new() })
}

fn divide(length: i32, scale: Scale) -> i32 {
    (length as i64 * 100 / scale.key) as i32
}

fn logical_size(width: u16, height: u16, scale: Scale) -> Size {
    Size { width: divide(width as i32, scale), height: divide(height as i32, scale) }
}

fn never(_: u64, _: i32) -> bool {
    false
}

type Plain = Metrics<fn(i32, Scale) -> i32, fn(u16, u16, Scale) -> Size, fn(u64, i32) -> bool>;

fn metrics() -> Plain {
    Metrics { divide, logical_size, draws_titlebar: never }
}

fn no_environ(_: u32) -> Option<Vec<u8>> {
    None
}

fn window(id: u32) -> Window {
    Window { id }
}

fn add(server: &mut ServerState<Notes>, id: u32) -> u64 {
    let dims = WindowDims { x: 1, y: 2, width: 3, height: 4 };
    server.inner.new_window(window(id), false, dims, None, no_environ);
    server.inner.entity_of(window(id)).unwrap()
}

fn output(server: &mut ServerState<Notes>, name: u32, x: i32, y: i32) -> u64 {
    let entity = server.inner.spawn_entity();
    assert!(server.inner.attach(entity, ServerOutput));
    assert!(server.inner.attach(entity, GlobalName { name }));
    assert!(server.inner.attach(entity, OutputDimensions { x, y, width: 100, height: 100 }));
    assert!(server.inner.attach(entity, OutputScaleFactor::Output(Scale { key: 100 })));
    entity
}

#[test]
fn new_server_offers_what_the_compositor_offers() {
    let environment = Environment {
        xdg_wm_base_version: 2,
        activation: false,
        decoration_manager: false,
        titlebar_height: 25,
        unscaled: Scale { key: 1 },
    };
    let seat = Global {
        name: GlobalName { name: 4 },
        interface: "wl_seat".to_string(),
        version: 3,
    };
    let (server, advertised) = ServerState::<NoConnection<()>>::new(environment, &vec![seat]);
    assert_eq!(advertised.len(), 1);
    assert_eq!(advertised[0].kind, ServerGlobal::WlSeat);
    assert_eq!(advertised[0].version, 3);
    assert!(server.inner.has_global(GlobalName { name: 4 }));
    assert_eq!(server.inner.current_scale, Scale { key: 1 });
    assert_eq!(server.inner.focus_restore_target(), window(0));
}

#[test]
fn pending_dimensions_are_applied_once() {
    let mut server = server();
    let entity = add(&mut server, 1);
    let loose = server.inner.spawn_entity();
    let state = PendingSurfaceState { x: 5, y: 6, width: 7, height: 8 };
    assert!(server.inner.attach(entity, state));
    assert!(server.inner.attach(loose, state));
    let (requests, outputs) = server.handle_clientside_events(&metrics());
    assert_eq!(requests, vec![]);
    assert_eq!(outputs, vec![]);
    assert_eq!(server.connection.notes, vec!["dims 1 5 6 7 8".to_string()]);
    assert_eq!(server.inner.component_of::<PendingSurfaceState>(entity), None);
    assert_eq!(server.inner.component_of::<PendingSurfaceState>(loose), Some(state));
    server.handle_clientside_events(&metrics());
    assert_eq!(server.connection.notes.len(), 1);
}

#[test]
fn origin_is_that_of_the_first_outputs() {
    let mut server = server();
    let one = output(&mut server, 1, -50, 30);
    let two = output(&mut server, 2, 10, -7);
    let (_, mut outputs) = server.handle_clientside_events(&metrics());
    outputs.sort();
    let mut expected = vec![one, two];
    expected.sort();
    assert_eq!(outputs, expected);
    assert_eq!(
        server.inner.global_output_offset,
        GlobalOutputOffset {
            x: GlobalOutputOffsetDimension { owner: Some(one), value: -50 },
            y: GlobalOutputOffsetDimension { owner: Some(two), value: -7 },
        }
    );
    assert!(!server.inner.global_offset_updated);
    assert_eq!(server.handle_clientside_events(&metrics()).1, vec![]);
    server.inner.global_offset_updated = true;
    assert_eq!(server.handle_clientside_events(&metrics()).1.len(), 2);
}

#[test]
fn origin_without_outputs_is_far_away() {
    let mut server = server();
    let (_, outputs) = server.handle_clientside_events(&metrics());
    assert_eq!(outputs, vec![]);
    assert_eq!(
        server.inner.global_output_offset.x,
        GlobalOutputOffsetDimension { owner: None, value: i32::MAX }
    );
}

#[test]
fn removed_output_is_left_by_all() {
    let mut server = server();
    let one = output(&mut server, 1, 0, 0);
    let two = output(&mut server, 2, 100, 0);
    server.handle_clientside_events(&metrics());
    let entity = add(&mut server, 1);
    assert!(server.inner.attach(entity, OnOutput { output: one }));
    let other = add(&mut server, 2);
    assert!(server.inner.attach(other, OnOutput { output: two }));
    server.inner.remove_output(GlobalName { name: 1 });
    assert_eq!(server.inner.component_of::<OnOutput>(entity), None);
    assert_eq!(server.inner.component_of::<OnOutput>(other), Some(OnOutput { output: two }));
    assert_eq!(server.inner.component_of::<OutputDimensions>(one), None);
    assert_eq!(server.inner.component_of::<OutputScaleFactor>(one), None);
    assert_eq!(server.inner.updated_outputs, vec![one]);
    assert_eq!(server.inner.global_output_offset.x.owner, None);
    assert!(server.inner.global_offset_updated);
    server.handle_clientside_events(&metrics());
    assert_eq!(
        server.inner.global_output_offset.x,
        GlobalOutputOffsetDimension { owner: Some(two), value: 100 }
    );
    server.inner.remove_output(GlobalName { name: 9 });
    assert_eq!(server.inner.updated_outputs, vec![one]);
}

#[test]
fn offset_moves_known_windows() {
    let mut server = server();
    let entity = add(&mut server, 1);
    server.update_output_offset(window(1), WindowOutputOffset { x: 10, y: 20 });
    assert_eq!(server.connection.notes, vec!["dims 1 11 22 3 4".to_string()]);
    let data = server.inner.component_of::<WindowData>(entity).unwrap();
    assert_eq!(data.attrs.dims, WindowDims { x: 11, y: 22, width: 3, height: 4 });
    server.update_output_offset(window(1), WindowOutputOffset { x: 10, y: 20 });
    server.update_output_offset(window(2), WindowOutputOffset { x: 10, y: 20 });
    assert_eq!(server.connection.notes.len(), 1);
}

#[test]
fn output_offset_moves_popups_with_their_parents() {
    let mut server = server();
    let parent = add(&mut server, 1);
    let child = add(&mut server, 2);
    server.inner.set_window_role(window(2), WindowRole::Popup);
    server.inner.last_hovered = Some(window(1));
    for entity in [parent, child] {
        assert!(server.inner.attach(entity, ClientSurface));
        assert!(server.inner.attach(entity, SurfaceScaleFactor { scale: Scale { key: 100 } }));
        server.inner.create_role_window(entity, &metrics());
    }
    server.inner.map_window(window(2));
    for id in [1, 2] {
        server.update_output_offset(window(id), WindowOutputOffset { x: 100, y: 30 });
    }
    let dims = WindowDims { x: 111, y: 37, width: 3, height: 4 };
    assert_eq!(server.inner.reconfigure_window(window(2), dims, &metrics()).len(), 1);
    match server.inner.component_of::<SurfaceRole>(child) {
        Some(SurfaceRole::Popup(Some(popup))) => {
            assert_eq!(popup.offset, Point { x: 10, y: 5 })
        }
        other => panic!("no popup: {other:?}"),
    }
}

#[test]
fn focus_is_given_once() {
    let mut server = server();
    server.inner.to_focus = Some(FocusData {
        window: window(3),
        output_name: Some("DP-1".to_string()),
        is_popup: false,
    });
    server.inner.unfocus = true;
    assert_eq!(server.finish_clientside_events(&metrics()), vec![]);
    assert_eq!(server.connection.notes, vec!["focus 3 Some(\"DP-1\")".to_string()]);
    assert_eq!(server.inner.focus_restore_target(), window(3));
    assert!(!server.inner.unfocus);
    server.finish_clientside_events(&metrics());
    assert_eq!(server.connection.notes.len(), 1);
}

#[test]
fn focused_popups_are_not_restored() {
    let mut server = server();
    server.inner.last_focused_toplevel = Some(window(1));
    server.inner.to_focus =
        Some(FocusData { window: window(3), output_name: None, is_popup: true });
    server.finish_clientside_events(&metrics());
    assert_eq!(server.inner.focus_restore_target(), window(1));
}

#[test]
fn focus_is_taken_from_all() {
    let mut server = server();
    server.inner.unfocus = true;
    server.finish_clientside_events(&metrics());
    assert_eq!(server.connection.notes, vec!["focus 0 None".to_string()]);
}

#[test]
fn smallest_scale_is_chosen() {
    let mut server = server();
    for key in [300, 150, 200] {
        let entity = server.inner.spawn_entity();
        assert!(server.inner.attach(entity, OutputScaleFactor::Output(Scale { key })));
        server.inner.updated_outputs.push(entity);
    }
    server.finish_clientside_events(&metrics());
    assert_eq!(server.inner.new_global_scale(), Some(Scale { key: 150 }));
}

#[test]
fn closed_window_is_forgotten() {
    let mut server = server();
    server.inner.last_focused_toplevel = Some(window(1));
    server.inner.last_hovered = Some(window(2));
    server.close_x_window(window(1));
    assert_eq!(server.connection.notes, vec!["close 1".to_string()]);
    assert_eq!(server.inner.last_focused_toplevel, None);
    assert_eq!(server.inner.last_hovered, Some(window(2)));
}

#[test]
fn activations_wait_for_a_surface() {
    let mut server = server();
    let entity = add(&mut server, 1);
    add(&mut server, 2);
    assert!(server.inner.attach(entity, ClientSurface));
    for (id, token) in [(2, "two"), (1, "one"), (9, "nine")] {
        server
            .inner
            .pending_activations
            .push(PendingActivation { window: window(id), token: token.to_string() });
    }
    assert_eq!(
        server.inner.handle_activations(),
        vec![Request::Activate { entity, activation_token: "one".to_string() }]
    );
    let left: Vec<u32> =
        server.inner.pending_activations.iter().map(|pending| pending.window.id).collect();
    assert_eq!(left, vec![2, 9]);
    assert_eq!(server.inner.handle_activations(), vec![]);
    assert_eq!(server.inner.pending_activations.len(), 2);
}

#[test]
fn flushing_waits_once() {
    assert_eq!(after_flush(Flushed::Sent, false), FlushStep::Finish);
    assert_eq!(after_flush(Flushed::WouldBlock, false), FlushStep::Wait { millis: 50 });
    assert_eq!(after_flush(Flushed::WouldBlock, true), FlushStep::Abort);
    assert_eq!(after_flush(Flushed::Failed, false), FlushStep::Abort);
    assert_eq!(after_flush(Flushed::Sent, true), FlushStep::Finish);
    assert_eq!(after_poll(Polled::Ready), FlushStep::Retry);
    assert_eq!(after_poll(Polled::TimedOut), FlushStep::Postpone);
    assert_eq!(after_poll(Polled::Failed), FlushStep::Postpone);
}
