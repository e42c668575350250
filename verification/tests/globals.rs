use satellite::geometry::Scale;
use satellite::globals::{Advertisement, ServerGlobal};
use satellite::state::{Environment, Global, InnerServerState};
use satellite::world::{GlobalName, OutputDimensions, OutputScaleFactor, ServerOutput};

fn state() -> InnerServerState {
    InnerServerState::new(Environment {
        xdg_wm_base_version: 6,
        activation: true,
        decoration_manager: true,
        titlebar_height: 25,
        unscaled: Scale { key: 100 },
    })
}

fn global(name: u32, interface: &str, version: u32) -> Global {
    Global { name: GlobalName { name }, interface: interface.to_string(), version }
}

const KINDS: [(ServerGlobal, &str, u32); 11] = [
    (ServerGlobal::WlCompositor, "wl_compositor", 7),
    (ServerGlobal::WlShm, "wl_shm", 3),
    (ServerGlobal::WlSeat, "wl_seat", 11),
    (ServerGlobal::WlOutput, "wl_output", 4),
    (ServerGlobal::ZwpRelativePointerManagerV1, "zwp_relative_pointer_manager_v1", 1),
    (ServerGlobal::WlDrm, "wl_drm", 2),
    (ServerGlobal::ZwpLinuxDmabufV1, "zwp_linux_dmabuf_v1", 6),
    (ServerGlobal::ZxdgOutputManagerV1, "zxdg_output_manager_v1", 3),
    (ServerGlobal::ZwpPointerConstraintsV1, "zwp_pointer_constraints_v1", 1),
    (ServerGlobal::ZwpTabletManagerV2, "zwp_tablet_manager_v2", 2),
    (ServerGlobal::WpLinuxDrmSyncobjManagerV1, "wp_linux_drm_syncobj_manager_v1", 1),
];

#[test]
fn interfaces_have_their_names_and_versions() {
    for (kind, name, version) in KINDS {
        let interface = kind.interface();
        assert_eq!(interface.name, name);
        assert_eq!(interface.version, version);
        assert_eq!(ServerGlobal::of(&name.to_string()), Some(kind));
    }
    assert_eq!(ServerGlobal::of(&"xdg_wm_base".to_string()), None);
    assert_eq!(ServerGlobal::of(&String::new()), None);
}

#[test]
fn globals_are_offered_in_the_lower_version() {
    let mut state = state();
    let advertised = state.handle_new_globals(&vec![
        global(1, "wl_output", 2),
        global(2, "xdg_wm_base", 6),
        global(3, "wl_seat", 99),
    ]);
    assert_eq!(
        advertised,
        vec![
            Advertisement {
                name: GlobalName { name: 1 },
                kind: ServerGlobal::WlOutput,
                version: 2,
            },
            Advertisement {
                name: GlobalName { name: 3 },
                kind: ServerGlobal::WlSeat,
                version: 11,
            },
        ]
    );
    assert!(state.has_global(GlobalName { name: 1 }));
    assert!(!state.has_global(GlobalName { name: 2 }));
    assert!(state.has_global(GlobalName { name: 3 }));
}

#[test]
fn removed_globals_are_not_offered() {
    let mut state = state();
    let advertised = state.handle_globals(
        &vec![global(1, "wl_shm", 1), global(2, "wl_seat", 5)],
        &vec![GlobalName { name: 1 }],
    );
    assert_eq!(advertised.len(), 2);
    assert!(!state.has_global(GlobalName { name: 1 }));
    assert!(state.has_global(GlobalName { name: 2 }));
    assert_eq!(state.updated_outputs, vec![]);
}

#[test]
fn removed_output_global_removes_the_output() {
    let mut state = state();
    state.handle_globals(&vec![global(1, "wl_output", 4), global(2, "wl_output", 4)], &vec![]);
    let mut entities = Vec::new();
    for name in [1, 2] {
        let entity = state.spawn_entity();
        assert!(state.attach(entity, ServerOutput));
        assert!(state.attach(entity, GlobalName { name }));
        assert!(!state.output_is_complete(GlobalName { name }));
        assert!(state.attach(entity, OutputScaleFactor::Output(Scale { key: 100 })));
        assert!(!state.output_is_complete(GlobalName { name }));
        assert!(state
            .attach(entity, OutputDimensions { x: 0, y: 0, width: 10, height: 10 }));
        assert!(state.output_is_complete(GlobalName { name }));
        entities.push(entity);
    }
    assert!(state.output_is_complete(GlobalName { name: 3 }));
    state.handle_globals(&vec![], &vec![GlobalName { name: 2 }]);
    assert_eq!(state.updated_outputs, vec![entities[1]]);
    assert_eq!(state.component_of::<OutputScaleFactor>(entities[1]), None);
    assert!(state.component_of::<OutputScaleFactor>(entities[0]).is_some());
    assert!(!state.has_global(GlobalName { name: 2 }));
}
