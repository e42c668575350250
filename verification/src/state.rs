//! The state of the server.
use crate::geometry::{Scale, Window};
use crate::request::LastClickSerial;
use crate::role::SurfaceRole;
use crate::window::WindowData;
use crate::world::{Attached, GlobalName, Row, Stored};
use hecs::World;
use std::collections::{HashMap, HashSet};
use vstd::prelude::*;

verus! {

broadcast use vstd::std_specs::hash::group_hash_axioms;

/// A global that the compositor offers.
#[derive(Clone, Debug, PartialEq, Eq)]
pub struct Global<T = String> {
    pub name: GlobalName,
    pub interface: T,
    pub version: u32,
}

impl View for Global {
    type V = Global<Seq<char>>;

    open spec fn view(&self) -> Global<Seq<char>> {
        Global { name: self.name, interface: self.interface@, version: self.version }
    }
}

impl DeepView for Global {
    type V = Global<Seq<char>>;

    open spec fn deep_view(&self) -> Global<Seq<char>> {
        self@
    }
}

/// A window that focus is to be given to.
#[derive(Clone, Debug, PartialEq, Eq)]
pub struct FocusData<T = String> {
    pub window: Window,
    pub output_name: Option<T>,
    pub is_popup: bool,
}

impl DeepView for FocusData {
    type V = FocusData<Seq<char>>;

    open spec fn deep_view(&self) -> FocusData<Seq<char>> {
        FocusData {
            window: self.window,
            output_name: self.output_name.deep_view(),
            is_popup: self.is_popup,
        }
    }
}

/// A window that is to be activated with a token.
#[derive(Clone, Debug, PartialEq, Eq)]
pub struct PendingActivation<T = String> {
    pub window: Window,
    pub token: T,
}

impl DeepView for PendingActivation {
    type V = PendingActivation<Seq<char>>;

    open spec fn deep_view(&self) -> PendingActivation<Seq<char>> {
        PendingActivation { window: self.window, token: self.token@ }
    }
}

/// One coordinate of the outputs' common origin, and the output that it comes from.
#[derive(Clone, Copy, Debug, PartialEq, Eq, Structural)]
pub struct GlobalOutputOffsetDimension {
    pub owner: Option<u64>,
    pub value: i32,
}

/// The common origin of all outputs.
#[derive(Clone, Copy, Debug, PartialEq, Eq, Structural)]
pub struct GlobalOutputOffset {
    pub x: GlobalOutputOffsetDimension,
    pub y: GlobalOutputOffsetDimension,
}

/// What the compositor offers, and how the server draws titlebars.
#[derive(Clone, Copy, Debug, PartialEq, Eq, Structural)]
pub struct Environment {
    /// The version of `xdg_wm_base`. Popups can be repositioned from version 3 on.
    pub xdg_wm_base_version: u32,
    /// Whether windows can be activated.
    pub activation: bool,
    /// Whether the compositor decides on decorations.
    pub decoration_manager: bool,
    /// The height of the titlebar that the server draws, in logical coordinates.
    pub titlebar_height: i32,
    /// The scale factor one.
    pub unscaled: Scale,
}

/// The state of the server, apart from its connection to the X server.
pub struct InnerServerState {
    pub(crate) world: World,
    pub(crate) windows: HashMap<u32, u64>,
    pub(crate) pids: HashSet<u32>,
    pub(crate) globals_map: HashMap<u32, Global>,
    pub(crate) environment: Environment,
    pub to_focus: Option<FocusData>,
    pub unfocus: bool,
    pub last_focused_toplevel: Option<Window>,
    pub last_hovered: Option<Window>,
    pub last_kb_serial: Option<LastClickSerial>,
    pub pending_activations: Vec<PendingActivation>,
    pub global_output_offset: GlobalOutputOffset,
    pub global_offset_updated: bool,
    pub updated_outputs: Vec<u64>,
    /// Toplevels whose logical geometry changed outside of a host configure; their popups are
    /// re-anchored when events have been handled.
    pub pending_popup_refresh: Vec<u64>,
    pub new_scale: Option<Scale>,
    pub current_scale: Scale,
}

/// The model of the server's state. `rows` are the entities and their components, and `windows`
/// gives the entity of each window by the window's id.
pub struct ServerModel {
    pub rows: Map<u64, Row>,
    pub windows: Map<u32, u64>,
    pub pids: Set<u32>,
    pub globals: Map<u32, Global<Seq<char>>>,
    pub environment: Environment,
    pub to_focus: Option<FocusData<Seq<char>>>,
    pub unfocus: bool,
    pub last_focused_toplevel: Option<Window>,
    pub last_hovered: Option<Window>,
    pub last_kb_serial: Option<LastClickSerial>,
    pub pending_activations: Seq<PendingActivation<Seq<char>>>,
    pub global_output_offset: GlobalOutputOffset,
    pub global_offset_updated: bool,
    pub updated_outputs: Seq<u64>,
    pub pending_popup_refresh: Seq<u64>,
    pub new_scale: Option<Scale>,
    pub current_scale: Scale,
}

impl View for InnerServerState {
    type V = ServerModel;

    open(crate) spec fn view(&self) -> ServerModel {
        ServerModel {
            rows: crate::world::rows(self.world),
            windows: self.windows@,
            pids: self.pids@,
            globals: self.globals_map@.map_values(|global: Global| global@),
            environment: self.environment,
            to_focus: self.to_focus.deep_view(),
            unfocus: self.unfocus,
            last_focused_toplevel: self.last_focused_toplevel,
            last_hovered: self.last_hovered,
            last_kb_serial: self.last_kb_serial,
            pending_activations: self.pending_activations.deep_view(),
            global_output_offset: self.global_output_offset,
            global_offset_updated: self.global_offset_updated,
            updated_outputs: self.updated_outputs@,
            pending_popup_refresh: self.pending_popup_refresh@,
            new_scale: self.new_scale,
            current_scale: self.current_scale,
        }
    }
}

/// Whether an entity carries the window of the given id, and its data.
pub open spec fn carries_window(rows: Map<u64, Row>, id: u32, entity: u64) -> bool {
    &&& rows.dom().contains(entity)
    &&& rows[entity].window == Some(Window { id })
    &&& rows[entity].data is Some
}

/// Whether each window's entity carries the window and its data, and entities carry nothing that
/// is not accounted for and are decorated by one side at most.
pub open spec fn tables_agree(rows: Map<u64, Row>, windows: Map<u32, u64>) -> bool {
    &&& rows.dom().finite()
    &&& forall|id: u32| #[trigger]
        windows.dom().contains(id) ==> carries_window(rows, id, windows[id])
    &&& forall|entity: u64| #[trigger]
        rows.dom().contains(entity) ==> rows[entity].others == 0 && rows[entity].decorated_once()
}

/// The tables still agree when a row is replaced by one with the same window and with data where
/// there were data.
pub(crate) proof fn row_replaced(
    rows: Map<u64, Row>,
    windows: Map<u32, u64>,
    entity: u64,
    row: Row,
)
    requires
        tables_agree(rows, windows),
        rows.dom().contains(entity),
        row.window == rows[entity].window,
        rows[entity].data is Some ==> row.data is Some,
        row.others == 0,
        row.decorated_once(),
    ensures
        tables_agree(rows.insert(entity, row), windows),
{
    let after = rows.insert(entity, row);
    assert forall|id: u32| #[trigger] windows.dom().contains(id) implies carries_window(
        after,
        id,
        windows[id],
    ) by {
        assert(carries_window(rows, id, windows[id]));
    }
}

/// The tables still agree when a row is added.
pub(crate) proof fn row_added(rows: Map<u64, Row>, windows: Map<u32, u64>, entity: u64, row: Row)
    requires
        tables_agree(rows, windows),
        !rows.dom().contains(entity),
        row.others == 0,
        row.decorated_once(),
    ensures
        tables_agree(rows.insert(entity, row), windows),
{
    let after = rows.insert(entity, row);
    assert forall|id: u32| #[trigger] windows.dom().contains(id) implies carries_window(
        after,
        id,
        windows[id],
    ) by {
        assert(carries_window(rows, id, windows[id]));
    }
}

impl ServerModel {
    /// The server before anything has happened.
    pub open spec fn initial(environment: Environment) -> ServerModel {
        ServerModel {
            rows: Map::empty(),
            windows: Map::empty(),
            pids: Set::empty(),
            globals: Map::empty(),
            environment,
            to_focus: None,
            unfocus: false,
            last_focused_toplevel: None,
            last_hovered: None,
            last_kb_serial: None,
            pending_activations: Seq::empty(),
            global_output_offset: GlobalOutputOffset {
                x: GlobalOutputOffsetDimension { owner: None, value: 0 },
                y: GlobalOutputOffsetDimension { owner: None, value: 0 },
            },
            global_offset_updated: false,
            updated_outputs: Seq::empty(),
            pending_popup_refresh: Seq::empty(),
            new_scale: None,
            current_scale: environment.unscaled,
        }
    }

    /// What holds at all times: each known window has an entity of its own, which carries the
    /// window and its data, and entities carry nothing that is not accounted for and are decorated
    /// by the compositor or by the server, not by both.
    pub open spec fn wf(self) -> bool {
        tables_agree(self.rows, self.windows)
    }

    /// Whether the server has the window.
    pub open spec fn knows(self, window: Window) -> bool {
        self.windows.dom().contains(window.id)
    }

    /// The entity of a window that the server has.
    pub open spec fn entity(self, window: Window) -> u64 {
        self.windows[window.id]
    }

    /// The row of a window that the server has.
    pub open spec fn row(self, window: Window) -> Row {
        self.rows[self.entity(window)]
    }

    /// The data of a window that the server has.
    pub open spec fn data(self, window: Window) -> WindowData<Seq<char>> {
        self.row(window).data->0
    }

    /// The component of a type that an entity has.
    pub open spec fn component<T: Stored>(self, entity: u64) -> Option<T::Model> {
        crate::world::component::<T>(self.rows, entity)
    }

    /// The server with another component of an entity, or without it.
    pub open spec fn with<T: Stored>(
        self,
        entity: u64,
        component: Option<T::Model>,
    ) -> ServerModel {
        ServerModel {
            rows: crate::world::with_component::<T>(self.rows, entity, component),
            ..self
        }
    }

    /// The server with other data of a window that it has.
    pub open spec fn with_data(
        self,
        window: Window,
        data: WindowData<Seq<char>>,
    ) -> ServerModel {
        self.with::<WindowData>(self.entity(window), Some(data))
    }
}

impl InnerServerState {
    /// The state of a server that nothing has happened to.
    pub fn new(environment: Environment) -> (state: InnerServerState)
        ensures
            state@ == ServerModel::initial(environment),
            state@.wf(),
    {
        let state = InnerServerState {
            world: crate::world::new_world(),
            windows: HashMap::new(),
            pids: HashSet::new(),
            globals_map: HashMap::new(),
            environment,
            to_focus: None,
            unfocus: false,
            last_focused_toplevel: None,
            last_hovered: None,
            last_kb_serial: None,
            pending_activations: Vec::new(),
            global_output_offset: GlobalOutputOffset {
                x: GlobalOutputOffsetDimension { owner: None, value: 0 },
                y: GlobalOutputOffsetDimension { owner: None, value: 0 },
            },
            global_offset_updated: false,
            updated_outputs: Vec::new(),
            pending_popup_refresh: Vec::new(),
            new_scale: None,
            current_scale: environment.unscaled,
        };
        assert(state@.rows =~= Map::<u64, Row>::empty());
        assert(state@.globals =~= Map::<u32, Global<Seq<char>>>::empty());
        assert(state@.pending_activations =~= Seq::<PendingActivation<Seq<char>>>::empty());
        state
    }

    /// The entity and the data of a window that the server has.
    pub(crate) fn find(&self, window: Window) -> (found: Option<(u64, WindowData)>)
        requires
            self@.wf(),
        ensures
            found is Some == self@.knows(window),
            found is Some ==> (found->0).0 == self@.entity(window) && (found->0).1@ == self@.data(
                window,
            ),
    {
        match self.windows.get(&window.id) {
            Some(entity) => {
                assert(carries_window(self@.rows, window.id, *entity));
                match crate::world::get::<WindowData>(&self.world, *entity) {
                    Some(data) => Some((*entity, data)),
                    None => None,
                }
            },
            None => None,
        }
    }

    /// Gives an entity a component, in place of the one of the same type that it may have.
    pub(crate) fn put<T: Stored>(&mut self, entity: u64, component: T)
        requires
            old(self)@.rows.dom().contains(entity),
        ensures
            final(self)@ == old(self)@.with::<T>(entity, Some(component.model())),
    {
        let _alive: bool = crate::world::insert_one(&mut self.world, entity, component);
    }

    /// Whether the entity is still there; what concerns an entity that is not is stale.
    pub fn contains(&self, entity: u64) -> (alive: bool)
        ensures
            alive == self@.rows.dom().contains(entity),
    {
        crate::world::contains(&self.world, entity)
    }

    /// The entity of a window, if the server has it.
    pub fn entity_of(&self, window: Window) -> (entity: Option<u64>)
        ensures
            entity == (if self@.knows(window) {
                Some(self@.entity(window))
            } else {
                None
            }),
    {
        match self.windows.get(&window.id) {
            Some(entity) => Some(*entity),
            None => None,
        }
    }

    /// The component of a type that an entity has.
    pub fn component_of<T: Stored>(&self, entity: u64) -> (found: Option<T>)
        ensures
            found is Some == self@.component::<T>(entity) is Some,
            found is Some ==> found->0.model() == self@.component::<T>(entity)->0,
    {
        crate::world::get::<T>(&self.world, entity)
    }

    /// Whether there is room for one more entity.
    pub fn has_room(&self) -> (room: bool)
        ensures
            room == (self@.rows.dom().len() < u32::MAX),
    {
        crate::world::len(&self.world) < u32::MAX
    }

    /// Adds an entity that has no components yet. There must be room for one more.
    pub fn spawn_entity(&mut self) -> (entity: u64)
        requires
            old(self)@.wf(),
            old(self)@.rows.dom().len() < u32::MAX,
        ensures
            final(self)@.wf(),
            !old(self)@.rows.dom().contains(entity),
            final(self)@ == (ServerModel {
                rows: old(self)@.rows.insert(entity, Row::empty()),
                ..old(self)@
            }),
    {
        let ghost pre = self@;
        let entity: u64 = crate::world::spawn(&mut self.world);
        proof {
            row_added(pre.rows, pre.windows, entity, Row::empty());
        }
        entity
    }

    /// Gives an entity a component, in place of the one of the same type that it may have, and
    /// says whether the entity is there.
    pub fn attach<T: Attached>(&mut self, entity: u64, component: T) -> (attached: bool)
        requires
            old(self)@.wf(),
        ensures
            final(self)@.wf(),
            attached == old(self)@.rows.dom().contains(entity),
            final(self)@ == (if attached {
                old(self)@.with::<T>(entity, Some(component.model()))
            } else {
                old(self)@
            }),
    {
        let ghost pre = self@;
        let attached: bool = crate::world::insert_one(&mut self.world, entity, component);
        proof {
            if attached {
                T::leaves_window_and_role(pre.rows[entity], Some(component.model()));
                row_replaced(pre.rows, pre.windows, entity, self@.rows[entity]);
            }
        }
        attached
    }

    /// Gives an entity a role, in place of the one that it may have, and says whether it did so:
    /// the entity must be there, and the role must not be that of a toplevel that both the
    /// compositor and the server decorate.
    pub fn set_role(&mut self, entity: u64, role: SurfaceRole) -> (set: bool)
        requires
            old(self)@.wf(),
        ensures
            final(self)@.wf(),
            set == (old(self)@.rows.dom().contains(entity) && role@.decorated_once()),
            final(self)@ == (if set {
                old(self)@.with::<SurfaceRole>(entity, Some(role@))
            } else {
                old(self)@
            }),
    {
        let ghost pre = self@;
        let twice: bool = match &role {
            SurfaceRole::Toplevel(Some(toplevel)) => toplevel.decoration.wl
                && toplevel.decoration.satellite,
            _ => false,
        };
        if twice || !self.contains(entity) {
            return false;
        }
        self.put(entity, role);
        proof {
            row_replaced(pre.rows, pre.windows, entity, self@.rows[entity]);
        }
        true
    }

    /// Takes a component away from an entity that has it.
    pub fn detach<T: Attached>(&mut self, entity: u64) -> (detached: Option<T>)
        requires
            old(self)@.wf(),
        ensures
            final(self)@.wf(),
            detached is Some == old(self)@.component::<T>(entity) is Some,
            detached is Some ==> detached->0.model() == old(self)@.component::<T>(entity)->0,
            final(self)@ == (if detached is Some {
                old(self)@.with::<T>(entity, None)
            } else {
                old(self)@
            }),
    {
        let ghost pre = self@;
        let detached: Option<T> = crate::world::remove_one::<T>(&mut self.world, entity);
        proof {
            if detached is Some {
                T::leaves_window_and_role(pre.rows[entity], None);
                row_replaced(pre.rows, pre.windows, entity, self@.rows[entity]);
            }
        }
        detached
    }
}

} // verus!
