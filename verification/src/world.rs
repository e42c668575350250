//! The entities of the server and their components.
use crate::geometry::{PendingSurfaceState, Scale, Window};
use crate::request::LastClickSerial;
use crate::role::{PendingAnchor, SurfaceRole};
use crate::sealed::Sealed;
use crate::window::WindowData;
use hecs::World;
use vstd::prelude::*;

verus! {

/// The serial by which a surface is matched with its window.
#[derive(Clone, Copy, Debug, PartialEq, Eq)]
pub struct SurfaceSerial {
    pub serial: [u32; 2],
}

/// The number of a global.
#[derive(Clone, Copy, Debug, PartialEq, Eq, Hash, Structural)]
pub struct GlobalName {
    pub name: u32,
}

/// The output that a surface is on.
#[derive(Clone, Copy, Debug, PartialEq, Eq, Structural)]
pub struct OnOutput {
    pub output: u64,
}

/// The scale factor of a surface.
#[derive(Clone, Copy, Debug, PartialEq, Eq, Structural)]
pub struct SurfaceScaleFactor {
    pub scale: Scale,
}

/// The scale factor of an output: the one that the output has told, or a fractional one that a
/// surface on it was given.
#[derive(Clone, Copy, Debug, PartialEq, Eq, Structural)]
pub enum OutputScaleFactor {
    Output(Scale),
    Fractional(Scale),
}

impl OutputScaleFactor {
    pub open spec fn scale(self) -> Scale {
        match self {
            OutputScaleFactor::Output(scale) => scale,
            OutputScaleFactor::Fractional(scale) => scale,
        }
    }

    /// The scale factor itself.
    pub fn get(self) -> (scale: Scale)
        ensures
            scale == self.scale(),
    {
        match self {
            OutputScaleFactor::Output(scale) => scale,
            OutputScaleFactor::Fractional(scale) => scale,
        }
    }
}

/// Where an output is and how large it is.
#[derive(Clone, Copy, Debug, PartialEq, Eq, Structural)]
pub struct OutputDimensions {
    pub x: i32,
    pub y: i32,
    pub width: i32,
    pub height: i32,
}

/// Marks an entity that has a surface at the compositor.
#[derive(Clone, Copy, Debug, PartialEq, Eq, Structural)]
pub struct ClientSurface;

/// Marks an entity that has a surface at the X server.
#[derive(Clone, Copy, Debug, PartialEq, Eq, Structural)]
pub struct ServerSurface;

/// Marks an entity that is an output.
#[derive(Clone, Copy, Debug, PartialEq, Eq, Structural)]
pub struct ServerOutput;

/// The components of an entity. `others` is how many components it has of types that are not
/// among these.
pub struct Row {
    pub window: Option<Window>,
    pub data: Option<WindowData<Seq<char>>>,
    pub serial: Option<SurfaceSerial>,
    pub role: Option<SurfaceRole<Seq<PendingAnchor>>>,
    pub scale: Option<SurfaceScaleFactor>,
    pub on_output: Option<OnOutput>,
    pub output_scale: Option<OutputScaleFactor>,
    pub output_dimensions: Option<OutputDimensions>,
    pub global: Option<GlobalName>,
    pub click: Option<LastClickSerial>,
    pub pending: Option<PendingSurfaceState>,
    pub client_surface: Option<ClientSurface>,
    pub server_surface: Option<ServerSurface>,
    pub server_output: Option<ServerOutput>,
    pub others: nat,
}

impl Row {
    /// Whether at most one of the compositor and the server decorates the entity.
    pub open spec fn decorated_once(self) -> bool {
        self.role is Some ==> self.role->0.decorated_once()
    }

    /// The row of an entity without components.
    pub open spec fn empty() -> Row {
        Row {
            window: None,
            data: None,
            serial: None,
            role: None,
            scale: None,
            on_output: None,
            output_scale: None,
            output_dimensions: None,
            global: None,
            click: None,
            pending: None,
            client_surface: None,
            server_surface: None,
            server_output: None,
            others: 0,
        }
    }
}

/// A type of component that an entity can have; each has a place in `Row`. What contracts speak
/// of is the component's model.
pub trait Stored: Sealed + Clone + Send + Sync + Sized + 'static {
    type Model;

    spec fn model(self) -> Self::Model;

    /// The component of this type in a row.
    spec fn of(row: Row) -> Option<Self::Model>;

    /// The row with another component of this type, or with none.
    spec fn put(row: Row, component: Option<Self::Model>) -> Row;
}

impl Sealed for Window {
}

impl Stored for Window {
    type Model = Window;

    open spec fn model(self) -> Window {
        self
    }

    open spec fn of(row: Row) -> Option<Window> {
        row.window
    }

    open spec fn put(row: Row, component: Option<Window>) -> Row {
        Row { window: component, ..row }
    }
}

impl Sealed for WindowData {
}

impl Stored for WindowData {
    type Model = WindowData<Seq<char>>;

    open spec fn model(self) -> WindowData<Seq<char>> {
        self@
    }

    open spec fn of(row: Row) -> Option<WindowData<Seq<char>>> {
        row.data
    }

    open spec fn put(row: Row, component: Option<WindowData<Seq<char>>>) -> Row {
        Row { data: component, ..row }
    }
}

impl Sealed for SurfaceRole {
}

impl Stored for SurfaceRole {
    type Model = SurfaceRole<Seq<PendingAnchor>>;

    open spec fn model(self) -> SurfaceRole<Seq<PendingAnchor>> {
        self@
    }

    open spec fn of(row: Row) -> Option<SurfaceRole<Seq<PendingAnchor>>> {
        row.role
    }

    open spec fn put(row: Row, component: Option<SurfaceRole<Seq<PendingAnchor>>>) -> Row {
        Row { role: component, ..row }
    }
}

impl Sealed for SurfaceSerial {
}

impl Stored for SurfaceSerial {
    type Model = SurfaceSerial;

    open spec fn model(self) -> SurfaceSerial {
        self
    }

    open spec fn of(row: Row) -> Option<SurfaceSerial> {
        row.serial
    }

    open spec fn put(row: Row, component: Option<SurfaceSerial>) -> Row {
        Row { serial: component, ..row }
    }
}

impl Sealed for SurfaceScaleFactor {
}

impl Stored for SurfaceScaleFactor {
    type Model = SurfaceScaleFactor;

    open spec fn model(self) -> SurfaceScaleFactor {
        self
    }

    open spec fn of(row: Row) -> Option<SurfaceScaleFactor> {
        row.scale
    }

    open spec fn put(row: Row, component: Option<SurfaceScaleFactor>) -> Row {
        Row { scale: component, ..row }
    }
}

impl Sealed for OnOutput {
}

impl Stored for OnOutput {
    type Model = OnOutput;

    open spec fn model(self) -> OnOutput {
        self
    }

    open spec fn of(row: Row) -> Option<OnOutput> {
        row.on_output
    }

    open spec fn put(row: Row, component: Option<OnOutput>) -> Row {
        Row { on_output: component, ..row }
    }
}

impl Sealed for OutputScaleFactor {
}

impl Stored for OutputScaleFactor {
    type Model = OutputScaleFactor;

    open spec fn model(self) -> OutputScaleFactor {
        self
    }

    open spec fn of(row: Row) -> Option<OutputScaleFactor> {
        row.output_scale
    }

    open spec fn put(row: Row, component: Option<OutputScaleFactor>) -> Row {
        Row { output_scale: component, ..row }
    }
}

impl Sealed for OutputDimensions {
}

impl Stored for OutputDimensions {
    type Model = OutputDimensions;

    open spec fn model(self) -> OutputDimensions {
        self
    }

    open spec fn of(row: Row) -> Option<OutputDimensions> {
        row.output_dimensions
    }

    open spec fn put(row: Row, component: Option<OutputDimensions>) -> Row {
        Row { output_dimensions: component, ..row }
    }
}

impl Sealed for GlobalName {
}

impl Stored for GlobalName {
    type Model = GlobalName;

    open spec fn model(self) -> GlobalName {
        self
    }

    open spec fn of(row: Row) -> Option<GlobalName> {
        row.global
    }

    open spec fn put(row: Row, component: Option<GlobalName>) -> Row {
        Row { global: component, ..row }
    }
}

impl Sealed for LastClickSerial {
}

impl Stored for LastClickSerial {
    type Model = LastClickSerial;

    open spec fn model(self) -> LastClickSerial {
        self
    }

    open spec fn of(row: Row) -> Option<LastClickSerial> {
        row.click
    }

    open spec fn put(row: Row, component: Option<LastClickSerial>) -> Row {
        Row { click: component, ..row }
    }
}

impl Sealed for PendingSurfaceState {
}

impl Stored for PendingSurfaceState {
    type Model = PendingSurfaceState;

    open spec fn model(self) -> PendingSurfaceState {
        self
    }

    open spec fn of(row: Row) -> Option<PendingSurfaceState> {
        row.pending
    }

    open spec fn put(row: Row, component: Option<PendingSurfaceState>) -> Row {
        Row { pending: component, ..row }
    }
}

impl Sealed for ClientSurface {
}

impl Stored for ClientSurface {
    type Model = ClientSurface;

    open spec fn model(self) -> ClientSurface {
        self
    }

    open spec fn of(row: Row) -> Option<ClientSurface> {
        row.client_surface
    }

    open spec fn put(row: Row, component: Option<ClientSurface>) -> Row {
        Row { client_surface: component, ..row }
    }
}

impl Sealed for ServerSurface {
}

impl Stored for ServerSurface {
    type Model = ServerSurface;

    open spec fn model(self) -> ServerSurface {
        self
    }

    open spec fn of(row: Row) -> Option<ServerSurface> {
        row.server_surface
    }

    open spec fn put(row: Row, component: Option<ServerSurface>) -> Row {
        Row { server_surface: component, ..row }
    }
}

impl Sealed for ServerOutput {
}

impl Stored for ServerOutput {
    type Model = ServerOutput;

    open spec fn model(self) -> ServerOutput {
        self
    }

    open spec fn of(row: Row) -> Option<ServerOutput> {
        row.server_output
    }

    open spec fn put(row: Row, component: Option<ServerOutput>) -> Row {
        Row { server_output: component, ..row }
    }
}

/// A type of component that an entity can be given and lose whatever window and role it may have.
pub trait Attached: Stored {
    /// Giving or taking such a component leaves the row's window, its data and its role as they
    /// are.
    proof fn leaves_window_and_role(row: Row, component: Option<Self::Model>)
        ensures
            Self::put(row, component).window == row.window,
            Self::put(row, component).data == row.data,
            Self::put(row, component).role == row.role,
            Self::put(row, component).others == row.others,
    ;
}

impl Attached for SurfaceSerial {
    proof fn leaves_window_and_role(row: Row, component: Option<Self::Model>) {
    }
}

impl Attached for SurfaceScaleFactor {
    proof fn leaves_window_and_role(row: Row, component: Option<Self::Model>) {
    }
}

impl Attached for OnOutput {
    proof fn leaves_window_and_role(row: Row, component: Option<Self::Model>) {
    }
}

impl Attached for OutputScaleFactor {
    proof fn leaves_window_and_role(row: Row, component: Option<Self::Model>) {
    }
}

impl Attached for OutputDimensions {
    proof fn leaves_window_and_role(row: Row, component: Option<Self::Model>) {
    }
}

impl Attached for GlobalName {
    proof fn leaves_window_and_role(row: Row, component: Option<Self::Model>) {
    }
}

impl Attached for LastClickSerial {
    proof fn leaves_window_and_role(row: Row, component: Option<Self::Model>) {
    }
}

impl Attached for PendingSurfaceState {
    proof fn leaves_window_and_role(row: Row, component: Option<Self::Model>) {
    }
}

impl Attached for ClientSurface {
    proof fn leaves_window_and_role(row: Row, component: Option<Self::Model>) {
    }
}

impl Attached for ServerSurface {
    proof fn leaves_window_and_role(row: Row, component: Option<Self::Model>) {
    }
}

impl Attached for ServerOutput {
    proof fn leaves_window_and_role(row: Row, component: Option<Self::Model>) {
    }
}

/// The component of a type that an entity has in a table of rows.
pub open spec fn component<T: Stored>(rows: Map<u64, Row>, entity: u64) -> Option<T::Model> {
    if rows.dom().contains(entity) {
        T::of(rows[entity])
    } else {
        None
    }
}

/// The table of rows with another component of an entity, or without it.
pub open spec fn with_component<T: Stored>(
    rows: Map<u64, Row>,
    entity: u64,
    component: Option<T::Model>,
) -> Map<u64, Row> {
    rows.insert(entity, T::put(rows[entity], component))
}

/// `hecs::World`, a collection of entities that have any number of components of distinct types.
#[verifier::external_type_specification]
#[verifier::external_body]
pub struct ExWorld(hecs::World);

/// What a world holds: the components of each of its entities, by the entity's bits.
pub uninterp spec fn rows(world: World) -> Map<u64, Row>;

/// Calls `hecs::World::new`, which makes a world without entities.
#[verifier::external_body]
pub(crate) fn new_world() -> (created: World)
    ensures
        rows(created).dom() == Set::<u64>::empty(),
{
    World::new()
}

/// Calls `hecs::World::len`, which counts the entities of a world.
#[verifier::external_body]
pub(crate) fn len(world: &World) -> (count: u32)
    ensures
        count == rows(*world).dom().len(),
{
    world.len()
}

/// Calls `hecs::World::spawn` with no components, which adds an entity that the world did not
/// have. There must be room for one more: a world counts its entities in 32 bits.
#[verifier::external_body]
pub(crate) fn spawn(world: &mut World) -> (entity: u64)
    requires
        rows(*old(world)).dom().len() < u32::MAX,
    ensures
        !rows(*old(world)).dom().contains(entity),
        rows(*final(world)) == rows(*old(world)).insert(entity, Row::empty()),
{
    world.spawn(()).to_bits().get()
}

/// Calls `hecs::World::despawn`, which removes an entity with all its components, and says
/// whether the world had it.
#[verifier::external_body]
pub(crate) fn despawn(world: &mut World, entity: u64) -> (existed: bool)
    ensures
        existed == rows(*old(world)).dom().contains(entity),
        rows(*final(world)) == rows(*old(world)).remove(entity),
{
    match hecs::Entity::from_bits(entity) {
        Some(entity) => world.despawn(entity).is_ok(),
        None => false,
    }
}

/// Calls `hecs::World::contains`, which says whether a world has the entity.
#[verifier::external_body]
pub(crate) fn contains(world: &World, entity: u64) -> (alive: bool)
    ensures
        alive == rows(*world).dom().contains(entity),
{
    hecs::Entity::from_bits(entity).is_some_and(|entity| world.contains(entity))
}

/// Calls `hecs::EntityRef::is_empty`, which says whether an entity of the world has no components
/// at all.
#[verifier::external_body]
pub(crate) fn is_empty(world: &World, entity: u64) -> (empty: bool)
    ensures
        empty == (rows(*world).dom().contains(entity) && rows(*world)[entity] == Row::empty()),
{
    match hecs::Entity::from_bits(entity) {
        Some(entity) => world.entity(entity).is_ok_and(|entity| entity.is_empty()),
        None => false,
    }
}

/// Calls `hecs::World::get`, which finds the component of a type that an entity has, and copies
/// it out of the world.
#[verifier::external_body]
pub(crate) fn get<T: Stored>(world: &World, entity: u64) -> (found: Option<T>)
    ensures
        found is Some == component::<T>(rows(*world), entity) is Some,
        found is Some ==> found->0.model() == component::<T>(rows(*world), entity)->0,
{
    world.get::<&T>(hecs::Entity::from_bits(entity)?).ok().map(|component| (*component).clone())
}

/// Calls `hecs::World::insert_one`, which gives an entity a component in place of the one of the
/// same type that it may have, and says whether the world has the entity.
#[verifier::external_body]
pub(crate) fn insert_one<T: Stored>(world: &mut World, entity: u64, component: T) -> (alive: bool)
    ensures
        alive == rows(*old(world)).dom().contains(entity),
        rows(*final(world)) == (if alive {
            with_component::<T>(rows(*old(world)), entity, Some(component.model()))
        } else {
            rows(*old(world))
        }),
{
    match hecs::Entity::from_bits(entity) {
        Some(entity) => world.insert_one(entity, component).is_ok(),
        None => false,
    }
}

/// Calls `hecs::World::remove_one`, which takes a component away from an entity that has it.
#[verifier::external_body]
pub(crate) fn remove_one<T: Stored>(world: &mut World, entity: u64) -> (removed: Option<T>)
    ensures
        removed is Some == component::<T>(rows(*old(world)), entity) is Some,
        removed is Some ==> removed->0.model() == component::<T>(rows(*old(world)), entity)->0,
        rows(*final(world)) == (if removed is Some {
            with_component::<T>(rows(*old(world)), entity, None)
        } else {
            rows(*old(world))
        }),
{
    world.remove_one::<T>(hecs::Entity::from_bits(entity)?).ok()
}

/// Whether a list names exactly the entities that have a component of a type, each once, in any
/// order.
pub open spec fn lists_all<T: Stored>(list: Seq<u64>, rows: Map<u64, Row>) -> bool {
    &&& list.no_duplicates()
    &&& forall|entity: u64| #[trigger]
        list.contains(entity) <==> component::<T>(rows, entity) is Some
}

/// Calls `hecs::World::query`, which finds all entities that have a component of a type. Their
/// order is arbitrary.
#[verifier::external_body]
pub(crate) fn entities_with<T: Stored>(world: &World) -> (entities: Vec<u64>)
    ensures
        lists_all::<T>(entities@, rows(*world)),
{
    world.query::<&T>().iter().map(|(entity, _)| entity.to_bits().get()).collect()
}

} // verus!
