//! Giving surfaces their roles.
use crate::geometry::{Area, Point, Scale, Size, Window, WindowDims};
use crate::metrics::Metrics;
use crate::request::{ask, Positioner, Request};
use crate::role::{
    DecorationsData, PendingAnchor, PopupData, SurfaceRole, ToplevelData, XdgSurfaceData,
};
use crate::state::{InnerServerState, ServerModel};
use crate::window::{Decorations, WindowData, WindowRole, WmNormalHints};
use crate::world::{ClientSurface, OutputDimensions, Row, SurfaceScaleFactor};
use vstd::prelude::*;

verus! {

/// The requests that tell a toplevel's size hints as they are.
pub open spec fn hint_requests(
    entity: u64,
    hints: Option<WmNormalHints>,
) -> Seq<Request<Seq<char>>> {
    let min = if hints is Some && hints->0.min_size is Some {
        let size = hints->0.min_size->0;
        seq![Request::SetMinSize { entity, width: size.width, height: size.height }]
    } else {
        seq![]
    };
    let max = if hints is Some && hints->0.max_size is Some {
        let size = hints->0.max_size->0;
        seq![Request::SetMaxSize { entity, width: size.width, height: size.height }]
    } else {
        seq![]
    };
    min + max
}

/// The requests that fix a toplevel's size. Application splash windows are usually startup
/// displays, so reporting their dimensions as fixed has no downside. The upside is that tiling
/// compositors use a fixed size as a heuristic to display those windows on a separate floating
/// level.
pub open spec fn fixed_size_requests(
    entity: u64,
    fixed: bool,
    dims: WindowDims,
) -> Seq<Request<Seq<char>>> {
    if fixed {
        seq![
            Request::SetMinSize { entity, width: dims.width as i32, height: dims.height as i32 },
            Request::SetMaxSize { entity, width: dims.width as i32, height: dims.height as i32 },
        ]
    } else {
        seq![]
    }
}

/// The request that tells a toplevel's application id, if it has one.
pub open spec fn app_id_requests(entity: u64, app_id: Option<Seq<char>>) -> Seq<
    Request<Seq<char>>,
> {
    if app_id is Some {
        seq![Request::SetAppId { entity, app_id: app_id->0 }]
    } else {
        seq![]
    }
}

/// The request that tells a toplevel's title, if it has one.
pub open spec fn title_requests(entity: u64, title: Option<Seq<char>>) -> Seq<
    Request<Seq<char>>,
> {
    if title is Some {
        seq![Request::SetTitle { entity, title: title->0 }]
    } else {
        seq![]
    }
}

/// The request that makes a toplevel fullscreen, if it is to be so.
pub open spec fn fullscreen_requests(entity: u64, fullscreen: bool) -> Seq<Request<Seq<char>>> {
    if fullscreen {
        seq![Request::SetFullscreen { entity }]
    } else {
        seq![]
    }
}

/// The request that activates a surface, if there is a token to do it with.
pub open spec fn activation_requests(entity: u64, token: Option<Seq<char>>) -> Seq<
    Request<Seq<char>>,
> {
    if token is Some {
        seq![Request::Activate { entity, activation_token: token->0 }]
    } else {
        seq![]
    }
}

/// The request that puts a toplevel above its parent, if it has one.
pub open spec fn parent_requests(entity: u64, parent: Option<u64>) -> Seq<Request<Seq<char>>> {
    if parent is Some {
        seq![Request::SetParent { entity, parent: parent->0 }]
    } else {
        seq![]
    }
}

/// The first of two that is there.
pub open spec fn either<T>(first: Option<T>, second: Option<T>) -> Option<T> {
    if first is Some {
        first
    } else {
        second
    }
}

impl ServerModel {
    /// The leader of the window group that a window belongs to, if the server has it.
    pub open spec fn group_leader(self, data: WindowData<Seq<char>>) -> Option<
        WindowData<Seq<char>>,
    > {
        if data.attrs.group is Some && self.knows(data.attrs.group->0) {
            Some(self.data(data.attrs.group->0))
        } else {
            None
        }
    }

    /// The application id of a window: its class, or else that of its group's leader.
    pub open spec fn app_id(self, data: WindowData<Seq<char>>) -> Option<Seq<char>> {
        let leader = self.group_leader(data);
        either(
            data.attrs.class,
            if leader is Some {
                leader->0.attrs.class
            } else {
                None
            },
        )
    }

    /// The title of a window: its own, or else that of its group's leader.
    pub open spec fn title(self, data: WindowData<Seq<char>>) -> Option<Seq<char>> {
        let leader = self.group_leader(data);
        either(
            data.attrs.title_text(),
            if leader is Some {
                leader->0.attrs.title_text()
            } else {
                None
            },
        )
    }

    /// The requests that settle who decorates a toplevel. Where the window wants decorations from
    /// outside and the compositor won't provide them, the server does.
    pub open spec fn decoration_requests(
        self,
        entity: u64,
        data: WindowData<Seq<char>>,
    ) -> Seq<Request<Seq<char>>> {
        let wanted = data.attrs.decorations;
        if self.environment.decoration_manager {
            seq![
                Request::CreateDecoration { entity },
                Request::SetDecorationMode {
                    entity,
                    mode: if wanted is Some {
                        wanted->0
                    } else {
                        Decorations::Server
                    },
                },
            ]
        } else if wanted is None || wanted->0.is_serverside() {
            seq![
                Request::CreateSatelliteDecoration {
                    entity,
                    initial_title: data.attrs.title_text(),
                },
            ]
        } else {
            seq![]
        }
    }

    /// The toplevel that a window is transient for, if it is an active one.
    pub open spec fn transient_parent(self, data: WindowData<Seq<char>>) -> Option<u64> {
        if data.attrs.transient_for is Some && self.knows(data.attrs.transient_for->0) && self.row(
            data.attrs.transient_for->0,
        ).toplevel() is Some {
            Some(self.entity(data.attrs.transient_for->0))
        } else {
            None
        }
    }

    /// The requests that make an xdg surface the toplevel of its window.
    pub open spec fn toplevel_requests(self, entity: u64, fullscreen: bool) -> Seq<
        Request<Seq<char>>,
    > {
        let data = self.rows[entity].data->0;
        let token = if self.environment.activation {
            data.activation_token
        } else {
            None
        };
        seq![Request::CreateToplevel { entity }] + hint_requests(entity, data.attrs.size_hints)
            + fixed_size_requests(entity, data.attrs.role == WindowRole::Splash, data.attrs.dims)
            + app_id_requests(entity, self.app_id(data)) + title_requests(entity, self.title(data))
            + fullscreen_requests(entity, fullscreen) + self.decoration_requests(entity, data)
            + activation_requests(entity, token) + parent_requests(
            entity,
            self.transient_parent(data),
        )
    }

    /// A toplevel that has just been created.
    pub open spec fn new_toplevel(self) -> ToplevelData {
        ToplevelData {
            xdg: XdgSurfaceData::fresh(),
            fullscreen: false,
            decoration: DecorationsData {
                wl: self.environment.decoration_manager,
                satellite: false,
            },
        }
    }
}

/// The first text that is there.
fn first_text(first: &Option<String>, second: &Option<String>) -> (text: Option<String>)
    ensures
        text.deep_view() == either(first.deep_view(), second.deep_view()),
{
    match first {
        Some(text) => Some(text.clone()),
        None => match second {
            Some(text) => Some(text.clone()),
            None => None,
        },
    }
}

/// Asks for a toplevel's size hints to be told.
fn ask_hints(requests: &mut Vec<Request>, entity: u64, hints: Option<WmNormalHints>)
    ensures
        final(requests).deep_view() == old(requests).deep_view() + hint_requests(entity, hints),
{
    if let Some(hints) = hints {
        if let Some(min) = hints.min_size {
            ask(requests, Request::SetMinSize { entity, width: min.width, height: min.height });
        }
        if let Some(max) = hints.max_size {
            ask(requests, Request::SetMaxSize { entity, width: max.width, height: max.height });
        }
    }
    assert(requests.deep_view() =~= old(requests).deep_view() + hint_requests(entity, hints));
}

/// Asks for a toplevel's size to be fixed, if it is to be so.
fn ask_fixed_size(requests: &mut Vec<Request>, entity: u64, fixed: bool, dims: WindowDims)
    ensures
        final(requests).deep_view() == old(requests).deep_view() + fixed_size_requests(
            entity,
            fixed,
            dims,
        ),
{
    if fixed {
        let width: i32 = dims.width as i32;
        let height: i32 = dims.height as i32;
        ask(requests, Request::SetMinSize { entity, width, height });
        ask(requests, Request::SetMaxSize { entity, width, height });
    }
    assert(requests.deep_view() =~= old(requests).deep_view() + fixed_size_requests(
        entity,
        fixed,
        dims,
    ));
}

/// Asks for a toplevel's application id to be told, if it has one.
fn ask_app_id(requests: &mut Vec<Request>, entity: u64, app_id: Option<String>)
    ensures
        final(requests).deep_view() == old(requests).deep_view() + app_id_requests(
            entity,
            app_id.deep_view(),
        ),
{
    let ghost told = app_id_requests(entity, app_id.deep_view());
    if let Some(app_id) = app_id {
        ask(requests, Request::SetAppId { entity, app_id });
    }
    assert(requests.deep_view() =~= old(requests).deep_view() + told);
}

/// Asks for a toplevel's title to be told, if it has one.
fn ask_title(requests: &mut Vec<Request>, entity: u64, title: Option<String>)
    ensures
        final(requests).deep_view() == old(requests).deep_view() + title_requests(
            entity,
            title.deep_view(),
        ),
{
    let ghost told = title_requests(entity, title.deep_view());
    if let Some(title) = title {
        ask(requests, Request::SetTitle { entity, title });
    }
    assert(requests.deep_view() =~= old(requests).deep_view() + told);
}

/// Asks for a toplevel to be made fullscreen, if it is to be so.
fn ask_fullscreen(requests: &mut Vec<Request>, entity: u64, fullscreen: bool)
    ensures
        final(requests).deep_view() == old(requests).deep_view() + fullscreen_requests(
            entity,
            fullscreen,
        ),
{
    if fullscreen {
        ask(requests, Request::SetFullscreen { entity });
    }
    assert(requests.deep_view() =~= old(requests).deep_view() + fullscreen_requests(
        entity,
        fullscreen,
    ));
}

/// Asks for a surface to be activated, if there is a token to do it with.
fn ask_activation(requests: &mut Vec<Request>, entity: u64, token: Option<String>)
    ensures
        final(requests).deep_view() == old(requests).deep_view() + activation_requests(
            entity,
            token.deep_view(),
        ),
{
    let ghost told = activation_requests(entity, token.deep_view());
    if let Some(activation_token) = token {
        ask(requests, Request::Activate { entity, activation_token });
    }
    assert(requests.deep_view() =~= old(requests).deep_view() + told);
}

/// Asks for a toplevel to be put above its parent, if it has one.
fn ask_parent(requests: &mut Vec<Request>, entity: u64, parent: Option<u64>)
    ensures
        final(requests).deep_view() == old(requests).deep_view() + parent_requests(entity, parent),
{
    if let Some(parent) = parent {
        ask(requests, Request::SetParent { entity, parent });
    }
    assert(requests.deep_view() =~= old(requests).deep_view() + parent_requests(entity, parent));
}

impl InnerServerState {
    /// Asks for what settles who decorates a toplevel.
    fn ask_decoration(&self, requests: &mut Vec<Request>, entity: u64, data: &WindowData)
        ensures
            final(requests).deep_view() == old(requests).deep_view() + self@.decoration_requests(
                entity,
                data@,
            ),
    {
        if self.environment.decoration_manager {
            ask(requests, Request::CreateDecoration { entity });
            let mode: Decorations = match data.attrs.decorations {
                Some(decorations) => decorations,
                None => Decorations::Server,
            };
            ask(requests, Request::SetDecorationMode { entity, mode });
        } else {
            let needs_satellite: bool = match data.attrs.decorations {
                Some(decorations) => decorations.is_serverside(),
                None => true,
            };
            if needs_satellite {
                let initial_title: Option<String> = data.attrs.title_name();
                ask(requests, Request::CreateSatelliteDecoration { entity, initial_title });
            }
        }
        assert(requests.deep_view() =~= old(requests).deep_view() + self@.decoration_requests(
            entity,
            data@,
        ));
    }

    /// The application id and the title of a window.
    fn names(&self, data: &WindowData) -> (names: (Option<String>, Option<String>))
        requires
            self@.wf(),
        ensures
            names.0.deep_view() == self@.app_id(data@),
            names.1.deep_view() == self@.title(data@),
    {
        let leader: Option<WindowData> = match data.attrs.group {
            Some(group) => match self.find(group) {
                Some((_, leader)) => Some(leader),
                None => None,
            },
            None => None,
        };
        match leader {
            Some(leader) => (
                first_text(&data.attrs.class, &leader.attrs.class),
                first_text(&data.attrs.title_name(), &leader.attrs.title_name()),
            ),
            None => (
                first_text(&data.attrs.class, &None),
                first_text(&data.attrs.title_name(), &None),
            ),
        }
    }

    /// The toplevel that a window is transient for, if it is an active one.
    fn find_transient_parent(&self, data: &WindowData) -> (parent: Option<u64>)
        requires
            self@.wf(),
        ensures
            parent == self@.transient_parent(data@),
    {
        if let Some(transient_for) = data.attrs.transient_for {
            if let Some((candidate, _)) = self.find(transient_for) {
                assert(crate::state::carries_window(self@.rows, transient_for.id, candidate));
                if let Some(SurfaceRole::Toplevel(Some(_))) = crate::world::get::<SurfaceRole>(
                    &self.world,
                    candidate,
                ) {
                    return Some(candidate);
                }
            }
        }
        None
    }

    /// The requests that make an xdg surface the toplevel of its window, and the toplevel.
    fn create_toplevel(&self, entity: u64, data: &WindowData, fullscreen: bool) -> (created: (
        ToplevelData,
        Vec<Request>,
    ))
        requires
            self@.wf(),
            self@.rows.dom().contains(entity),
            self@.rows[entity].data == Some(data@),
        ensures
            created.0 == self@.new_toplevel(),
            created.1.deep_view() == self@.toplevel_requests(entity, fullscreen),
    {
        let mut requests: Vec<Request> = Vec::new();
        ask(&mut requests, Request::CreateToplevel { entity });
        assert(requests.deep_view() =~= seq![Request::CreateToplevel { entity }]);
        ask_hints(&mut requests, entity, data.attrs.size_hints);
        let splash: bool = data.attrs.role == WindowRole::Splash;
        ask_fixed_size(&mut requests, entity, splash, data.attrs.dims);
        let (app_id, title): (Option<String>, Option<String>) = self.names(data);
        ask_app_id(&mut requests, entity, app_id);
        ask_title(&mut requests, entity, title);
        ask_fullscreen(&mut requests, entity, fullscreen);
        self.ask_decoration(&mut requests, entity, data);
        let token: Option<String> = if self.environment.activation {
            first_text(&data.activation_token, &None)
        } else {
            None
        };
        ask_activation(&mut requests, entity, token);
        ask_parent(&mut requests, entity, self.find_transient_parent(data));
        let toplevel = ToplevelData {
            xdg: XdgSurfaceData::new(),
            fullscreen: false,
            decoration: DecorationsData {
                wl: self.environment.decoration_manager,
                satellite: false,
            },
        };
        (toplevel, requests)
    }
}

impl ServerModel {
    /// Whether a window of the given dimensions is as large as one of the outputs.
    pub open spec fn fills_output(self, dims: WindowDims) -> bool {
        exists|output: u64| #[trigger]
            self.rows.dom().contains(output) && self.is_filled(output, dims)
    }

    /// Whether a window of the given dimensions is as large as the output.
    pub open spec fn is_filled(self, output: u64, dims: WindowDims) -> bool {
        let dimensions = self.rows[output].output_dimensions;
        &&& dimensions is Some
        &&& dimensions->0.width == dims.width
        &&& dimensions->0.height == dims.height
    }

    /// The window whose popup the entity becomes, if it becomes one: the window last hovered, or
    /// else the toplevel last focused. A window as large as an output becomes a fullscreen
    /// toplevel instead.
    pub open spec fn popup_for(self, entity: u64) -> Option<Window> {
        let attrs = self.rows[entity].data->0.attrs;
        if attrs.role.is_popup() && !self.fills_output(attrs.dims) {
            either(self.last_hovered, self.last_focused_toplevel)
        } else {
            None
        }
    }

    /// Whether the entity can become a popup of the window.
    pub open spec fn can_parent(self, parent: Window, entity: u64) -> bool {
        &&& self.knows(parent)
        &&& self.entity(parent) != entity
        &&& self.row(parent).scale is Some
        &&& self.row(parent).role is Some
        &&& self.row(parent).role->0.xdg_data() is Some
        &&& self.rows[entity].scale is Some
    }

    /// Whether the entity can be given its role: it has a surface and a window, can become a
    /// popup of the window that it is to become a popup of, and has had no role of the other
    /// kind.
    pub open spec fn can_take_role(self, entity: u64) -> bool {
        &&& self.rows.dom().contains(entity)
        &&& self.rows[entity].client_surface is Some
        &&& self.rows[entity].data is Some
        &&& match self.popup_for(entity) {
            Some(parent) => {
                &&& self.can_parent(parent, entity)
                &&& self.rows[entity].role is Some ==> self.rows[entity].role->0 is Popup
            },
            None => self.rows[entity].role is Some ==> self.rows[entity].role->0 is Toplevel,
        }
    }

    /// The popup of a parent that has just been created for an entity, anchored to `anchor`.
    pub open spec fn new_popup(
        parent: u64,
        anchor: Area,
        size: Size,
        offset: Point,
    ) -> PopupData<Seq<PendingAnchor>> {
        PopupData {
            xdg: XdgSurfaceData::fresh(),
            parent,
            size,
            offset,
            anchor_origin: anchor.origin,
            anchor_size: anchor.size,
            parent_size: None,
            parent_configure: None,
            configure_anchor: anchor.origin,
            pending_anchors: Seq::empty(),
            next_reposition_token: 1,
        }
    }

    /// Whether `popup` is the popup of `parent` that the entity becomes, by the parent's scale
    /// factor.
    pub open spec fn is_new_popup<D, L, W>(
        self,
        popup: PopupData<Seq<PendingAnchor>>,
        entity: u64,
        parent: u64,
        metrics: Metrics<D, L, W>,
    ) -> bool where
        D: Fn(i32, Scale) -> i32,
        L: Fn(u16, u16, Scale) -> Size,
        W: Fn(u64, i32) -> bool,
     {
        let dims = self.rows[entity].data->0.attrs.dims;
        let parent_dims = self.rows[parent].data->0.attrs.dims;
        let scale = self.rows[parent].scale->0.scale;
        let anchor = Area { origin: popup.anchor_origin, size: popup.anchor_size };
        &&& popup == ServerModel::new_popup(parent, anchor, popup.size, popup.offset)
        &&& self.anchors_at(parent, anchor, metrics)
        &&& metrics.is_popup_size(dims, scale, popup.size)
        &&& metrics.is_point(
            (dims.x - parent_dims.x) as i32,
            (dims.y - parent_dims.y) as i32,
            scale,
            popup.offset,
        )
    }

    /// The server once the entity has become the popup, which takes over its parent's scale
    /// factor.
    pub open spec fn with_new_popup(
        self,
        entity: u64,
        popup: PopupData<Seq<PendingAnchor>>,
    ) -> ServerModel {
        ServerModel {
            rows: self.rows.insert(
                entity,
                Row {
                    scale: self.rows[popup.parent].scale,
                    role: Some(SurfaceRole::Popup(Some(popup))),
                    ..self.rows[entity]
                },
            ),
            ..self
        }
    }

    /// Whether `after` is the server once the entity has been given its role, for which the
    /// requests are made.
    pub open spec fn role_created<D, L, W>(
        self,
        after: ServerModel,
        requests: Seq<Request<Seq<char>>>,
        entity: u64,
        metrics: Metrics<D, L, W>,
    ) -> bool where
        D: Fn(i32, Scale) -> i32,
        L: Fn(u16, u16, Scale) -> Size,
        W: Fn(u64, i32) -> bool,
     {
        let opening = seq![
            Request::AttachNothing { entity },
            Request::Commit { entity },
            Request::CreateXdgSurface { entity },
        ];
        let closing = seq![Request::Commit { entity }];
        match self.popup_for(entity) {
            Some(parent) => exists|popup: PopupData<Seq<PendingAnchor>>|
                {
                    &&& #[trigger] self.is_new_popup(popup, entity, self.entity(parent), metrics)
                    &&& after == self.with_new_popup(entity, popup)
                    &&& requests == opening + seq![
                        Request::CreatePopup {
                            entity,
                            parent: self.entity(parent),
                            positioner: popup.positioner(),
                        },
                    ] + closing
                },
            None => {
                &&& after == self.with::<SurfaceRole>(
                    entity,
                    Some(SurfaceRole::Toplevel(Some(self.new_toplevel()))),
                )
                &&& requests == opening + self.toplevel_requests(
                    entity,
                    self.fills_output(self.rows[entity].data->0.attrs.dims),
                ) + closing
            },
        }
    }
}

impl InnerServerState {
    /// Whether a window of the given dimensions is as large as one of the outputs.
    fn is_output_filled(&self, dims: WindowDims) -> (filled: bool)
        ensures
            filled == self@.fills_output(dims),
    {
        let outputs: Vec<u64> = crate::world::entities_with::<OutputDimensions>(&self.world);
        let mut i: usize = 0;
        while i < outputs.len()
            invariant
                i <= outputs.len(),
                crate::world::lists_all::<OutputDimensions>(outputs@, self@.rows),
                forall|j: int| 0 <= j < i ==> !self@.is_filled(#[trigger] outputs@[j], dims),
            decreases outputs.len() - i,
        {
            let output: u64 = outputs[i];
            assert(outputs@.contains(output));
            if let Some(dimensions) = crate::world::get::<OutputDimensions>(&self.world, output) {
                if dimensions.width == dims.width as i32 && dimensions.height == dims.height as i32 {
                    assert(self@.is_filled(output, dims));
                    return true;
                }
            }
            i += 1;
        }
        assert forall|output: u64| #[trigger] self@.rows.dom().contains(output) implies !self@.is_filled(
            output,
            dims,
        ) by {
            if self@.is_filled(output, dims) {
                assert(crate::world::component::<OutputDimensions>(self@.rows, output) is Some);
                assert(outputs@.contains(output));
                let j = choose|j: int| 0 <= j < outputs@.len() && outputs@[j] == output;
                assert(!self@.is_filled(outputs@[j], dims));
            }
        }
        false
    }

    /// The window whose popup an entity becomes, if it becomes one.
    fn find_popup_parent(&self, entity: u64, data: &WindowData, fullscreen: bool) -> (parent:
        Option<Window>)
        requires
            self@.rows[entity].data == Some(data@),
            fullscreen == self@.fills_output(data@.attrs.dims),
        ensures
            parent == self@.popup_for(entity),
    {
        if data.attrs.role.is_popup() && !fullscreen {
            match self.last_hovered {
                Some(window) => Some(window),
                None => self.last_focused_toplevel,
            }
        } else {
            None
        }
    }

    /// Whether an entity can become a popup of the window.
    fn is_parent_for(&self, parent: Window, entity: u64) -> (can: bool)
        requires
            self@.wf(),
            self@.rows.dom().contains(entity),
        ensures
            can == self@.can_parent(parent, entity),
    {
        match self.find(parent) {
            Some((found, _)) => {
                assert(crate::state::carries_window(self@.rows, parent.id, found));
                let scale: Option<SurfaceScaleFactor> = crate::world::get::<SurfaceScaleFactor>(
                    &self.world,
                    found,
                );
                let own: Option<SurfaceScaleFactor> = crate::world::get::<SurfaceScaleFactor>(
                    &self.world,
                    entity,
                );
                let active: bool = match crate::world::get::<SurfaceRole>(&self.world, found) {
                    Some(role) => {
                        assert(role.xdg_data() == role@.xdg_data());
                        role.xdg().is_some()
                    },
                    None => false,
                };
                found != entity && scale.is_some() && own.is_some() && active
            },
            None => false,
        }
    }

    /// Whether an entity can be given its role.
    pub fn can_take_role(&self, entity: u64) -> (can: bool)
        requires
            self@.wf(),
        ensures
            can == self@.can_take_role(entity),
    {
        let data: WindowData = match crate::world::get::<WindowData>(&self.world, entity) {
            Some(data) => data,
            None => return false,
        };
        let surface: Option<ClientSurface> = crate::world::get::<ClientSurface>(
            &self.world,
            entity,
        );
        if surface.is_none() {
            return false;
        }
        let fullscreen: bool = self.is_output_filled(data.attrs.dims);
        let role: Option<SurfaceRole> = crate::world::get::<SurfaceRole>(&self.world, entity);
        match self.find_popup_parent(entity, &data, fullscreen) {
            Some(parent) => self.is_parent_for(parent, entity) && match role {
                Some(SurfaceRole::Toplevel(_)) => false,
                _ => true,
            },
            None => match role {
                Some(SurfaceRole::Popup(_)) => false,
                _ => true,
            },
        }
    }

    /// The popup of a window that an entity becomes. The entity takes over the window's scale
    /// factor.
    fn create_popup<D, L, W>(
        &mut self,
        entity: u64,
        parent: Window,
        metrics: &Metrics<D, L, W>,
    ) -> (popup: PopupData) where
        D: Fn(i32, Scale) -> i32,
        L: Fn(u16, u16, Scale) -> Size,
        W: Fn(u64, i32) -> bool,

        requires
            old(self)@.wf(),
            metrics.total(),
            old(self)@.rows.dom().contains(entity),
            old(self)@.rows[entity].data is Some,
            old(self)@.can_parent(parent, entity),
        ensures
            old(self)@.is_new_popup(popup@, entity, old(self)@.entity(parent), *metrics),
            final(self)@ == old(self)@.with::<SurfaceScaleFactor>(
                entity,
                old(self)@.row(parent).scale,
            ),
    {
        let ghost pre = self@;
        assert(crate::state::carries_window(pre.rows, parent.id, pre.entity(parent)));
        let dims: WindowDims = crate::world::get::<WindowData>(
            &self.world,
            entity,
        ).unwrap().attrs.dims;
        let found: (u64, WindowData) = self.find(parent).unwrap();
        let parent_entity: u64 = found.0;
        let parent_dims: WindowDims = found.1.attrs.dims;
        let factor: SurfaceScaleFactor = crate::world::get::<SurfaceScaleFactor>(
            &self.world,
            parent_entity,
        ).unwrap();
        let scale: Scale = factor.scale;
        let role: SurfaceRole = crate::world::get::<SurfaceRole>(
            &self.world,
            parent_entity,
        ).unwrap();
        self.put(entity, factor);
        let anchor: Area = crate::role::popup_anchor(
            parent_entity,
            &role,
            parent_dims,
            scale,
            self.environment.titlebar_height,
            metrics,
        );
        assert(role@.active_toplevel() == role.active_toplevel());
        let size: Size = metrics.popup_size(dims, scale);
        let offset: Point = metrics.point(
            dims.x as i32 - parent_dims.x as i32,
            dims.y as i32 - parent_dims.y as i32,
            scale,
        );
        PopupData {
            xdg: XdgSurfaceData::new(),
            parent: parent_entity,
            size,
            offset,
            anchor_origin: anchor.origin,
            anchor_size: anchor.size,
            parent_size: None,
            parent_configure: None,
            configure_anchor: anchor.origin,
            pending_anchors: Vec::new(),
            next_reposition_token: 1,
        }
    }

    /// Creates the appropriate role (toplevel or popup) for the entity of a window.
    /// Returns `true` if the created role is that of a toplevel.
    pub fn create_role_window<D, L, W>(
        &mut self,
        entity: u64,
        metrics: &Metrics<D, L, W>,
    ) -> (created: (bool, Vec<Request>)) where
        D: Fn(i32, Scale) -> i32,
        L: Fn(u16, u16, Scale) -> Size,
        W: Fn(u64, i32) -> bool,

        requires
            old(self)@.wf(),
            metrics.total(),
            old(self)@.can_take_role(entity),
        ensures
            final(self)@.wf(),
            created.0 == old(self)@.popup_for(entity) is None,
            final(self)@.rows[entity].role is Some,
            created.0 == final(self)@.rows[entity].role->0 is Toplevel,
            old(self)@.role_created(final(self)@, created.1.deep_view(), entity, *metrics),
    {
        let ghost pre = self@;
        let mut requests: Vec<Request> = Vec::new();
        ask(&mut requests, Request::AttachNothing { entity });
        ask(&mut requests, Request::Commit { entity });
        ask(&mut requests, Request::CreateXdgSurface { entity });
        let ghost opening: Seq<Request<Seq<char>>> = seq![
            Request::AttachNothing { entity },
            Request::Commit { entity },
            Request::CreateXdgSurface { entity },
        ];
        assert(requests.deep_view() =~= opening);

        let data: WindowData = crate::world::get::<WindowData>(&self.world, entity).unwrap();
        let fullscreen: bool = self.is_output_filled(data.attrs.dims);
        let popup_for: Option<Window> = self.find_popup_parent(entity, &data, fullscreen);

        let (role, is_toplevel): (SurfaceRole, bool) = match popup_for {
            Some(parent) => {
                let popup: PopupData = self.create_popup(entity, parent, metrics);
                let ghost view = popup@;
                let positioner: Positioner = popup.configure_positioner();
                ask(
                    &mut requests,
                    Request::CreatePopup { entity, parent: popup.parent, positioner },
                );
                (SurfaceRole::Popup(Some(popup)), false)
            },
            None => {
                let (toplevel, mut told): (ToplevelData, Vec<Request>) = self.create_toplevel(
                    entity,
                    &data,
                    fullscreen,
                );
                let ghost told_view = told.deep_view();
                requests.append(&mut told);
                assert(requests.deep_view() =~= opening + told_view);
                (SurfaceRole::Toplevel(Some(toplevel)), true)
            },
        };
        let ghost model = role@;
        ask(&mut requests, Request::Commit { entity });
        self.put(entity, role);
        proof {
            let after = self@;
            crate::state::row_replaced(pre.rows, pre.windows, entity, after.rows[entity]);
            assert(after.rows =~= pre.rows.insert(entity, after.rows[entity]));
            match popup_for {
                Some(parent) => {
                    let popup = model.active_popup()->0;
                    assert(after.rows =~= pre.with_new_popup(entity, popup).rows);
                    assert(pre.is_new_popup(popup, entity, pre.entity(parent), *metrics));
                    assert(requests.deep_view() =~= opening + seq![
                        Request::CreatePopup {
                            entity,
                            parent: pre.entity(parent),
                            positioner: popup.positioner(),
                        },
                    ] + seq![Request::Commit { entity }]);
                },
                None => {
                    assert(requests.deep_view() =~= opening + pre.toplevel_requests(
                        entity,
                        fullscreen,
                    ) + seq![Request::Commit { entity }]);
                },
            }
        }
        (is_toplevel, requests)
    }

    /// Notes that the server could provide decorations for a toplevel, unless the compositor
    /// decorates it.
    pub fn set_satellite_decoration(&mut self, entity: u64)
        requires
            old(self)@.wf(),
        ensures
            final(self)@.wf(),
            final(self)@ == (match old(self)@.component::<SurfaceRole>(entity) {
                Some(SurfaceRole::Toplevel(Some(toplevel))) if !toplevel.decoration.wl => old(
                    self,
                )@.with::<SurfaceRole>(
                    entity,
                    Some(
                        SurfaceRole::Toplevel(
                            Some(
                                ToplevelData {
                                    decoration: DecorationsData {
                                        satellite: true,
                                        ..toplevel.decoration
                                    },
                                    ..toplevel
                                },
                            ),
                        ),
                    ),
                ),
                _ => old(self)@,
            }),
    {
        let ghost pre = self@;
        if let Some(SurfaceRole::Toplevel(Some(mut toplevel))) = crate::world::get::<SurfaceRole>(
            &self.world,
            entity,
        ) {
            if !toplevel.decoration.wl {
                toplevel.decoration.satellite = true;
                self.put(entity, SurfaceRole::Toplevel(Some(toplevel)));
                proof {
                    crate::state::row_replaced(pre.rows, pre.windows, entity, self@.rows[entity]);
                }
            }
        }
    }
}

} // verus!
