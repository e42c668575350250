//! What holds of the roles that surfaces are given and lose.
use crate::geometry::{Scale, Size, Window};
use crate::laws_popups::joined;
use crate::metrics::Metrics;
use crate::request::Request;
use crate::role::{DecorationsData, SurfaceRole, ToplevelData, XdgSurfaceData};
use crate::state::ServerModel;
use crate::window::{Decorations, WindowData, WindowRole};
use crate::world::Row;
use vstd::prelude::*;

verus! {

impl ServerModel {
    /// Which requests make an xdg surface the toplevel of its window: those that tell what is
    /// known of the window, and no others. A title or a class that the window lacks is that of
    /// its group's leader.
    proof fn toplevel_is_told(
        self,
        entity: u64,
        fullscreen: bool,
        data: WindowData<Seq<char>>,
        request: Request<Seq<char>>,
    )
        requires
            self.rows[entity].data == Some(data),
        ensures
            self.toplevel_requests(entity, fullscreen).contains(request) <==> ({
                let attrs = data.attrs;
                let splash = attrs.role == WindowRole::Splash;
                let led = attrs.group is Some && self.windows.dom().contains(attrs.group->0.id);
                let leader = self.rows[self.windows[attrs.group->0.id]].data->0.attrs;
                match request {
                    Request::CreateToplevel { entity: made } => made == entity,
                    Request::SetMinSize { entity: made, width, height } => made == entity && (
                    attrs.size_hints is Some && attrs.size_hints->0.min_size == Some(
                        Size { width, height },
                    ) || splash && width == attrs.dims.width && height == attrs.dims.height),
                    Request::SetMaxSize { entity: made, width, height } => made == entity && (
                    attrs.size_hints is Some && attrs.size_hints->0.max_size == Some(
                        Size { width, height },
                    ) || splash && width == attrs.dims.width && height == attrs.dims.height),
                    Request::SetAppId { entity: made, app_id } => made == entity && (attrs.class
                        == Some(app_id) || attrs.class is None && led && leader.class == Some(
                        app_id,
                    )),
                    Request::SetTitle { entity: made, title } => made == entity && (match attrs.title {
                        Some(name) => title == name.text(),
                        None => led && leader.title is Some && title == leader.title->0.text(),
                    }),
                    Request::SetFullscreen { entity: made } => made == entity && fullscreen,
                    Request::CreateDecoration { entity: made } => made == entity
                        && self.environment.decoration_manager,
                    Request::SetDecorationMode { entity: made, mode } => made == entity
                        && self.environment.decoration_manager && (attrs.decorations == Some(mode)
                        || attrs.decorations is None && mode == Decorations::Server),
                    Request::CreateSatelliteDecoration { entity: made, initial_title } => {
                        &&& made == entity
                        &&& !self.environment.decoration_manager
                        &&& attrs.decorations != Some(Decorations::Client)
                        &&& match attrs.title {
                            Some(name) => initial_title == Some(name.text()),
                            None => initial_title is None,
                        }
                    },
                    Request::Activate { entity: made, activation_token } => made == entity
                        && self.environment.activation && data.activation_token == Some(
                        activation_token,
                    ),
                    Request::SetParent { entity: made, parent } => {
                        &&& made == entity
                        &&& attrs.transient_for is Some
                        &&& self.windows.dom().contains(attrs.transient_for->0.id)
                        &&& parent == self.windows[attrs.transient_for->0.id]
                        &&& self.rows[parent].role matches Some(SurfaceRole::Toplevel(Some(_)))
                    },
                    _ => false,
                }
            }),
    {
        let attrs = data.attrs;
        let token = if self.environment.activation {
            data.activation_token
        } else {
            None
        };
        let p0: Seq<Request<Seq<char>>> = seq![Request::CreateToplevel { entity }];
        let p1 = crate::create::hint_requests(entity, attrs.size_hints);
        let p2 = crate::create::fixed_size_requests(
            entity,
            attrs.role == WindowRole::Splash,
            attrs.dims,
        );
        let p3 = crate::create::app_id_requests(entity, self.app_id(data));
        let p4 = crate::create::title_requests(entity, self.title(data));
        let p5 = crate::create::fullscreen_requests(entity, fullscreen);
        let p6 = self.decoration_requests(entity, data);
        let p7 = crate::create::activation_requests(entity, token);
        let p8 = crate::create::parent_requests(entity, self.transient_parent(data));
        joined(p0, p1, request);
        joined(p0 + p1, p2, request);
        joined(p0 + p1 + p2, p3, request);
        joined(p0 + p1 + p2 + p3, p4, request);
        joined(p0 + p1 + p2 + p3 + p4, p5, request);
        joined(p0 + p1 + p2 + p3 + p4 + p5, p6, request);
        joined(p0 + p1 + p2 + p3 + p4 + p5 + p6, p7, request);
        joined(p0 + p1 + p2 + p3 + p4 + p5 + p6 + p7, p8, request);
        assert(p0.contains(request) <==> request == p0[0]);
        assert(p1.contains(request) <==> (p1.len() > 0 && request == p1[0]) || (p1.len() > 1
            && request == p1[1]));
        assert(p2.contains(request) <==> (p2.len() > 0 && (request == p2[0] || request == p2[1])));
        assert(p3.contains(request) <==> (p3.len() > 0 && request == p3[0]));
        assert(p4.contains(request) <==> (p4.len() > 0 && request == p4[0]));
        assert(p5.contains(request) <==> (p5.len() > 0 && request == p5[0]));
        assert(p6.contains(request) <==> (p6.len() > 0 && request == p6[0]) || (p6.len() > 1
            && request == p6[1]));
        assert(p7.contains(request) <==> (p7.len() > 0 && request == p7[0]));
        assert(p8.contains(request) <==> (p8.len() > 0 && request == p8[0]));
    }
}

impl ServerModel {
    /// A window becomes a toplevel unless it is to be a popup, there is a window that it can be a
    /// popup of, and it is not as large as an output, in width and in height. Which requests this
    /// takes: those that tell what is known of the window, and no others. The toplevel is made
    /// fullscreen exactly if the window is as large as an output.
    pub proof fn toplevel_is_created_as_known<D, L, W>(
        self,
        after: ServerModel,
        requests: Seq<Request<Seq<char>>>,
        entity: u64,
        data: WindowData<Seq<char>>,
        request: Request<Seq<char>>,
        metrics: Metrics<D, L, W>,
    ) where
        D: Fn(i32, Scale) -> i32,
        L: Fn(u16, u16, Scale) -> Size,
        W: Fn(u64, i32) -> bool,

        requires
            self.role_created(after, requests, entity, metrics),
            self.rows[entity].data == Some(data),
            data.attrs.role != WindowRole::Popup || self.last_hovered is None
                && self.last_focused_toplevel is None || exists|output: u64| #[trigger]
                self.rows.dom().contains(output) && (self.rows[output].output_dimensions matches
                    Some(area) && area.width == data.attrs.dims.width && area.height
                    == data.attrs.dims.height),
        ensures
            after == (ServerModel {
                rows: self.rows.insert(
                    entity,
                    Row {
                        role: Some(
                            SurfaceRole::Toplevel(
                                Some(
                                    ToplevelData {
                                        xdg: XdgSurfaceData { configured: false, pending: None },
                                        fullscreen: false,
                                        decoration: DecorationsData {
                                            wl: self.environment.decoration_manager,
                                            satellite: false,
                                        },
                                    },
                                ),
                            ),
                        ),
                        ..self.rows[entity]
                    },
                ),
                ..self
            }),
            requests.len() >= 5,
            requests[0] == (Request::<Seq<char>>::AttachNothing { entity }),
            requests[1] == (Request::<Seq<char>>::Commit { entity }),
            requests[2] == (Request::<Seq<char>>::CreateXdgSurface { entity }),
            requests[3] == (Request::<Seq<char>>::CreateToplevel { entity }),
            requests.last() == (Request::<Seq<char>>::Commit { entity }),
            requests.contains(request) <==> ({
                let attrs = data.attrs;
                let splash = attrs.role == WindowRole::Splash;
                let led = attrs.group is Some && self.windows.dom().contains(attrs.group->0.id);
                let leader = self.rows[self.windows[attrs.group->0.id]].data->0.attrs;
                match request {
                    Request::CreateToplevel { entity: made } => made == entity,
                    Request::SetMinSize { entity: made, width, height } => made == entity && (
                    attrs.size_hints is Some && attrs.size_hints->0.min_size == Some(
                        Size { width, height },
                    ) || splash && width == attrs.dims.width && height == attrs.dims.height),
                    Request::SetMaxSize { entity: made, width, height } => made == entity && (
                    attrs.size_hints is Some && attrs.size_hints->0.max_size == Some(
                        Size { width, height },
                    ) || splash && width == attrs.dims.width && height == attrs.dims.height),
                    Request::SetAppId { entity: made, app_id } => made == entity && (attrs.class
                        == Some(app_id) || attrs.class is None && led && leader.class == Some(
                        app_id,
                    )),
                    Request::SetTitle { entity: made, title } => made == entity && (match attrs.title {
                        Some(name) => title == name.text(),
                        None => led && leader.title is Some && title == leader.title->0.text(),
                    }),
                    Request::SetFullscreen { entity: made } => made == entity && exists|output: u64|
                        #[trigger]
                        self.rows.dom().contains(output) && (self.rows[output].output_dimensions matches
                            Some(area) && area.width == attrs.dims.width && area.height
                            == attrs.dims.height),
                    Request::AttachNothing { entity: made } => made == entity,
                    Request::Commit { entity: made } => made == entity,
                    Request::CreateXdgSurface { entity: made } => made == entity,
                    Request::CreateDecoration { entity: made } => made == entity
                        && self.environment.decoration_manager,
                    Request::SetDecorationMode { entity: made, mode } => made == entity
                        && self.environment.decoration_manager && (attrs.decorations == Some(mode)
                        || attrs.decorations is None && mode == Decorations::Server),
                    Request::CreateSatelliteDecoration { entity: made, initial_title } => {
                        &&& made == entity
                        &&& !self.environment.decoration_manager
                        &&& attrs.decorations != Some(Decorations::Client)
                        &&& match attrs.title {
                            Some(name) => initial_title == Some(name.text()),
                            None => initial_title is None,
                        }
                    },
                    Request::Activate { entity: made, activation_token } => made == entity
                        && self.environment.activation && data.activation_token == Some(
                        activation_token,
                    ),
                    Request::SetParent { entity: made, parent } => {
                        &&& made == entity
                        &&& attrs.transient_for is Some
                        &&& self.windows.dom().contains(attrs.transient_for->0.id)
                        &&& parent == self.windows[attrs.transient_for->0.id]
                        &&& self.rows[parent].role matches Some(SurfaceRole::Toplevel(Some(_)))
                    },
                    _ => false,
                }
            }),
    {
        let dims = data.attrs.dims;
        let fullscreen = self.fills_output(dims);
        assert(fullscreen <==> exists|output: u64| #[trigger]
            self.rows.dom().contains(output) && (self.rows[output].output_dimensions matches Some(
                area,
            ) && area.width == dims.width && area.height == dims.height)) by {
            if fullscreen {
                let output = choose|output: u64| #[trigger]
                    self.rows.dom().contains(output) && self.is_filled(output, dims);
                assert(self.rows.dom().contains(output));
            }
            if exists|output: u64| #[trigger]
                self.rows.dom().contains(output) && (self.rows[output].output_dimensions matches
                    Some(area) && area.width == dims.width && area.height == dims.height) {
                let output = choose|output: u64| #[trigger]
                    self.rows.dom().contains(output) && (
                    self.rows[output].output_dimensions matches Some(area) && area.width
                        == dims.width && area.height == dims.height);
                assert(self.rows.dom().contains(output) && self.is_filled(output, dims));
            }
        }
        assert(self.popup_for(entity) is None);
        let opening: Seq<Request<Seq<char>>> = seq![
            Request::AttachNothing { entity },
            Request::Commit { entity },
            Request::CreateXdgSurface { entity },
        ];
        let told = self.toplevel_requests(entity, fullscreen);
        let closing: Seq<Request<Seq<char>>> = seq![Request::Commit { entity }];
        assert(requests == opening + told + closing);
        assert(told[0] == (Request::<Seq<char>>::CreateToplevel { entity }));
        self.toplevel_is_told(entity, fullscreen, data, request);
        joined(opening, told, request);
        joined(opening + told, closing, request);
        assert(opening.contains(request) <==> request == opening[0] || request == opening[1]
            || request == opening[2]);
        assert(closing.contains(request) <==> request == closing[0]);
    }

    /// Whatever an application splash window's size hints are, it is told last that its smallest
    /// and its largest size are the one that it has.
    pub proof fn splash_size_is_told_last(self, entity: u64, fullscreen: bool, i: int)
        requires
            self.rows[entity].data->0.attrs.role == WindowRole::Splash,
            0 <= i < self.toplevel_requests(entity, fullscreen).len(),
            self.toplevel_requests(entity, fullscreen)[i] is SetMinSize || self.toplevel_requests(
                entity,
                fullscreen,
            )[i] is SetMaxSize,
        ensures
            ({
                let requests = self.toplevel_requests(entity, fullscreen);
                let dims = self.rows[entity].data->0.attrs.dims;
                exists|j: int, k: int|
                    i <= j < requests.len() && #[trigger] requests[j] == (Request::<
                        Seq<char>,
                    >::SetMaxSize {
                        entity,
                        width: dims.width as i32,
                        height: dims.height as i32,
                    }) && 0 <= k < j && #[trigger] requests[k] == (Request::<
                        Seq<char>,
                    >::SetMinSize {
                        entity,
                        width: dims.width as i32,
                        height: dims.height as i32,
                    })
            }),
    {
        let data = self.rows[entity].data->0;
        let requests = self.toplevel_requests(entity, fullscreen);
        let hints = crate::create::hint_requests(entity, data.attrs.size_hints);
        let fixed = crate::create::fixed_size_requests(entity, true, data.attrs.dims);
        let start = 1 + hints.len() as int;
        assert(requests[start] == fixed[0]);
        assert(requests[start + 1] == fixed[1]);
        if i > start + 1 {
            let rest = crate::create::app_id_requests(entity, self.app_id(data))
                + crate::create::title_requests(entity, self.title(data))
                + crate::create::fullscreen_requests(entity, fullscreen)
                + self.decoration_requests(entity, data) + crate::create::activation_requests(
                entity,
                if self.environment.activation {
                    data.activation_token
                } else {
                    None
                },
            ) + crate::create::parent_requests(entity, self.transient_parent(data));
            assert(requests =~= seq![Request::<Seq<char>>::CreateToplevel { entity }] + hints
                + fixed + rest);
            assert(requests[i] == rest[i - start - 2]);
        }
    }

    /// An entity can be given its role exactly if it has a surface at the compositor and a
    /// window, and has had no role of the other kind; and, where it is to be a popup, if the
    /// window that it is to be a popup of is another one that the server has, with a scale factor
    /// and an active role, and it has a scale factor itself.
    pub proof fn role_can_be_taken(self, entity: u64, data: WindowData<Seq<char>>)
        requires
            self.rows.dom().contains(entity),
            self.rows[entity].data == Some(data),
            self.rows[entity].client_surface is Some,
        ensures
            data.attrs.role != WindowRole::Popup || self.last_hovered is None
                && self.last_focused_toplevel is None ==> (self.can_take_role(entity) <==> !(
            self.rows[entity].role matches Some(SurfaceRole::Popup(_)))),
            forall|parent: Window|
                #![trigger self.windows.dom().contains(parent.id)]
                data.attrs.role == WindowRole::Popup && (forall|output: u64| #[trigger]
                    self.rows.dom().contains(output) ==> self.rows[output].output_dimensions is None)
                    && (self.last_hovered == Some(parent) || self.last_hovered is None
                    && self.last_focused_toplevel == Some(parent)) ==> (self.can_take_role(entity)
                    <==> {
                    let owner = self.rows[self.windows[parent.id]];
                    &&& !(self.rows[entity].role matches Some(SurfaceRole::Toplevel(_)))
                    &&& self.windows.dom().contains(parent.id)
                    &&& self.windows[parent.id] != entity
                    &&& owner.scale is Some
                    &&& self.rows[entity].scale is Some
                    &&& match owner.role {
                        Some(SurfaceRole::Toplevel(toplevel)) => toplevel is Some,
                        Some(SurfaceRole::Popup(popup)) => popup is Some,
                        None => false,
                    }
                }),
    {
        if forall|output: u64| #[trigger]
            self.rows.dom().contains(output) ==> self.rows[output].output_dimensions is None {
            assert(!self.fills_output(data.attrs.dims)) by {
                if self.fills_output(data.attrs.dims) {
                    let output = choose|output: u64| #[trigger]
                        self.rows.dom().contains(output) && self.is_filled(
                            output,
                            data.attrs.dims,
                        );
                    assert(self.rows.dom().contains(output));
                }
            }
        }
    }
}

impl<P> SurfaceRole<P> {
    /// Taking a role down destroys what belongs to it, each thing once, the xdg surface last:
    /// the toplevel and the compositor's decoration, if there is one, or the popup and its
    /// positioner. Where there is no active role, nothing is destroyed.
    pub proof fn teardown_destroys_all(self, entity: u64, request: Request<Seq<char>>)
        ensures
            ({
                let requests = self.teardown::<Seq<char>>(entity);
                &&& requests.contains(request) <==> match self {
                    SurfaceRole::Toplevel(Some(toplevel)) => request == (Request::<
                        Seq<char>,
                    >::DestroyToplevel { entity }) || request == (Request::<
                        Seq<char>,
                    >::DestroyXdgSurface { entity }) || toplevel.decoration.wl && request
                        == (Request::<Seq<char>>::DestroyDecoration { entity }),
                    SurfaceRole::Popup(Some(_)) => request == (Request::<
                        Seq<char>,
                    >::DestroyPositioner { entity }) || request == (Request::<
                        Seq<char>,
                    >::DestroyPopup { entity }) || request == (Request::<
                        Seq<char>,
                    >::DestroyXdgSurface { entity }),
                    _ => false,
                }
                &&& requests.no_duplicates()
                &&& requests.len() > 0 ==> requests.last() == (Request::<
                    Seq<char>,
                >::DestroyXdgSurface { entity })
                &&& requests.len() > 0 && requests[0] is DestroyDecoration ==> requests[1]
                    == (Request::<Seq<char>>::DestroyToplevel { entity })
            }),
    {
        let requests = self.teardown::<Seq<char>>(entity);
        assert(requests.contains(request) <==> (requests.len() > 0 && requests[0] == request) || (
        requests.len() > 1 && requests[1] == request) || (requests.len() > 2 && requests[2]
            == request));
    }

    /// The xdg surface's state is that of the active role, and changing it changes nothing else.
    pub proof fn xdg_state_is_that_of_the_role(self, xdg: XdgSurfaceData)
        ensures
            match self {
                SurfaceRole::Toplevel(Some(toplevel)) => {
                    &&& self.xdg_data() == Some(toplevel.xdg)
                    &&& self.with_xdg(xdg) matches SurfaceRole::Toplevel(Some(now)) && now.xdg
                        == xdg && now.fullscreen == toplevel.fullscreen && now.decoration
                        == toplevel.decoration
                },
                SurfaceRole::Popup(Some(popup)) => {
                    &&& self.xdg_data() == Some(popup.xdg)
                    &&& self.with_xdg(xdg) matches SurfaceRole::Popup(Some(now)) && now.xdg == xdg
                        && now.parent == popup.parent && now.size == popup.size && now.offset
                        == popup.offset && now.anchor_origin == popup.anchor_origin
                        && now.anchor_size == popup.anchor_size && now.parent_size
                        == popup.parent_size && now.parent_configure == popup.parent_configure
                        && now.configure_anchor == popup.configure_anchor && now.pending_anchors
                        == popup.pending_anchors && now.next_reposition_token
                        == popup.next_reposition_token
                },
                _ => self.xdg_data() is None && self.with_xdg(xdg) == self,
            },
    {
    }
}

impl<P> SurfaceRole<P> {
    /// A role that has been taken down has no decoration of the compositor's any longer, and is
    /// otherwise as it was.
    pub proof fn teardown_drops_the_decoration(self)
        ensures
            match self {
                SurfaceRole::Toplevel(Some(toplevel)) => self.torn_down() matches
                    SurfaceRole::Toplevel(Some(now)) && !now.decoration.wl
                    && now.decoration.satellite == toplevel.decoration.satellite && now.xdg
                    == toplevel.xdg && now.fullscreen == toplevel.fullscreen,
                _ => self.torn_down() == self,
            },
    {
    }
}

impl ServerModel {
    /// A server to which nothing has happened has no entities, windows or globals, remembers
    /// nothing, has nothing to do, and uses the scale factor one.
    pub proof fn new_servers_are_empty(environment: crate::state::Environment)
        ensures
            ({
                let state = ServerModel::initial(environment);
                &&& state.wf()
                &&& state.environment == environment
                &&& state.rows.dom().len() == 0 && state.windows.dom().len() == 0
                &&& state.pids.len() == 0 && state.globals.dom().len() == 0
                &&& state.to_focus is None && !state.unfocus
                &&& state.last_focused_toplevel is None && state.last_hovered is None
                &&& state.last_kb_serial is None && state.pending_activations.len() == 0
                &&& state.global_output_offset.x.owner is None
                    && state.global_output_offset.y.owner is None
                &&& state.global_output_offset.x.value == 0 && state.global_output_offset.y.value
                    == 0
                &&& !state.global_offset_updated && state.updated_outputs.len() == 0
                &&& state.pending_popup_refresh.len() == 0
                &&& state.new_scale is None && state.current_scale == environment.unscaled
            }),
    {
    }
}

} // verus!
