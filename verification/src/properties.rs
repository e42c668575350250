//! The properties of windows, and what clients ask for their windows.
use crate::geometry::{Scale, Window};
use crate::request::{ask, nothing, only, LastClickSerial, Request, ResizeEdge};
use crate::role::{SurfaceRole, ToplevelData};
use crate::state::{InnerServerState, ServerModel};
use crate::window::{
    Decorations, MoveResizeDirection, SetState, WindowAttributes, WindowData, WindowRole, WmHints,
    WmName, WmNormalHints,
};
use crate::world::{ClientSurface, SurfaceScaleFactor, SurfaceSerial};
use vstd::prelude::*;

verus! {

impl ServerModel {
    /// The server with other properties of a window that it has. Of other windows nothing is
    /// noted.
    pub open spec fn with_attrs(
        self,
        window: Window,
        attrs: WindowAttributes<Seq<char>>,
    ) -> ServerModel {
        if self.knows(window) {
            self.with_data(window, WindowData { attrs, ..self.data(window) })
        } else {
            self
        }
    }

    /// Whether the window takes the title: a `_NET_WM_NAME` title is not replaced by a `WM_NAME`.
    pub open spec fn takes_title(self, window: Window, name: WmName<Seq<char>>) -> bool {
        &&& self.knows(window)
        &&& self.data(window).attrs.title is Some ==> !self.data(window).attrs.title->0.outranks(
            name,
        )
    }

    /// The server once the window has been given a title.
    pub open spec fn titled(self, window: Window, name: WmName<Seq<char>>) -> ServerModel {
        if self.takes_title(window, name) {
            self.with_attrs(
                window,
                WindowAttributes { title: Some(name), ..self.data(window).attrs },
            )
        } else {
            self
        }
    }

    /// The requests that a new title gives rise to.
    pub open spec fn retitle_requests(self, window: Window, name: WmName<Seq<char>>) -> Seq<
        Request<Seq<char>>,
    > {
        let entity = self.entity(window);
        let toplevel = self.row(window).toplevel();
        if self.takes_title(window, name) && toplevel is Some {
            if toplevel->0.decoration.satellite {
                seq![
                    Request::SetTitle { entity, title: name.text() },
                    Request::DrawTitle { entity, title: name.text() },
                ]
            } else {
                seq![Request::SetTitle { entity, title: name.text() }]
            }
        } else {
            seq![]
        }
    }

    /// The active toplevel of a window that the server has.
    pub open spec fn toplevel_of(self, window: Window) -> Option<ToplevelData> {
        if self.knows(window) {
            self.row(window).toplevel()
        } else {
            None
        }
    }

    /// The latest click on a window that the server has.
    pub open spec fn click_on(self, window: Window) -> Option<LastClickSerial> {
        if self.knows(window) {
            self.row(window).click
        } else {
            None
        }
    }

    /// The requests that other size hints of a window give rise to.
    pub open spec fn size_hint_requests(self, window: Window, hints: WmNormalHints) -> Seq<
        Request<Seq<char>>,
    > {
        if self.toplevel_of(window) is Some && self.row(window).scale is Some && self.data(
            window,
        ).attrs.size_hints != Some(hints) {
            seq![
                Request::UpdateSizeHints {
                    entity: self.entity(window),
                    hints,
                    scale: self.row(window).scale->0.scale,
                },
            ]
        } else {
            seq![]
        }
    }

    /// The requests that other decorations of a window give rise to.
    pub open spec fn redecorate_requests(self, window: Window, decorations: Decorations) -> Seq<
        Request<Seq<char>>,
    > {
        if self.toplevel_of(window) is Some && self.toplevel_of(window)->0.decoration.wl
            && self.data(window).attrs.decorations != Some(decorations) {
            seq![Request::SetDecorationMode { entity: self.entity(window), mode: decorations }]
        } else {
            seq![]
        }
    }

    /// The requests that make a window's toplevel fullscreen, or no longer so.
    pub open spec fn set_fullscreen_requests(self, window: Window, state: SetState) -> Seq<
        Request<Seq<char>>,
    > {
        let entity = self.entity(window);
        match self.toplevel_of(window) {
            Some(toplevel) => if state == SetState::Add || (state == SetState::Toggle
                && !toplevel.fullscreen) {
                seq![Request::SetFullscreen { entity }]
            } else {
                seq![Request::UnsetFullscreen { entity }]
            },
            None => seq![],
        }
    }

    /// The request for a token to activate the window with, on behalf of the toplevel last
    /// focused, where windows can be activated and that toplevel has a surface.
    pub open spec fn token_requests(self, window: Window) -> Seq<Request<Seq<char>>> {
        let focused = self.last_focused_toplevel;
        if self.environment.activation && focused is Some && self.knows(focused->0) && self.row(
            focused->0,
        ).client_surface is Some {
            seq![
                Request::RequestActivationToken {
                    entity: self.entity(focused->0),
                    window,
                    for_app: self.data(focused->0).attrs.class,
                    seat_and_serial: self.last_kb_serial,
                },
            ]
        } else {
            seq![]
        }
    }
}

impl InnerServerState {
    /// The active toplevel of an entity.
    fn active_toplevel(&self, entity: u64) -> (toplevel: Option<ToplevelData>)
        requires
            self@.rows.dom().contains(entity),
        ensures
            toplevel == self@.rows[entity].toplevel(),
    {
        match crate::world::get::<SurfaceRole>(&self.world, entity) {
            Some(SurfaceRole::Toplevel(toplevel)) => toplevel,
            _ => None,
        }
    }

    /// The entity and the active toplevel of a window, if the server has it.
    fn find_toplevel(&self, window: Window) -> (found: Option<(u64, ToplevelData)>)
        requires
            self@.wf(),
        ensures
            found is Some == self@.toplevel_of(window) is Some,
            found is Some ==> (found->0).0 == self@.entity(window) && (found->0).1
                == self@.toplevel_of(window)->0,
    {
        match self.find(window) {
            Some((entity, _)) => {
                assert(crate::state::carries_window(self@.rows, window.id, entity));
                match self.active_toplevel(entity) {
                    Some(toplevel) => Some((entity, toplevel)),
                    None => None,
                }
            },
            None => None,
        }
    }

    /// Sets what a window is for.
    pub fn set_window_role(&mut self, window: Window, role: WindowRole)
        requires
            old(self)@.wf(),
        ensures
            final(self)@.wf(),
            final(self)@ == old(self)@.with_attrs(
                window,
                WindowAttributes { role, ..old(self)@.data(window).attrs },
            ),
    {
        if let Some((entity, mut data)) = self.find(window) {
            data.attrs.role = role;
            self.put_data(window, entity, data);
        }
    }

    /// Sets a window's title, unless it has one that outranks the given one.
    pub fn set_win_title(&mut self, window: Window, name: WmName) -> (requests: Vec<Request>)
        requires
            old(self)@.wf(),
        ensures
            final(self)@.wf(),
            final(self)@ == old(self)@.titled(window, name@),
            requests.deep_view() == old(self)@.retitle_requests(window, name@),
    {
        let ghost pre = self@;
        let (entity, mut data): (u64, WindowData) = match self.find(window) {
            Some(found) => found,
            None => return nothing(),
        };
        assert(crate::state::carries_window(pre.rows, window.id, entity));
        let keeps: bool = match &data.attrs.title {
            Some(WmName::NetWmName(_)) => matches!(name, WmName::WmName(_)),
            _ => false,
        };
        assert(keeps == !pre.takes_title(window, name@));
        if keeps {
            return nothing();
        }
        let mut requests: Vec<Request> = nothing();
        if let Some(toplevel) = self.active_toplevel(entity) {
            ask(&mut requests, Request::SetTitle { entity, title: name.name().clone() });
            if toplevel.decoration.satellite {
                ask(&mut requests, Request::DrawTitle { entity, title: name.name().clone() });
            }
        }
        assert(requests.deep_view() =~= pre.retitle_requests(window, name@));
        data.attrs.title = Some(name);
        self.put_data(window, entity, data);
        requests
    }

    /// Sets a window's class.
    pub fn set_win_class(&mut self, window: Window, class: String) -> (requests: Vec<Request>)
        requires
            old(self)@.wf(),
        ensures
            final(self)@.wf(),
            final(self)@ == old(self)@.with_attrs(
                window,
                WindowAttributes { class: Some(class@), ..old(self)@.data(window).attrs },
            ),
            requests.deep_view() == (if old(self)@.toplevel_of(window) is Some {
                seq![Request::SetAppId { entity: old(self)@.entity(window), app_id: class@ }]
            } else {
                seq![]
            }),
    {
        let (entity, mut data): (u64, WindowData) = match self.find(window) {
            Some(found) => found,
            None => return nothing(),
        };
        assert(crate::state::carries_window(self@.rows, window.id, entity));
        let requests: Vec<Request> = match self.active_toplevel(entity) {
            Some(_) => only(Request::SetAppId { entity, app_id: class.clone() }),
            None => nothing(),
        };
        data.attrs.class = Some(class);
        self.put_data(window, entity, data);
        requests
    }

    /// Sets a window's hints to the window manager.
    pub fn set_win_hints(&mut self, window: Window, hints: WmHints)
        requires
            old(self)@.wf(),
        ensures
            final(self)@.wf(),
            final(self)@ == old(self)@.with_attrs(
                window,
                WindowAttributes {
                    group: hints.window_group,
                    acquire_input_via_wm: hints.acquire_input_via_wm,
                    ..old(self)@.data(window).attrs
                },
            ),
    {
        if let Some((entity, mut data)) = self.find(window) {
            data.attrs.group = hints.window_group;
            data.attrs.acquire_input_via_wm = hints.acquire_input_via_wm;
            self.put_data(window, entity, data);
        }
    }

    /// Sets whether a window takes the input focus by itself.
    pub fn set_take_focus(&mut self, window: Window, has_take_focus: bool)
        requires
            old(self)@.wf(),
        ensures
            final(self)@.wf(),
            final(self)@ == old(self)@.with_attrs(
                window,
                WindowAttributes { has_take_focus, ..old(self)@.data(window).attrs },
            ),
    {
        if let Some((entity, mut data)) = self.find(window) {
            data.attrs.has_take_focus = has_take_focus;
            self.put_data(window, entity, data);
        }
    }

    /// Sets a window's wishes on its size. The compositor is told if they are other wishes than
    /// before.
    pub fn set_size_hints(&mut self, window: Window, hints: WmNormalHints) -> (requests: Vec<
        Request,
    >)
        requires
            old(self)@.wf(),
        ensures
            final(self)@.wf(),
            final(self)@ == old(self)@.with_attrs(
                window,
                WindowAttributes { size_hints: Some(hints), ..old(self)@.data(window).attrs },
            ),
            requests.deep_view() == old(self)@.size_hint_requests(window, hints),
    {
        let ghost pre = self@;
        let (entity, mut data): (u64, WindowData) = match self.find(window) {
            Some(found) => found,
            None => return nothing(),
        };
        assert(crate::state::carries_window(pre.rows, window.id, entity));
        if data.attrs.size_hints == Some(hints) {
            assert(pre.rows.insert(entity, pre.rows[entity]) =~= pre.rows);
            return nothing();
        }
        let toplevel: Option<ToplevelData> = self.active_toplevel(entity);
        let factor: Option<SurfaceScaleFactor> = crate::world::get::<SurfaceScaleFactor>(
            &self.world,
            entity,
        );
        let requests: Vec<Request> = match (toplevel, factor) {
            (Some(_), Some(factor)) => only(
                Request::UpdateSizeHints { entity, hints, scale: factor.scale },
            ),
            _ => nothing(),
        };
        data.attrs.size_hints = Some(hints);
        self.put_data(window, entity, data);
        requests
    }

    /// Sets who draws a window's decorations. The compositor is told if that changes.
    pub fn set_win_decorations(&mut self, window: Window, decorations: Decorations) -> (requests:
        Vec<Request>)
        requires
            old(self)@.wf(),
        ensures
            final(self)@.wf(),
            final(self)@ == old(self)@.with_attrs(
                window,
                WindowAttributes {
                    decorations: Some(decorations),
                    ..old(self)@.data(window).attrs
                },
            ),
            requests.deep_view() == old(self)@.redecorate_requests(window, decorations),
    {
        let ghost pre = self@;
        let (entity, mut data): (u64, WindowData) = match self.find(window) {
            Some(found) => found,
            None => return nothing(),
        };
        assert(crate::state::carries_window(pre.rows, window.id, entity));
        if data.attrs.decorations == Some(decorations) {
            assert(pre.rows.insert(entity, pre.rows[entity]) =~= pre.rows);
            return nothing();
        }
        let requests: Vec<Request> = match self.active_toplevel(entity) {
            Some(toplevel) => if toplevel.decoration.wl {
                only(Request::SetDecorationMode { entity, mode: decorations })
            } else {
                nothing()
            },
            None => nothing(),
        };
        data.attrs.decorations = Some(decorations);
        self.put_data(window, entity, data);
        requests
    }

    /// Sets the serial by which a window is matched with its surface.
    pub fn set_window_serial(&mut self, window: Window, serial: [u32; 2])
        requires
            old(self)@.wf(),
        ensures
            final(self)@.wf(),
            final(self)@ == (if old(self)@.knows(window) {
                old(self)@.with::<SurfaceSerial>(
                    old(self)@.entity(window),
                    Some(SurfaceSerial { serial }),
                )
            } else {
                old(self)@
            }),
    {
        if let Some((entity, _)) = self.find(window) {
            assert(crate::state::carries_window(self@.rows, window.id, entity));
            let _attached: bool = self.attach(entity, SurfaceSerial { serial });
        }
    }

    /// Whether a window may be moved: not if it is a mapped one that the compositor places.
    pub fn can_change_position(&self, window: Window) -> (can: bool)
        requires
            self@.wf(),
        ensures
            can == (self@.shows(window) ==> self@.data(window).attrs.role.is_popup()),
    {
        match self.find(window) {
            Some((_, data)) => !data.mapped || data.attrs.role.is_popup(),
            None => true,
        }
    }

    /// Sets the window that a window is transient for.
    pub fn set_transient_for(&mut self, window: Window, parent: Window)
        requires
            old(self)@.wf(),
        ensures
            final(self)@.wf(),
            final(self)@ == old(self)@.with_attrs(
                window,
                WindowAttributes {
                    transient_for: Some(parent),
                    ..old(self)@.data(window).attrs
                },
            ),
    {
        if let Some((entity, mut data)) = self.find(window) {
            data.attrs.transient_for = Some(parent);
            self.put_data(window, entity, data);
        }
    }

    /// Returns the window to restore focus to when the active window is unmapped.
    /// If a toplevel was previously focused, returns it; otherwise returns the absent window.
    pub fn focus_restore_target(&self) -> (target: Window)
        ensures
            target == (match self@.last_focused_toplevel {
                Some(window) => window,
                None => Window { id: Window::NONE },
            }),
    {
        match self.last_focused_toplevel {
            Some(window) => window,
            None => Window::none(),
        }
    }

    /// Makes a window's toplevel fullscreen, or no longer so.
    pub fn set_fullscreen(&self, window: Window, state: SetState) -> (requests: Vec<Request>)
        requires
            self@.wf(),
        ensures
            requests.deep_view() == self@.set_fullscreen_requests(window, state),
    {
        match self.find_toplevel(window) {
            Some((entity, toplevel)) => match state {
                SetState::Add => only(Request::SetFullscreen { entity }),
                SetState::Remove => only(Request::UnsetFullscreen { entity }),
                SetState::Toggle => if toplevel.fullscreen {
                    only(Request::UnsetFullscreen { entity })
                } else {
                    only(Request::SetFullscreen { entity })
                },
            },
            None => nothing(),
        }
    }

    /// Asks for a token to activate a window with.
    pub fn activate_window(&self, window: Window) -> (requests: Vec<Request>)
        requires
            self@.wf(),
        ensures
            requests.deep_view() == self@.token_requests(window),
    {
        if !self.environment.activation {
            return nothing();
        }
        let focused: Window = match self.last_focused_toplevel {
            Some(focused) => focused,
            None => return nothing(),
        };
        match self.find(focused) {
            Some((entity, data)) => {
                assert(crate::state::carries_window(self@.rows, focused.id, entity));
                match crate::world::get::<ClientSurface>(&self.world, entity) {
                    Some(_) => only(
                        Request::RequestActivationToken {
                            entity,
                            window,
                            for_app: data.attrs.class,
                            seat_and_serial: self.last_kb_serial,
                        },
                    ),
                    None => nothing(),
                }
            },
            None => nothing(),
        }
    }

    /// Moves a window's toplevel with the pointer, from where it was clicked last.
    pub fn move_window(&self, window: Window) -> (requests: Vec<Request>)
        requires
            self@.wf(),
        ensures
            requests.deep_view() == (if self@.click_on(window) is Some && self@.toplevel_of(
                window,
            ) is Some {
                seq![
                    Request::<Seq<char>>::Move {
                        entity: self@.entity(window),
                        click: self@.click_on(window)->0,
                    },
                ]
            } else {
                seq![]
            }),
    {
        match self.find_toplevel(window) {
            Some((entity, _)) => {
                assert(crate::state::carries_window(self@.rows, window.id, entity));
                match crate::world::get::<LastClickSerial>(&self.world, entity) {
                    Some(click) => only(Request::Move { entity, click }),
                    None => nothing(),
                }
            },
            None => nothing(),
        }
    }

    /// Resizes a window's toplevel with the pointer, from where it was clicked last. The
    /// direction must be one in which the pointer can drag an edge.
    pub fn resize_window(&self, window: Window, direction: MoveResizeDirection) -> (requests: Vec<
        Request,
    >)
        requires
            self@.wf(),
            self@.click_on(window) is Some && self@.toplevel_of(window) is Some
                ==> direction.edge() is Some,
        ensures
            requests.deep_view() == (if self@.click_on(window) is Some && self@.toplevel_of(
                window,
            ) is Some {
                seq![
                    Request::<Seq<char>>::Resize {
                        entity: self@.entity(window),
                        click: self@.click_on(window)->0,
                        edge: direction.edge()->0,
                    },
                ]
            } else {
                seq![]
            }),
    {
        match self.find_toplevel(window) {
            Some((entity, _)) => {
                assert(crate::state::carries_window(self@.rows, window.id, entity));
                match crate::world::get::<LastClickSerial>(&self.world, entity) {
                    Some(click) => {
                        let edge: ResizeEdge = direction.edge().unwrap();
                        only(Request::Resize { entity, click, edge })
                    },
                    None => nothing(),
                }
            },
            None => nothing(),
        }
    }

    /// The scale factor that applications are to use from now on, if it has changed and has not
    /// been asked for since.
    pub fn new_global_scale(&mut self) -> (scale: Option<Scale>)
        ensures
            scale == old(self)@.new_scale,
            final(self)@ == (ServerModel { new_scale: None, ..old(self)@ }),
    {
        self.new_scale.take()
    }
}

} // verus!
