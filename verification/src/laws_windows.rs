//! What holds of windows and of what is told of them.
use crate::geometry::{Scale, Size, Window, WindowDims, WindowOutputOffset};
use crate::metrics::Metrics;
use crate::request::Request;
use crate::role::SurfaceRole;
use crate::state::ServerModel;
use crate::window::{
    Decorations, SetState, WindowAttributes, WindowData, WindowRole, WmName, WmNormalHints,
};
use crate::world::Row;
use vstd::prelude::*;

verus! {

impl WmName<Seq<char>> {
    /// A name is the text that it was given with, whichever property that was.
    pub proof fn names_hold_their_text(text: Seq<char>)
        ensures
            WmName::WmName(text).text() == text,
            WmName::NetWmName(text).text() == text,
    {
    }
}

impl WindowData<Seq<char>> {
    /// A new window is not mapped, is to be a popup exactly if the window manager is to leave it
    /// alone, is where it was told to be, and has no other property yet.
    pub proof fn new_windows_are_plain(
        override_redirect: bool,
        dims: WindowDims,
        token: Option<Seq<char>>,
    )
        ensures
            ({
                let data = WindowData::fresh(override_redirect, dims, token);
                &&& !data.mapped
                &&& data.attrs.role == (if override_redirect {
                    WindowRole::Popup
                } else {
                    WindowRole::Normal
                })
                &&& data.attrs.dims == dims
                &&& data.activation_token == token
                &&& data.output_offset.x == 0 && data.output_offset.y == 0
                &&& data.attrs.title is None && data.attrs.class is None
                &&& data.attrs.size_hints is None && data.attrs.decorations is None
                &&& data.attrs.group is None && data.attrs.transient_for is None
                &&& !data.attrs.acquire_input_via_wm && !data.attrs.has_take_focus
            }),
    {
    }

    /// A window whose offset changes moves by as much as the offset does, and keeps its size and
    /// all else. It is asked to be where it then is, wherever it fits into X11 coordinates.
    pub proof fn windows_move_with_their_offset(self, offset: WindowOutputOffset)
        ensures
            ({
                let after = self.with_offset(offset);
                let x = self.attrs.dims.x + offset.x - self.output_offset.x;
                let y = self.attrs.dims.y + offset.y - self.output_offset.y;
                &&& after.output_offset == offset
                &&& i16::MIN <= x <= i16::MAX ==> after.attrs.dims.x == x
                &&& i16::MIN <= y <= i16::MAX ==> after.attrs.dims.y == y
                &&& (after.attrs.dims.x - x) % 0x1_0000 == 0
                &&& (after.attrs.dims.y - y) % 0x1_0000 == 0
                &&& after.attrs.dims.width == self.attrs.dims.width
                &&& after.attrs.dims.height == self.attrs.dims.height
                &&& after.mapped == self.mapped
                &&& after.activation_token == self.activation_token
                &&& after.attrs == (WindowAttributes { dims: after.attrs.dims, ..self.attrs })
                &&& after.wanted_dims().x == after.attrs.dims.x
                &&& after.wanted_dims().y == after.attrs.dims.y
                &&& after.wanted_dims().width == after.attrs.dims.width
                &&& after.wanted_dims().height == after.attrs.dims.height
            }),
    {
    }
}

impl ServerModel {
    /// A window that the server has takes any title that it is given, unless it has a
    /// `_NET_WM_NAME` and is given a `WM_NAME`. The title is then the one given, and its active
    /// toplevel is told the text, and has it drawn if the server decorates it. Else neither the
    /// server nor the compositor takes notice.
    pub proof fn titles_are_taken(self, window: Window, name: WmName<Seq<char>>, text: Seq<char>)
        requires
            name == WmName::WmName(text) || name == WmName::NetWmName(text),
        ensures
            ({
                let entity = self.windows[window.id];
                let row = self.rows[entity];
                let after = self.titled(window, name);
                let requests = self.retitle_requests(window, name);
                if self.windows.dom().contains(window.id) && !(row.data->0.attrs.title matches
                    Some(WmName::NetWmName(_)) && name is WmName) {
                    &&& after == (ServerModel {
                        rows: self.rows.insert(
                            entity,
                            Row {
                                data: Some(
                                    WindowData {
                                        attrs: WindowAttributes {
                                            title: Some(name),
                                            ..row.data->0.attrs
                                        },
                                        ..row.data->0
                                    },
                                ),
                                ..row
                            },
                        ),
                        ..self
                    })
                    &&& match row.role {
                        Some(SurfaceRole::Toplevel(Some(toplevel))) => {
                            &&& requests.len() >= 1
                            &&& requests[0] == (Request::<Seq<char>>::SetTitle {
                                entity,
                                title: text,
                            })
                            &&& !toplevel.decoration.satellite ==> requests.len() == 1
                            &&& toplevel.decoration.satellite ==> requests.len() == 2
                                && requests[1] == (Request::<Seq<char>>::DrawTitle {
                                entity,
                                title: text,
                            })
                        },
                        _ => requests.len() == 0,
                    }
                } else {
                    after == self && requests.len() == 0
                }
            }),
    {
    }

    /// Setting properties of a window that the server has changes them and nothing else. Of a
    /// window that it does not have nothing is noted.
    pub proof fn properties_are_set(self, window: Window, attrs: WindowAttributes<Seq<char>>)
        ensures
            self.windows.dom().contains(window.id) ==> self.with_attrs(window, attrs)
                == (ServerModel {
                rows: self.rows.insert(
                    self.windows[window.id],
                    Row {
                        data: Some(
                            WindowData {
                                attrs,
                                ..self.rows[self.windows[window.id]].data->0
                            },
                        ),
                        ..self.rows[self.windows[window.id]]
                    },
                ),
                ..self
            }),
            !self.windows.dom().contains(window.id) ==> self.with_attrs(window, attrs) == self,
            self.knows(window) <==> self.windows.dom().contains(window.id),
            self.entity(window) == self.windows[window.id],
            self.data(window) == self.rows[self.windows[window.id]].data->0,
    {
    }

    /// What a window's active toplevel and the latest click on it are.
    pub proof fn toplevels_and_clicks_are_the_windows(self, window: Window)
        ensures
            self.toplevel_of(window) == (match self.rows[self.windows[window.id]].role {
                Some(SurfaceRole::Toplevel(toplevel)) if self.windows.dom().contains(
                    window.id,
                ) => toplevel,
                _ => None,
            }),
            self.click_on(window) == (if self.windows.dom().contains(window.id) {
                self.rows[self.windows[window.id]].click
            } else {
                None
            }),
    {
    }

    /// The compositor is told a window's size hints exactly if the window has an active toplevel
    /// and a scale factor and the hints are other ones than before.
    pub proof fn other_hints_are_told(self, window: Window, hints: WmNormalHints)
        ensures
            ({
                let entity = self.windows[window.id];
                let row = self.rows[entity];
                let requests = self.size_hint_requests(window, hints);
                if self.windows.dom().contains(window.id) && (row.role matches Some(
                    SurfaceRole::Toplevel(Some(_)),
                )) && row.scale is Some && (row.data->0.attrs.size_hints matches Some(known)
                    ==> known != hints) {
                    requests =~= seq![
                        Request::<Seq<char>>::UpdateSizeHints {
                            entity,
                            hints,
                            scale: row.scale->0.scale,
                        },
                    ]
                } else {
                    requests.len() == 0
                }
            }),
    {
    }

    /// The compositor is told who draws a window's decorations exactly if it decorates the
    /// window's active toplevel and that changes.
    pub proof fn other_decorations_are_told(self, window: Window, decorations: Decorations)
        ensures
            ({
                let entity = self.windows[window.id];
                let row = self.rows[entity];
                let requests = self.redecorate_requests(window, decorations);
                if self.windows.dom().contains(window.id) && (row.role matches Some(
                    SurfaceRole::Toplevel(Some(toplevel)),
                ) && toplevel.decoration.wl) && (row.data->0.attrs.decorations matches Some(known)
                    ==> known != decorations) {
                    requests =~= seq![
                        Request::<Seq<char>>::SetDecorationMode { entity, mode: decorations },
                    ]
                } else {
                    requests.len() == 0
                }
            }),
    {
    }

    /// A window's active toplevel is made fullscreen when that state is added, and no longer so
    /// when it is removed. Toggling it asks for the opposite of what the toplevel is. Other
    /// windows are left alone.
    pub proof fn fullscreen_follows_the_state(self, window: Window, state: SetState)
        ensures
            ({
                let entity = self.windows[window.id];
                let requests = self.set_fullscreen_requests(window, state);
                match self.rows[entity].role {
                    Some(SurfaceRole::Toplevel(Some(toplevel))) if self.windows.dom().contains(
                        window.id,
                    ) => {
                        let wanted = match state {
                            SetState::Add => true,
                            SetState::Remove => false,
                            SetState::Toggle => !toplevel.fullscreen,
                        };
                        &&& requests.len() == 1
                        &&& wanted ==> requests[0] == (Request::<Seq<char>>::SetFullscreen {
                            entity,
                        })
                        &&& !wanted ==> requests[0] == (Request::<Seq<char>>::UnsetFullscreen {
                            entity,
                        })
                    },
                    _ => requests.len() == 0,
                }
            }),
    {
    }

    /// A token to activate a window with is asked for on behalf of the surface of the toplevel
    /// last focused, under its class and with the latest key press, and only where there is such
    /// a surface and windows can be activated at all.
    pub proof fn tokens_are_asked_for_the_focused(self, window: Window)
        ensures
            ({
                let focused = self.last_focused_toplevel->0;
                let entity = self.windows[focused.id];
                let requests = self.token_requests(window);
                if self.environment.activation && self.last_focused_toplevel is Some
                    && self.windows.dom().contains(focused.id)
                    && self.rows[entity].client_surface is Some {
                    requests =~= seq![
                        Request::<Seq<char>>::RequestActivationToken {
                            entity,
                            window,
                            for_app: self.rows[entity].data->0.attrs.class,
                            seat_and_serial: self.last_kb_serial,
                        },
                    ]
                } else {
                    requests.len() == 0
                }
            }),
    {
    }

    /// A new window has an entity of its own, with the window and its data and nothing else.
    pub proof fn new_windows_are_added(
        self,
        window: Window,
        entity: u64,
        data: WindowData<Seq<char>>,
        other: u64,
    )
        ensures
            ({
                let after = self.with_window(window, entity, data);
                &&& after.windows.dom().contains(window.id) && after.windows[window.id] == entity
                &&& after.rows.dom().contains(entity)
                &&& after.rows[entity].window == Some(window) && after.rows[entity].data == Some(
                    data,
                )
                &&& after.rows[entity].role is None && after.rows[entity].scale is None
                    && after.rows[entity].serial is None && after.rows[entity].on_output is None
                    && after.rows[entity].output_scale is None
                    && after.rows[entity].output_dimensions is None
                    && after.rows[entity].global is None && after.rows[entity].click is None
                    && after.rows[entity].pending is None
                    && after.rows[entity].client_surface is None
                    && after.rows[entity].server_surface is None
                    && after.rows[entity].server_output is None
                &&& other != entity ==> after.rows.dom().contains(other)
                    == self.rows.dom().contains(other) && after.rows[other] == self.rows[other]
                &&& after == (ServerModel { rows: after.rows, windows: after.windows, ..self })
            }),
    {
    }

    /// A window that is destroyed goes with its data. Its entity goes exactly if nothing else
    /// belongs to it.
    pub proof fn destroyed_windows_go(self, window: Window)
        requires
            self.wf(),
            self.windows.dom().contains(window.id),
        ensures
            ({
                let entity = self.windows[window.id];
                let row = self.rows[entity];
                let after = self.without_window(window);
                &&& after.windows == self.windows.remove(window.id)
                &&& after.rows.dom().contains(entity) <==> row.role is Some || row.scale is Some
                    || row.serial is Some || row.on_output is Some || row.output_scale is Some
                    || row.output_dimensions is Some || row.global is Some || row.click is Some
                    || row.pending is Some || row.client_surface is Some
                    || row.server_surface is Some || row.server_output is Some
                &&& after.rows.dom().contains(entity) ==> after.rows[entity] == (Row {
                    window: None,
                    data: None,
                    ..row
                })
                &&& forall|other: u64| #[trigger]
                    self.rows.dom().contains(other) && other != entity
                        ==> after.rows.dom().contains(other) && after.rows[other]
                        == self.rows[other]
                &&& after == (ServerModel { rows: after.rows, windows: after.windows, ..self })
            }),
    {
        let entity = self.windows[window.id];
        assert(crate::state::carries_window(self.rows, window.id, entity));
        assert(self.rows[entity].others == 0);
    }

    /// Unmapping a mapped window takes its role away, takes down what belonged to it, and forgets
    /// it as the window last focused or hovered. Other windows that are so remembered stay. A
    /// window that is not mapped is left alone.
    pub proof fn unmapped_windows_lose_their_role(self, window: Window)
        ensures
            ({
                let entity = self.windows[window.id];
                let row = self.rows[entity];
                let after = self.unmapped(window);
                let requests = self.unmap_requests(window);
                if self.windows.dom().contains(window.id) && row.data->0.mapped {
                    &&& after == (ServerModel {
                        rows: self.rows.insert(
                            entity,
                            Row {
                                data: Some(WindowData { mapped: false, ..row.data->0 }),
                                role: None,
                                ..row
                            },
                        ),
                        last_focused_toplevel: after.last_focused_toplevel,
                        last_hovered: after.last_hovered,
                        ..self
                    })
                    &&& after.last_focused_toplevel == (match self.last_focused_toplevel {
                        Some(known) if known.id != window.id => Some(known),
                        _ => None,
                    })
                    &&& after.last_hovered == (match self.last_hovered {
                        Some(known) if known.id != window.id => Some(known),
                        _ => None,
                    })
                    &&& match row.role {
                        Some(SurfaceRole::Toplevel(Some(toplevel))) => {
                            &&& requests.contains(Request::DestroyToplevel { entity })
                            &&& requests.last() == (Request::<Seq<char>>::DestroyXdgSurface {
                                entity,
                            })
                            &&& requests.len() == (if toplevel.decoration.wl {
                                3int
                            } else {
                                2
                            })
                        },
                        Some(SurfaceRole::Popup(Some(_))) => {
                            &&& requests.contains(Request::DestroyPopup { entity })
                            &&& requests.contains(Request::DestroyPositioner { entity })
                            &&& requests.last() == (Request::<Seq<char>>::DestroyXdgSurface {
                                entity,
                            })
                            &&& requests.len() == 3
                        },
                        _ => requests.len() == 0,
                    }
                } else {
                    after == self && requests.len() == 0
                }
            }),
    {
        let entity = self.windows[window.id];
        match self.rows[entity].role {
            Some(role) => {
                role.teardown_destroys_all(entity, Request::DestroyToplevel { entity });
                role.teardown_destroys_all(entity, Request::DestroyPopup { entity });
                role.teardown_destroys_all(entity, Request::DestroyPositioner { entity });
            },
            None => {},
        }
    }

    /// A window is shown exactly if the server has it and it is mapped.
    pub proof fn shown_windows_are_mapped(self, window: Window)
        ensures
            self.shows(window) <==> self.windows.dom().contains(window.id)
                && self.rows[self.windows[window.id]].data->0.mapped,
    {
    }

    /// A window that is closed, and no other, is forgotten as the one last focused or hovered.
    pub proof fn closed_windows_are_forgotten(self, window: Window)
        ensures
            ({
                let after = self.forgetting(window);
                &&& after == (ServerModel {
                    last_focused_toplevel: after.last_focused_toplevel,
                    last_hovered: after.last_hovered,
                    ..self
                })
                &&& after.last_focused_toplevel == (match self.last_focused_toplevel {
                    Some(known) if known.id != window.id => Some(known),
                    _ => None,
                })
                &&& after.last_hovered == (match self.last_hovered {
                    Some(known) if known.id != window.id => Some(known),
                    _ => None,
                })
            }),
    {
    }

    /// The first window of a process has the token that is read from the environment of the
    /// process, and windows of no process and later ones have none.
    pub proof fn first_windows_have_tokens<R: Fn(u32) -> Option<Vec<u8>>>(
        self,
        token: Option<Seq<char>>,
        pid: Option<u32>,
        read_environ: R,
    )
        requires
            self.is_token_of(token, pid, read_environ),
        ensures
            pid is None ==> token is None && self.with_pid(pid) == self,
            pid is Some && self.pids.contains(pid->0) ==> token is None,
            pid is Some ==> self.with_pid(pid) == (ServerModel {
                pids: self.pids.insert(pid->0),
                ..self
            }),
            pid is Some && !self.pids.contains(pid->0) ==> exists|environ: Option<Vec<u8>>|
                #[trigger]
                call_ensures(read_environ, (pid->0,), environ) && (environ is None ==> token
                    is None) && (environ is Some ==> token == crate::environ::token_in(
                    environ->0@,
                )),
    {
    }

    /// A reconfigured window that is mapped and has an active toplevel takes over the size. Its
    /// position stays, unless the window is to be a popup. Its viewport is fitted, and its popups
    /// are due to be re-anchored.
    pub proof fn reconfigured_toplevel_is_resized<D, L, W>(
        self,
        after: ServerModel,
        requests: Seq<Request<Seq<char>>>,
        window: Window,
        dims: WindowDims,
        metrics: Metrics<D, L, W>,
    ) where
        D: Fn(i32, Scale) -> i32,
        L: Fn(u16, u16, Scale) -> Size,
        W: Fn(u64, i32) -> bool,

        requires
            self.reconfigured(after, requests, window, dims, metrics),
            self.windows.dom().contains(window.id),
            self.rows[self.windows[window.id]].data is Some,
            self.rows[self.windows[window.id]].data->0.mapped,
            self.rows[self.windows[window.id]].data->0.attrs.dims != dims,
            self.rows[self.windows[window.id]].role matches Some(SurfaceRole::Toplevel(Some(_))),
            self.rows[self.windows[window.id]].scale is Some,
            self.environment.xdg_wm_base_version >= 3,
        ensures
            ({
                let entity = self.windows[window.id];
                let row = self.rows[entity];
                let old = row.data->0.attrs.dims;
                let popup = row.data->0.attrs.role == WindowRole::Popup;
                let now = after.rows[entity].data->0.attrs.dims;
                &&& now.width == dims.width && now.height == dims.height
                &&& !popup ==> now.x == old.x && now.y == old.y
                &&& popup ==> now == dims
                &&& after == (ServerModel {
                    rows: self.rows.insert(
                        entity,
                        Row {
                            data: Some(
                                WindowData {
                                    attrs: WindowAttributes { dims: now, ..row.data->0.attrs },
                                    ..row.data->0
                                },
                            ),
                            ..row
                        },
                    ),
                    pending_popup_refresh: self.pending_popup_refresh.push(entity),
                    ..self
                })
                &&& requests =~= seq![Request::<Seq<char>>::UpdateViewport { entity }]
            }),
    {
    }

    /// A reconfigured window that is not mapped takes over its position and its size, whatever it
    /// is, and so does a mapped one that is to be a popup. A mapped one that is neither that nor
    /// an active toplevel keeps what it had. Nothing is asked where there is no active role, no
    /// scale factor or a compositor that cannot reposition popups.
    pub proof fn reconfigured_window_without_role_is_noted<D, L, W>(
        self,
        after: ServerModel,
        requests: Seq<Request<Seq<char>>>,
        window: Window,
        dims: WindowDims,
        metrics: Metrics<D, L, W>,
    ) where
        D: Fn(i32, Scale) -> i32,
        L: Fn(u16, u16, Scale) -> Size,
        W: Fn(u64, i32) -> bool,

        requires
            self.wf(),
            self.reconfigured(after, requests, window, dims, metrics),
        ensures
            ({
                let entity = self.windows[window.id];
                let row = self.rows[entity];
                let active = match row.role {
                    Some(SurfaceRole::Toplevel(toplevel)) => toplevel is Some,
                    Some(SurfaceRole::Popup(popup)) => popup is Some,
                    None => false,
                };
                let known = self.windows.dom().contains(window.id);
                let noted = row.data->0.attrs.role == WindowRole::Popup || !row.data->0.mapped;
                &&& !known ==> after == self && requests.len() == 0
                &&& known && row.data->0.attrs.dims == dims ==> after == self && requests.len()
                    == 0
                &&& known && (!row.data->0.mapped || !active || row.scale is None
                    || self.environment.xdg_wm_base_version < 3) ==> {
                    &&& requests.len() == 0
                    &&& !noted ==> after == self
                    &&& noted ==> after == (ServerModel {
                        rows: self.rows.insert(
                            entity,
                            Row {
                                data: Some(
                                    WindowData {
                                        attrs: WindowAttributes { dims, ..row.data->0.attrs },
                                        ..row.data->0
                                    },
                                ),
                                ..row
                            },
                        ),
                        ..self
                    })
                }
            }),
    {
        if self.knows(window) {
            let entity = self.windows[window.id];
            assert(crate::state::carries_window(self.rows, window.id, entity));
            assert(self.rows.insert(entity, self.rows[entity]) =~= self.rows);
        }
    }
}

} // verus!
