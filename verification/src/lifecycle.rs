//! The life of a window: how it comes, is mapped and moved, and goes.
use crate::geometry::{Scale, Size, Window, WindowDims};
use crate::metrics::Metrics;
use crate::request::{nothing, only, Request};
use crate::role::{PendingAnchor, PopupData, SurfaceRole};
use crate::state::{InnerServerState, ServerModel};
use crate::window::WindowData;
use crate::world::{Row, SurfaceScaleFactor};
use vstd::prelude::*;

verus! {

broadcast use vstd::std_specs::hash::group_hash_axioms;

impl ServerModel {
    /// The server once it has seen a window of the process.
    pub open spec fn with_pid(self, pid: Option<u32>) -> ServerModel {
        match pid {
            Some(pid) => ServerModel { pids: self.pids.insert(pid), ..self },
            None => self,
        }
    }

    /// Whether `token` is what a new window of the process is activated with: the token in the
    /// process's environment, as it is read, if no window of the process has been seen before.
    pub open spec fn is_token_of<R: Fn(u32) -> Option<Vec<u8>>>(
        self,
        token: Option<Seq<char>>,
        pid: Option<u32>,
        read_environ: R,
    ) -> bool {
        if pid is Some && !self.pids.contains(pid->0) {
            exists|environ: Option<Vec<u8>>|
                {
                    &&& #[trigger] call_ensures(read_environ, (pid->0,), environ)
                    &&& token == match environ {
                        Some(environ) => crate::environ::token_in(environ@),
                        None => None,
                    }
                }
        } else {
            token is None
        }
    }

    /// The server once it has a new window, whose entity is the given one.
    pub open spec fn with_window(
        self,
        window: Window,
        entity: u64,
        data: WindowData<Seq<char>>,
    ) -> ServerModel {
        ServerModel {
            rows: self.rows.insert(
                entity,
                Row { window: Some(window), data: Some(data), ..Row::empty() },
            ),
            windows: self.windows.insert(window.id, entity),
            ..self
        }
    }

    /// The server once a window has been destroyed. Its entity goes too, unless something else
    /// belongs to it.
    pub open spec fn without_window(self, window: Window) -> ServerModel {
        if self.knows(window) {
            let entity = self.entity(window);
            let left = Row { window: None, data: None, ..self.rows[entity] };
            ServerModel {
                rows: if left == Row::empty() {
                    self.rows.remove(entity)
                } else {
                    self.rows.insert(entity, left)
                },
                windows: self.windows.remove(window.id),
                ..self
            }
        } else {
            self
        }
    }

    /// The server once nothing that happened to the window is remembered as the latest.
    pub open spec fn forgetting(self, window: Window) -> ServerModel {
        ServerModel {
            last_focused_toplevel: if self.last_focused_toplevel == Some(window) {
                None
            } else {
                self.last_focused_toplevel
            },
            last_hovered: if self.last_hovered == Some(window) {
                None
            } else {
                self.last_hovered
            },
            ..self
        }
    }

    /// Whether the window is one that the server has, and mapped.
    pub open spec fn shows(self, window: Window) -> bool {
        self.knows(window) && self.data(window).mapped
    }

    /// The server once a window has been unmapped: its role is gone, and it is no longer the
    /// window last focused or hovered.
    pub open spec fn unmapped(self, window: Window) -> ServerModel {
        if self.shows(window) {
            let row = self.row(window);
            ServerModel {
                rows: self.rows.insert(
                    self.entity(window),
                    Row {
                        data: Some(WindowData { mapped: false, ..row.data->0 }),
                        role: None,
                        ..row
                    },
                ),
                ..self.forgetting(window)
            }
        } else {
            self
        }
    }

    /// The requests that unmapping a window gives rise to.
    pub open spec fn unmap_requests(self, window: Window) -> Seq<Request<Seq<char>>> {
        if self.shows(window) && self.row(window).role is Some {
            self.row(window).role->0.teardown::<Seq<char>>(self.entity(window))
        } else {
            seq![]
        }
    }

    /// The window's data once it has been reconfigured, as far as its role does not matter: popups
    /// and windows that are not mapped are where they say.
    pub open spec fn told_dims(self, window: Window, dims: WindowDims) -> WindowData<Seq<char>> {
        let data = self.data(window);
        if data.attrs.role.is_popup() || !data.mapped {
            data.with_dims(dims)
        } else {
            data
        }
    }

    /// Whether what the window's surface is matters when the window is reconfigured: it is mapped
    /// and has a role and a scale factor, and the compositor can reposition popups.
    pub open spec fn role_matters(self, window: Window) -> bool {
        &&& self.data(window).mapped
        &&& self.environment.xdg_wm_base_version >= 3
        &&& self.row(window).role is Some
        &&& self.row(window).scale is Some
    }

    /// Whether the entity has dimensions and a scale factor, by which its popups are placed.
    pub open spec fn is_placed(self, entity: u64) -> bool {
        &&& self.rows.dom().contains(entity)
        &&& self.rows[entity].data is Some
        &&& self.rows[entity].scale is Some
    }

    /// Whether `popup` is the popup of a window that has been reconfigured, before it is
    /// repositioned. Its offset is that from the parent's X window, in the parent's logical
    /// coordinates, and stays where nothing is known of the parent. Its size follows its own
    /// scale factor. That is not in response to any configure of the parent.
    pub open spec fn popup_reconfigured<D, L, W>(
        self,
        popup: PopupData<Seq<PendingAnchor>>,
        window: Window,
        dims: WindowDims,
        metrics: Metrics<D, L, W>,
    ) -> bool where
        D: Fn(i32, Scale) -> i32,
        L: Fn(u16, u16, Scale) -> Size,
        W: Fn(u64, i32) -> bool,
     {
        let before = self.row(window).popup()->0;
        let parent = self.rows[before.parent];
        &&& popup == PopupData {
            offset: popup.offset,
            size: popup.size,
            parent_configure: None,
            ..before
        }
        &&& if self.is_placed(before.parent) {
            metrics.is_point(
                (dims.x - parent.data->0.attrs.dims.x) as i32,
                (dims.y - parent.data->0.attrs.dims.y) as i32,
                parent.scale->0.scale,
                popup.offset,
            )
        } else {
            popup.offset == before.offset
        }
        &&& metrics.is_popup_size(dims, self.row(window).scale->0.scale, popup.size)
    }

    /// Whether `after` is the server once the window has been reconfigured to the dimensions,
    /// for which the requests are made. A popup is repositioned. A toplevel takes over the size,
    /// not the position, and its popups are due to be re-anchored.
    pub open spec fn reconfigured<D, L, W>(
        self,
        after: ServerModel,
        requests: Seq<Request<Seq<char>>>,
        window: Window,
        dims: WindowDims,
        metrics: Metrics<D, L, W>,
    ) -> bool where
        D: Fn(i32, Scale) -> i32,
        L: Fn(u16, u16, Scale) -> Size,
        W: Fn(u64, i32) -> bool,
     {
        let entity = self.entity(window);
        let told = self.told_dims(window, dims);
        if !self.knows(window) || dims == self.data(window).attrs.dims {
            after == self && requests == Seq::<Request<Seq<char>>>::empty()
        } else if self.role_matters(window) && self.row(window).popup() is Some {
            exists|popup: PopupData<Seq<PendingAnchor>>|
                {
                    &&& #[trigger] self.popup_reconfigured(popup, window, dims, metrics)
                    &&& after == ServerModel {
                        rows: self.rows.insert(
                            entity,
                            Row { data: Some(told), ..self.row(window) }.with_popup(
                                popup.awaiting(),
                            ),
                        ),
                        ..self
                    }
                    &&& requests == seq![popup.reposition_request::<Seq<char>>(entity)]
                }
        } else if self.role_matters(window) && self.row(window).toplevel() is Some {
            &&& after == ServerModel {
                pending_popup_refresh: self.pending_popup_refresh.push(entity),
                ..self.with_data(
                    window,
                    told.with_dims(
                        WindowDims {
                            width: dims.width,
                            height: dims.height,
                            ..told.attrs.dims
                        },
                    ),
                )
            }
            &&& requests == seq![Request::<Seq<char>>::UpdateViewport { entity }]
        } else {
            after == self.with_data(window, told) && requests == Seq::<Request<Seq<char>>>::empty()
        }
    }
}

impl InnerServerState {
    /// The activation token that a window is activated with, if it is the first one of its
    /// process.
    fn token_of<R: Fn(u32) -> Option<Vec<u8>>>(
        &mut self,
        pid: Option<u32>,
        read_environ: &R,
    ) -> (token: Option<String>)
        requires
            forall|pid: u32| call_requires(*read_environ, (pid,)),
        ensures
            old(self)@.is_token_of(token.deep_view(), pid, *read_environ),
            final(self)@ == old(self)@.with_pid(pid),
    {
        let ghost pre = self@;
        match pid {
            Some(pid) => {
                if self.pids.insert(pid) {
                    let environ: Option<Vec<u8>> = read_environ(pid);
                    let token: Option<String> = match &environ {
                        Some(environ) => crate::environ::activation_token(environ),
                        None => None,
                    };
                    assert(call_ensures(*read_environ, (pid,), environ));
                    token
                } else {
                    assert(pre.pids.insert(pid) =~= pre.pids);
                    None
                }
            },
            None => None,
        }
    }

    /// Adds a window, which belongs to the given process. The window is activated with the token
    /// that the process was started with, if the window is the first one of it; `read_environ`
    /// reads the environment of a process. There must be room for one more entity.
    pub fn new_window<R: Fn(u32) -> Option<Vec<u8>>>(
        &mut self,
        window: Window,
        override_redirect: bool,
        dims: WindowDims,
        pid: Option<u32>,
        read_environ: R,
    )
        requires
            old(self)@.wf(),
            old(self)@.rows.dom().len() < u32::MAX,
            forall|pid: u32| call_requires(read_environ, (pid,)),
        ensures
            final(self)@.wf(),
            !old(self)@.rows.dom().contains(final(self)@.entity(window)),
            old(self)@.is_token_of(
                final(self)@.data(window).activation_token,
                pid,
                read_environ,
            ),
            final(self)@ == old(self)@.with_pid(pid).with_window(
                window,
                final(self)@.entity(window),
                WindowData::fresh(
                    override_redirect,
                    dims,
                    final(self)@.data(window).activation_token,
                ),
            ),
    {
        let ghost pre = self@;
        let activation_token: Option<String> = self.token_of(pid, &read_environ);
        let data: WindowData = WindowData::new(override_redirect, dims, activation_token);
        let ghost view = data@;
        let entity: u64 = crate::world::spawn(&mut self.world);
        self.put(entity, window);
        self.put(entity, data);
        let _old: Option<u64> = self.windows.insert(window.id, entity);
        proof {
            let row = Row { window: Some(window), data: Some(view), ..Row::empty() };
            assert(self@.rows =~= pre.rows.insert(entity, row));
            crate::state::row_added(pre.rows, pre.windows, entity, row);
        }
    }

    /// Destroys a window.
    pub fn destroy_window(&mut self, window: Window)
        requires
            old(self)@.wf(),
        ensures
            final(self)@.wf(),
            final(self)@ == old(self)@.without_window(window),
    {
        let ghost pre = self@;
        if let Some(entity) = self.windows.remove(&window.id) {
            assert(crate::state::carries_window(pre.rows, window.id, entity));
            let _window: Option<Window> = crate::world::remove_one::<Window>(
                &mut self.world,
                entity,
            );
            let _data: Option<WindowData> = crate::world::remove_one::<WindowData>(
                &mut self.world,
                entity,
            );
            let ghost left = Row { window: None, data: None, ..pre.rows[entity] };
            assert(self@.rows =~= pre.rows.insert(entity, left));
            if crate::world::is_empty(&self.world, entity) {
                let _existed: bool = crate::world::despawn(&mut self.world, entity);
                assert(self@.rows =~= pre.rows.remove(entity));
            }
            assert forall|id: u32| #[trigger]
                self@.windows.dom().contains(id) implies crate::state::carries_window(
                self@.rows,
                id,
                self@.windows[id],
            ) by {
                assert(crate::state::carries_window(pre.rows, id, pre.windows[id]));
            }
        } else {
            assert(self@.windows =~= pre.windows);
        }
    }

    /// Notes that a window has been mapped.
    pub fn map_window(&mut self, window: Window)
        requires
            old(self)@.wf(),
        ensures
            final(self)@.wf(),
            final(self)@ == (if old(self)@.knows(window) {
                old(self)@.with_data(
                    window,
                    WindowData { mapped: true, ..old(self)@.data(window) },
                )
            } else {
                old(self)@
            }),
    {
        if let Some((entity, mut data)) = self.find(window) {
            data.mapped = true;
            self.put_data(window, entity, data);
        }
    }

    /// Puts the data of a window that the server has in place of those that it had.
    pub(crate) fn put_data(&mut self, window: Window, entity: u64, data: WindowData)
        requires
            old(self)@.wf(),
            old(self)@.knows(window),
            old(self)@.entity(window) == entity,
        ensures
            final(self)@.wf(),
            final(self)@ == old(self)@.with_data(window, data@),
    {
        let ghost pre = self@;
        assert(crate::state::carries_window(pre.rows, window.id, entity));
        self.put(entity, data);
        proof {
            crate::state::row_replaced(pre.rows, pre.windows, entity, self@.rows[entity]);
        }
    }

    /// Notes that a window has been unmapped, and takes its role down.
    pub fn unmap_window(&mut self, window: Window) -> (requests: Vec<Request>)
        requires
            old(self)@.wf(),
        ensures
            final(self)@.wf(),
            final(self)@ == old(self)@.unmapped(window),
            requests.deep_view() == old(self)@.unmap_requests(window),
    {
        let ghost pre = self@;
        let (entity, mut data): (u64, WindowData) = match self.find(window) {
            Some(found) => found,
            None => return nothing(),
        };
        if !data.mapped {
            return nothing();
        }
        assert(crate::state::carries_window(pre.rows, window.id, entity));
        if self.last_focused_toplevel == Some(window) {
            self.last_focused_toplevel = None;
        }
        if self.last_hovered == Some(window) {
            self.last_hovered = None;
        }
        data.mapped = false;
        self.put(entity, data);
        let removed: Option<SurfaceRole> = crate::world::remove_one::<SurfaceRole>(
            &mut self.world,
            entity,
        );
        proof {
            assert(self@.rows =~= pre.unmapped(window).rows);
            crate::state::row_replaced(pre.rows, pre.windows, entity, self@.rows[entity]);
        }
        match removed {
            Some(mut role) => {
                assert(role.teardown::<Seq<char>>(entity) == role@.teardown::<Seq<char>>(entity));
                role.destroy(entity)
            },
            None => nothing(),
        }
    }

    /// Takes note of where a window is and how large it is, as the X server has told.
    pub fn reconfigure_window<D, L, W>(
        &mut self,
        window: Window,
        dims: WindowDims,
        metrics: &Metrics<D, L, W>,
    ) -> (requests: Vec<Request>) where
        D: Fn(i32, Scale) -> i32,
        L: Fn(u16, u16, Scale) -> Size,
        W: Fn(u64, i32) -> bool,

        requires
            old(self)@.wf(),
            metrics.total(),
        ensures
            final(self)@.wf(),
            old(self)@.reconfigured(
                final(self)@,
                requests.deep_view(),
                window,
                dims,
                *metrics,
            ),
    {
        let ghost pre = self@;
        let (entity, mut data): (u64, WindowData) = match self.find(window) {
            Some(found) => found,
            None => return nothing(),
        };
        if dims == data.attrs.dims {
            return nothing();
        }
        assert(crate::state::carries_window(pre.rows, window.id, entity));
        let mapped: bool = data.mapped;
        if data.attrs.role.is_popup() || !mapped {
            data.attrs.dims = dims;
        }
        assert(data@ == pre.told_dims(window, dims));
        if !mapped || self.environment.xdg_wm_base_version < 3 {
            self.put_data(window, entity, data);
            return nothing();
        }
        let role: Option<SurfaceRole> = crate::world::get::<SurfaceRole>(&self.world, entity);
        let factor: Option<SurfaceScaleFactor> = crate::world::get::<SurfaceScaleFactor>(
            &self.world,
            entity,
        );
        let ghost told = data@;
        match (role, factor) {
            (Some(SurfaceRole::Popup(Some(mut popup))), Some(factor)) => {
                assert(pre.row(window).popup() == Some(popup@));
                let parent: Option<WindowData> = crate::world::get::<WindowData>(
                    &self.world,
                    popup.parent,
                );
                let parent_factor: Option<SurfaceScaleFactor> = crate::world::get::<
                    SurfaceScaleFactor,
                >(&self.world, popup.parent);
                if let (Some(parent), Some(parent_factor)) = (parent, parent_factor) {
                    popup.offset = metrics.point(
                        dims.x as i32 - parent.attrs.dims.x as i32,
                        dims.y as i32 - parent.attrs.dims.y as i32,
                        parent_factor.scale,
                    );
                }
                popup.size = metrics.popup_size(dims, factor.scale);
                popup.parent_configure = None;
                let ghost placed = popup@;
                assert(pre.popup_reconfigured(placed, window, dims, *metrics));
                let request: Request = popup.reposition(entity);
                self.put_data(window, entity, data);
                let ghost mid = self@;
                self.put(entity, SurfaceRole::Popup(Some(popup)));
                proof {
                    crate::state::row_replaced(mid.rows, mid.windows, entity, self@.rows[entity]);
                    assert(self@.rows =~= pre.rows.insert(
                        entity,
                        Row { data: Some(told), ..pre.row(window) }.with_popup(placed.awaiting()),
                    ));
                }
                only(request)
            },
            (Some(SurfaceRole::Toplevel(Some(_))), Some(_)) => {
                data.attrs.dims.width = dims.width;
                data.attrs.dims.height = dims.height;
                self.put_data(window, entity, data);
                self.pending_popup_refresh.push(entity);
                only(Request::UpdateViewport { entity })
            },
            _ => {
                self.put_data(window, entity, data);
                nothing()
            },
        }
    }
}

} // verus!
