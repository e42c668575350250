//! The server with its connection to the X server, and what it does once events have come from
//! the compositor.
use crate::connection::{NoConnection, XConnection, XRequest};
use crate::geometry::{PendingSurfaceState, Scale, Size, Window, WindowOutputOffset};
use crate::globals::Advertisement;
use crate::metrics::Metrics;
use crate::request::Request;
use crate::state::{Environment, FocusData, Global, InnerServerState, ServerModel};
use crate::world::{Row, ServerOutput};
use vstd::prelude::*;

verus! {

/// The server. It starts without a connection to the X server, and is given one later.
pub struct ServerState<C: XConnection> {
    pub inner: InnerServerState,
    pub connection: C,
}

impl<S> ServerState<NoConnection<S>> {
    /// A server to which nothing has happened yet, and which offers what the compositor offers.
    pub fn new(
        environment: Environment,
        globals: &Vec<Global>,
    ) -> (created: (ServerState<NoConnection<S>>, Vec<Advertisement>))
        ensures
            created.0.inner@.wf(),
            created.0.inner@ == ServerModel::initial(environment).with_globals(
                globals.deep_view(),
            ),
            created.0.connection.asked() == Seq::<XRequest>::empty(),
            created.1@ == globals.deep_view().filter(crate::globals::offered()).map_values(
                crate::globals::advertisement(),
            ),
    {
        let mut inner: InnerServerState = InnerServerState::new(environment);
        let advertised: Vec<Advertisement> = inner.handle_new_globals(globals);
        (ServerState { inner, connection: NoConnection::new() }, advertised)
    }

    /// The same server with a connection to the X server.
    pub fn upgrade_connection<C>(self, connection: C) -> (upgraded: ServerState<C>) where
        C: XConnection<X11Selection = S>,

        ensures
            upgraded.inner == self.inner,
            upgraded.connection == connection,
    {
        ServerState { inner: self.inner, connection }
    }
}

impl ServerModel {
    /// Whether the entity is a window that is to be given other dimensions.
    pub open spec fn is_due(self, entity: u64) -> bool {
        &&& self.rows.dom().contains(entity)
        &&& self.rows[entity].window is Some
        &&& self.rows[entity].pending is Some
    }

    /// What is asked of the X server for such windows, in the order of the list.
    pub open spec fn dims_requests(self, list: Seq<u64>) -> Seq<XRequest> {
        Seq::new(
            list.len(),
            |i: int|
                XRequest::Dims {
                    window: self.rows[list[i]].window->0,
                    dims: self.rows[list[i]].pending->0,
                },
        )
    }

    /// Whether the list names exactly such windows, each once, in any order.
    pub open spec fn lists_due(self, list: Seq<u64>) -> bool {
        &&& list.no_duplicates()
        &&& forall|entity: u64| #[trigger] list.contains(entity) <==> self.is_due(entity)
    }

    /// The server once no window is to be given other dimensions.
    pub open spec fn none_due(self) -> ServerModel {
        ServerModel {
            rows: Map::new(
                |entity: u64| self.rows.dom().contains(entity),
                |entity: u64|
                    if self.is_due(entity) {
                        Row { pending: None, ..self.rows[entity] }
                    } else {
                        self.rows[entity]
                    },
            ),
            ..self
        }
    }

    /// Whether the outputs' common origin has to be found again: a coordinate of it has no owner.
    pub open spec fn lacks_origin(self) -> bool {
        self.global_output_offset.x.owner is None || self.global_output_offset.y.owner is None
    }

    /// Whether `after` is the server once the common origin has been found again, if it had to
    /// be.
    pub open spec fn origin_settled(self, after: ServerModel) -> bool {
        if self.lacks_origin() {
            self.origin_found(ServerModel {
                global_offset_updated: self.global_offset_updated,
                ..after
            }) && after.global_offset_updated
        } else {
            after == self
        }
    }

    /// Whether the list is that of the outputs that are to be told where they are: all of them if
    /// the common origin has changed, else none.
    pub open spec fn lists_to_tell(self, list: Seq<u64>) -> bool {
        if self.global_offset_updated {
            crate::world::lists_all::<ServerOutput>(list, self.rows)
        } else {
            list == Seq::<u64>::empty()
        }
    }

    /// The server once focus has been given to the window that is to be focused, or been taken
    /// from all windows.
    pub open spec fn focused(self) -> ServerModel {
        ServerModel {
            to_focus: None,
            unfocus: false,
            last_focused_toplevel: if self.to_focus is Some && !self.to_focus->0.is_popup {
                Some(self.to_focus->0.window)
            } else {
                self.last_focused_toplevel
            },
            ..self
        }
    }

    /// What is asked of the X server for this.
    pub open spec fn focus_requests(self) -> Seq<XRequest> {
        match self.to_focus {
            Some(focus) => seq![
                XRequest::Focus { window: focus.window, output_name: focus.output_name },
            ],
            None => if self.unfocus {
                seq![XRequest::Focus { window: Window { id: Window::NONE }, output_name: None }]
            } else {
                seq![]
            },
        }
    }

    /// Whether `after` is the server once popups have been re-anchored, windows have been given
    /// the dimensions that they are to have, in the order of the list, and the outputs' common
    /// origin is known.
    pub open spec fn geometry_settled<D, L, W>(
        self,
        mid: ServerModel,
        settled: ServerModel,
        due: Seq<u64>,
        requests: Seq<Request<Seq<char>>>,
        metrics: Metrics<D, L, W>,
    ) -> bool where
        D: Fn(i32, Scale) -> i32,
        L: Fn(u16, u16, Scale) -> Size,
        W: Fn(u64, i32) -> bool,
     {
        &&& self.pending_refreshed(mid, requests, metrics)
        &&& mid.lists_due(due)
        &&& mid.none_due().origin_settled(settled)
    }
}

impl<C: XConnection> ServerState<C> {
    /// Moves a window by the distance from its present offset to the given one.
    pub fn update_output_offset(&mut self, window: Window, offset: WindowOutputOffset)
        requires
            old(self).inner@.wf(),
        ensures
            final(self).inner@.wf(),
            old(self).inner@.knows(window) ==> final(self).inner@ == old(self).inner@.with_data(
                window,
                old(self).inner@.data(window).with_offset(offset),
            ),
            !old(self).inner@.knows(window) ==> final(self).inner@ == old(self).inner@,
            final(self).connection.asked() == (if old(self).inner@.knows(window) && old(
                self,
            ).inner@.data(window).output_offset != offset {
                old(self).connection.asked().push(
                    XRequest::Dims {
                        window,
                        dims: old(self).inner@.data(window).with_offset(offset).wanted_dims(),
                    },
                )
            } else {
                old(self).connection.asked()
            }),
    {
        if let Some((entity, mut data)) = self.inner.find(window) {
            let ghost before = data;
            data.update_output_offset(window, offset, &mut self.connection);
            assert(data@ == before@.with_offset(offset));
            self.inner.put_data(window, entity, data);
        }
    }

    /// Gives windows the dimensions that they are to have.
    fn apply_pending_dims(&mut self)
        requires
            old(self).inner@.wf(),
        ensures
            final(self).inner@.wf(),
            final(self).inner@ == old(self).inner@.none_due(),
            exists|due: Seq<u64>|
                {
                    &&& #[trigger] old(self).inner@.lists_due(due)
                    &&& final(self).connection.asked() == old(self).connection.asked()
                        + old(self).inner@.dims_requests(due)
                },
    {
        let ghost pre = self.inner@;
        let ghost asked = self.connection.asked();
        let entities: Vec<u64> = crate::world::entities_with::<PendingSurfaceState>(
            &self.inner.world,
        );
        let ghost mut due: Seq<u64> = Seq::empty();
        assert(asked =~= asked + pre.dims_requests(due));
        let mut i: usize = 0;
        while i < entities.len()
            invariant
                i <= entities.len(),
                self.inner@.wf(),
                crate::world::lists_all::<PendingSurfaceState>(entities@, pre.rows),
                due.no_duplicates(),
                forall|entity: u64| #[trigger]
                    due.contains(entity) <==> pre.is_due(entity) && entities@.take(
                        i as int,
                    ).contains(entity),
                self.connection.asked() == asked + pre.dims_requests(due),
                self.inner@ == (ServerModel { rows: self.inner@.rows, ..pre }),
                self.inner@.rows.dom() == pre.rows.dom(),
                forall|entity: u64| #[trigger]
                    pre.rows.dom().contains(entity) ==> self.inner@.rows[entity]
                        == (if due.contains(entity) {
                        Row { pending: None, ..pre.rows[entity] }
                    } else {
                        pre.rows[entity]
                    }),
            decreases entities.len() - i,
        {
            let entity: u64 = entities[i];
            assert(entities@.contains(entity));
            proof {
                crate::lists::passing(entities@, i as int);
                crate::lists::pushing(due, entity);
            }
            assert(!due.contains(entity));
            assert(self.inner@.rows[entity] == pre.rows[entity]);
            let window: Option<Window> = crate::world::get::<Window>(&self.inner.world, entity);
            let dims: Option<PendingSurfaceState> = crate::world::get::<PendingSurfaceState>(
                &self.inner.world,
                entity,
            );
            if let (Some(window), Some(dims)) = (window, dims) {
                let _set: bool = self.connection.set_window_dims(window, dims);
                let _done: Option<PendingSurfaceState> = self.inner.detach::<PendingSurfaceState>(
                    entity,
                );
                proof {
                    let grown = due.push(entity);
                    assert(pre.dims_requests(grown) =~= pre.dims_requests(due).push(
                        XRequest::Dims { window, dims },
                    ));
                    assert(self.connection.asked() =~= asked + pre.dims_requests(grown));
                    assert(self.inner@.rows.dom() =~= pre.rows.dom());
                    due = grown;
                }
            }
            i += 1;
        }
        proof {
            assert(entities@.take(i as int) =~= entities@);
            assert forall|entity: u64| #[trigger] due.contains(entity) <==> pre.is_due(entity) by {
                if pre.is_due(entity) {
                    assert(crate::world::component::<PendingSurfaceState>(pre.rows, entity) is Some);
                    assert(entities@.contains(entity));
                }
            }
            assert(pre.lists_due(due));
            assert(self.inner@.rows =~= pre.none_due().rows);
        }
    }

    /// Does what is due once the compositor's events have been handled, up to where the outputs
    /// are told where they are: popups are re-anchored, windows are given the dimensions that
    /// they are to have, and the outputs' common origin is found again if it has to be. The
    /// outputs that are to be told are returned.
    pub fn handle_clientside_events<D, L, W>(
        &mut self,
        metrics: &Metrics<D, L, W>,
    ) -> (handled: (Vec<Request>, Vec<u64>)) where
        D: Fn(i32, Scale) -> i32,
        L: Fn(u16, u16, Scale) -> Size,
        W: Fn(u64, i32) -> bool,

        requires
            old(self).inner@.wf(),
            metrics.total(),
        ensures
            final(self).inner@.wf(),
            exists|mid: ServerModel, settled: ServerModel, due: Seq<u64>|
                {
                    &&& #[trigger] old(self).inner@.geometry_settled(
                        mid,
                        settled,
                        due,
                        handled.0.deep_view(),
                        *metrics,
                    )
                    &&& final(self).connection.asked() == old(self).connection.asked()
                        + mid.dims_requests(due)
                    &&& settled.lists_to_tell(handled.1@)
                    &&& final(self).inner@ == (ServerModel {
                        global_offset_updated: false,
                        ..settled
                    })
                },
    {
        let ghost pre = self.inner@;
        let requests: Vec<Request> = self.inner.refresh_pending_popups(metrics);
        let ghost mid = self.inner@;
        let ghost asked = self.connection.asked();
        self.apply_pending_dims();
        let ghost due = choose|due: Seq<u64>|
            {
                &&& #[trigger] mid.lists_due(due)
                &&& self.connection.asked() == asked + mid.dims_requests(due)
            };
        let ghost undue = self.inner@;
        if self.inner.global_output_offset.x.owner.is_none()
            || self.inner.global_output_offset.y.owner.is_none() {
            self.inner.calc_global_output_offset();
            self.inner.global_offset_updated = true;
        }
        let ghost settled = self.inner@;
        assert(undue.origin_settled(settled));
        let mut outputs: Vec<u64> = Vec::new();
        if self.inner.global_offset_updated {
            outputs = crate::world::entities_with::<ServerOutput>(&self.inner.world);
            self.inner.global_offset_updated = false;
        }
        let handled: (Vec<Request>, Vec<u64>) = (requests, outputs);
        assert(settled.lists_to_tell(handled.1@));
        assert(pre.geometry_settled(mid, settled, due, handled.0.deep_view(), *metrics));
        handled
    }

    /// Gives focus to the window that is to be focused, or takes it from all windows.
    fn handle_focus(&mut self)
        requires
            old(self).inner@.wf(),
        ensures
            final(self).inner@.wf(),
            final(self).inner@ == old(self).inner@.focused(),
            final(self).connection.asked() == old(self).connection.asked()
                + old(self).inner@.focus_requests(),
    {
        let ghost pre = self.inner@;
        let ghost asked = self.connection.asked();
        match self.inner.to_focus.take() {
            Some(FocusData { window, output_name, is_popup }) => {
                self.connection.focus_window(window, output_name);
                if !is_popup {
                    self.inner.last_focused_toplevel = Some(window);
                }
            },
            None => {
                if self.inner.unfocus {
                    self.connection.focus_window(Window::none(), None);
                }
            },
        }
        self.inner.unfocus = false;
        assert(self.connection.asked() =~= asked + pre.focus_requests());
    }

    /// Does what is due once the outputs have been told where they are: surfaces take over the
    /// scale factors of outputs that have changed, the scale factor for applications is chosen,
    /// and focus is given to the window that is to be focused.
    pub fn finish_clientside_events<D, L, W>(
        &mut self,
        metrics: &Metrics<D, L, W>,
    ) -> (requests: Vec<Request>) where
        D: Fn(i32, Scale) -> i32,
        L: Fn(u16, u16, Scale) -> Size,
        W: Fn(u64, i32) -> bool,

        requires
            old(self).inner@.wf(),
            metrics.total(),
        ensures
            final(self).inner@.wf(),
            exists|mid: ServerModel|
                {
                    &&& #[trigger] old(self).inner@.outputs_updated(
                        mid,
                        requests.deep_view(),
                        *metrics,
                    )
                    &&& final(self).inner@ == mid.focused()
                    &&& final(self).connection.asked() == old(self).connection.asked()
                        + mid.focus_requests()
                },
            match old(self).inner@.to_focus {
                Some(focus) => {
                    &&& final(self).connection.asked() == old(self).connection.asked().push(
                        XRequest::Focus { window: focus.window, output_name: focus.output_name },
                    )
                    &&& final(self).inner@.last_focused_toplevel == (if focus.is_popup {
                        old(self).inner@.last_focused_toplevel
                    } else {
                        Some(focus.window)
                    })
                },
                None => {
                    &&& final(self).connection.asked() == (if old(self).inner@.unfocus {
                        old(self).connection.asked().push(
                            XRequest::Focus { window: Window { id: 0 }, output_name: None },
                        )
                    } else {
                        old(self).connection.asked()
                    })
                    &&& final(self).inner@.last_focused_toplevel
                        == old(self).inner@.last_focused_toplevel
                },
            },
            final(self).inner@.to_focus is None,
            !final(self).inner@.unfocus,
    {
        let ghost pre = self.inner@;
        let requests: Vec<Request> = self.inner.handle_updated_outputs(metrics);
        let ghost mid = self.inner@;
        let ghost asked = self.connection.asked();
        self.handle_focus();
        proof {
            pre.changed_outputs_keep_the_rest(mid, requests.deep_view(), *metrics);
            mid.focus_goes_where_it_is_due();
        }
        assert(self.connection.asked() =~= asked + mid.focus_requests());
        requests
    }

    /// Asks a window's client to close it.
    pub fn close_x_window(&mut self, window: Window)
        requires
            old(self).inner@.wf(),
        ensures
            final(self).inner@.wf(),
            final(self).inner@ == old(self).inner@.forgetting(window),
            final(self).connection.asked() == old(self).connection.asked().push(
                XRequest::Close { window },
            ),
    {
        self.connection.close_window(window);
        if self.inner.last_focused_toplevel == Some(window) {
            self.inner.last_focused_toplevel = None;
        }
        if self.inner.last_hovered == Some(window) {
            self.inner.last_hovered = None;
        }
    }
}

} // verus!
