//! What holds of the server across its operations.
use crate::geometry::{Area, Scale, Size, Window, WindowDims};
use crate::metrics::Metrics;
use crate::outputs::Axis;
use crate::request::Request;
use crate::role::{PendingAnchor, PopupData};
use crate::state::{PendingActivation, ServerModel};
use crate::window::{Decorations, WindowAttributes, WindowData, WindowRole, WmName, WmNormalHints};
use crate::world::{GlobalName, OnOutput, Row};
use vstd::prelude::*;

verus! {

impl ServerModel {
    /// A window that has been given a `_NET_WM_NAME` title keeps it when it is given a `WM_NAME`,
    /// and nobody is told of the latter.
    pub proof fn net_name_stays(
        self,
        window: Window,
        net: WmName<Seq<char>>,
        plain: WmName<Seq<char>>,
    )
        requires
            self.wf(),
            self.knows(window),
            net is NetWmName,
            plain is WmName,
        ensures
            self.titled(window, net).data(window).attrs.title == Some(net),
            self.titled(window, net).titled(window, plain) == self.titled(window, net),
            self.titled(window, net).retitle_requests(window, plain) == Seq::<
                Request<Seq<char>>,
            >::empty(),
    {
    }

    /// Telling a window's size hints a second time changes nothing, and the compositor is not
    /// told again.
    pub proof fn same_hints_are_not_told(self, window: Window, hints: WmNormalHints)
        requires
            self.wf(),
        ensures
            ({
                let attrs = WindowAttributes {
                    size_hints: Some(hints),
                    ..self.data(window).attrs
                };
                let after = self.with_attrs(window, attrs);
                &&& after.with_attrs(
                    window,
                    WindowAttributes { size_hints: Some(hints), ..after.data(window).attrs },
                ) == after
                &&& after.size_hint_requests(window, hints) == Seq::<Request<Seq<char>>>::empty()
            }),
    {
        let attrs = WindowAttributes { size_hints: Some(hints), ..self.data(window).attrs };
        let after = self.with_attrs(window, attrs);
        if self.knows(window) {
            let again = WindowAttributes { size_hints: Some(hints), ..after.data(window).attrs };
            assert(after.with_attrs(window, again).rows =~= after.rows);
        }
    }

    /// Telling who draws a window's decorations a second time changes nothing, and the compositor
    /// is not told again.
    pub proof fn same_decorations_are_not_told(self, window: Window, decorations: Decorations)
        requires
            self.wf(),
        ensures
            ({
                let attrs = WindowAttributes {
                    decorations: Some(decorations),
                    ..self.data(window).attrs
                };
                let after = self.with_attrs(window, attrs);
                &&& after.with_attrs(
                    window,
                    WindowAttributes {
                        decorations: Some(decorations),
                        ..after.data(window).attrs
                    },
                ) == after
                &&& after.redecorate_requests(window, decorations) == Seq::<
                    Request<Seq<char>>,
                >::empty()
            }),
    {
        let attrs = WindowAttributes { decorations: Some(decorations), ..self.data(window).attrs };
        let after = self.with_attrs(window, attrs);
        if self.knows(window) {
            let again = WindowAttributes {
                decorations: Some(decorations),
                ..after.data(window).attrs
            };
            assert(after.with_attrs(window, again).rows =~= after.rows);
        }
    }

    /// What is noted of one window leaves all other windows as they are.
    pub proof fn windows_are_apart(
        self,
        window: Window,
        other: Window,
        data: WindowData<Seq<char>>,
    )
        requires
            self.wf(),
            self.knows(window),
            self.knows(other),
            window != other,
        ensures
            self.entity(window) != self.entity(other),
            self.with_data(window, data).row(other) == self.row(other),
    {
        assert(crate::state::carries_window(self.rows, window.id, self.entity(window)));
        assert(crate::state::carries_window(self.rows, other.id, self.entity(other)));
    }

    /// A window that has been unmapped is not shown, has no role, may be moved and is not given
    /// focus back, and unmapping it again changes nothing.
    pub proof fn unmapped_is_gone(self, window: Window)
        requires
            self.wf(),
            self.shows(window),
        ensures
            self.unmapped(window).wf(),
            !self.unmapped(window).shows(window),
            self.unmapped(window).row(window).role is None,
            self.unmapped(window).last_focused_toplevel != Some(window),
            self.unmapped(window).last_hovered != Some(window),
            self.unmapped(window).unmapped(window) == self.unmapped(window),
            self.unmapped(window).unmap_requests(window) == Seq::<Request<Seq<char>>>::empty(),
    {
        let entity = self.entity(window);
        assert(crate::state::carries_window(self.rows, window.id, entity));
        crate::state::row_replaced(
            self.rows,
            self.windows,
            entity,
            self.unmapped(window).rows[entity],
        );
    }

    /// A window that comes and goes leaves no trace.
    pub proof fn destroyed_leaves_no_trace(
        self,
        window: Window,
        entity: u64,
        data: WindowData<Seq<char>>,
    )
        requires
            self.wf(),
            !self.knows(window),
            !self.rows.dom().contains(entity),
        ensures
            self.with_window(window, entity, data).knows(window),
            self.with_window(window, entity, data).without_window(window) == self,
    {
        let after = self.with_window(window, entity, data).without_window(window);
        assert(after.rows =~= self.rows);
        assert(after.windows =~= self.windows);
    }

    /// A window that has been destroyed is unknown, and all other windows are as they were.
    pub proof fn destroyed_is_unknown(self, window: Window, other: Window)
        requires
            self.wf(),
            window != other,
        ensures
            !self.without_window(window).knows(window),
            self.without_window(window).knows(other) == self.knows(other),
            self.knows(other) ==> self.without_window(window).row(other) == self.row(other),
    {
        if self.knows(window) && self.knows(other) {
            self.windows_are_apart(window, other, self.data(window));
        }
    }

    /// Of all windows of a process only the first one is activated with the token that the process
    /// was started with.
    pub proof fn token_is_given_once<R: Fn(u32) -> Option<Vec<u8>>>(
        self,
        pid: u32,
        read_environ: R,
        token: Option<Seq<char>>,
    )
        requires
            self.with_pid(Some(pid)).is_token_of(token, Some(pid), read_environ),
        ensures
            token is None,
            self.with_pid(Some(pid)).with_pid(Some(pid)) == self.with_pid(Some(pid)),
    {
        let seen = self.with_pid(Some(pid));
        assert(seen.pids.insert(pid) =~= seen.pids);
    }

    /// An output that has gone has no scale factor and no dimensions, no surface is on it, and it
    /// owns no coordinate of the common origin.
    pub proof fn removed_output_is_left(self, output: u64)
        ensures
            self.without_output(output).lacks_origin() || self.global_output_offset.x.owner
                != Some(output) && self.global_output_offset.y.owner != Some(output),
            self.without_output(output).global_output_offset.x.owner != Some(output),
            self.without_output(output).global_output_offset.y.owner != Some(output),
            forall|entity: u64| #[trigger]
                self.without_output(output).rows.dom().contains(entity)
                    ==> self.without_output(output).rows[entity].on_output != Some(
                    OnOutput { output },
                ),
            forall|scale: Scale| !#[trigger] self.without_output(output).has_scale(output, scale),
    {
    }

    /// There is at most one smallest scale factor.
    pub proof fn smallest_scale_is_unique(self, one: Scale, other: Scale)
        requires
            self.is_smallest_scale(one),
            self.is_smallest_scale(other),
        ensures
            one == other,
    {
        let here = choose|output: u64| #[trigger] self.has_scale(output, one);
        let there = choose|output: u64| #[trigger] self.has_scale(output, other);
        assert(self.has_scale(here, one) && self.has_scale(there, other));
    }

    /// No output lies left of the common origin or above it.
    pub proof fn outputs_lie_after_origin(self, after: ServerModel, output: u64)
        requires
            self.origin_found(after),
            self.rows.dom().contains(output),
            self.rows[output].output_dimensions is Some,
        ensures
            after.rows[output].output_dimensions->0.x - after.global_output_offset.x.value >= 0,
            after.rows[output].output_dimensions->0.y - after.global_output_offset.y.value >= 0,
    {
        assert(self.none_before(Axis::X, after.global_output_offset.x.value));
        assert(self.none_before(Axis::Y, after.global_output_offset.y.value));
        assert(self.rows[output].output_dimensions->0.start(Axis::X)
            == self.rows[output].output_dimensions->0.x);
        assert(self.rows[output].output_dimensions->0.start(Axis::Y)
            == self.rows[output].output_dimensions->0.y);
    }

    /// Finding the common origin again, with the same outputs, gives the same origin.
    pub proof fn origin_is_stable(self, after: ServerModel, again: ServerModel)
        requires
            self.origin_found(after),
            after.origin_found(again),
        ensures
            again.global_output_offset.x.value == after.global_output_offset.x.value,
            again.global_output_offset.y.value == after.global_output_offset.y.value,
    {
        self.first_start_is_least(
            Axis::X,
            self.global_output_offset.x,
            after.global_output_offset.x,
            again.global_output_offset.x.value,
        );
        self.first_start_is_least(
            Axis::Y,
            self.global_output_offset.y,
            after.global_output_offset.y,
            again.global_output_offset.y.value,
        );
        after.first_start_is_least(
            Axis::X,
            after.global_output_offset.x,
            again.global_output_offset.x,
            after.global_output_offset.x.value,
        );
        after.first_start_is_least(
            Axis::Y,
            after.global_output_offset.y,
            again.global_output_offset.y,
            after.global_output_offset.y.value,
        );
    }

    /// No coordinate before which no output begins is larger than that of the first output.
    proof fn first_start_is_least(
        self,
        axis: Axis,
        before: crate::state::GlobalOutputOffsetDimension,
        first: crate::state::GlobalOutputOffsetDimension,
        value: i32,
    )
        requires
            self.is_first_start(axis, before, first),
            self.none_before(axis, value),
        ensures
            value <= first.value,
    {
        if first.value < i32::MAX {
            assert(self.starts_at(first.owner->0, axis, first.value));
            assert(self.rows.dom().contains(first.owner->0));
        }
    }

    /// Activations are carried out once: those that have been are not pending any longer, and the
    /// others still are.
    pub proof fn activations_are_carried_out_once(self)
        requires
            self.environment.activation,
        ensures
            self.activated().activations() == Seq::<Request<Seq<char>>>::empty(),
            self.activated().activated() == self.activated(),
            self.activations().len() + self.activated().pending_activations.len()
                == self.pending_activations.len(),
    {
        let after = self.activated();
        let left = after.pending_activations;
        assert forall|pending: PendingActivation<Seq<char>>| #[trigger]
            after.can_activate(pending.window) == self.can_activate(pending.window) by {}
        assert(left == self.pending_activations.filter(self.waiting()));
        all_wait(self.pending_activations, self.ready(), self.waiting());
        assert(after.ready() =~= self.ready());
        assert(after.waiting() =~= self.waiting());
        assert(left.filter(after.ready()).map_values(after.activate_request()) =~= Seq::<
            Request<Seq<char>>,
        >::empty());
    }

    /// Re-anchoring the popups of a parent a second time leaves them alone, where no configure is
    /// responded to and lengths are always divided with the same result.
    pub proof fn refresh_settles<D, L, W>(
        self,
        after: ServerModel,
        again: ServerModel,
        requests: Seq<Request<Seq<char>>>,
        more: Seq<Request<Seq<char>>>,
        parent: u64,
        serial: Option<u32>,
        metrics: Metrics<D, L, W>,
    ) where
        D: Fn(i32, Scale) -> i32,
        L: Fn(u16, u16, Scale) -> Size,
        W: Fn(u64, i32) -> bool,

        requires
            metrics.deterministic(),
            self.refreshed(after, requests, parent, serial, metrics),
            after.refreshed(again, more, parent, None, metrics),
        ensures
            again == after,
            more == Seq::<Request<Seq<char>>>::empty(),
    {
        if self.is_anchor(parent) {
            let area = choose|area: Area|
                {
                    &&& #[trigger] self.anchors_at(parent, area, metrics)
                    &&& self.children_refreshed(after, parent, area, serial, metrics)
                };
            self.refresh_moves_only_popups(after, parent, area, serial, metrics);
            assert(after.is_anchor(parent));
            let next = choose|next: Area|
                {
                    &&& #[trigger] after.anchors_at(parent, next, metrics)
                    &&& after.children_refreshed(again, parent, next, None, metrics)
                };
            assert(next == area);
            assert forall|entity: u64| #[trigger] after.rows.dom().contains(entity) implies again.rows[entity]
                == after.rows[entity] by {
                assert(self.rows.dom().contains(entity));
                if self.rows[entity].is_child(parent) {
                    self.rows[entity].child_settles(
                        after.rows[entity],
                        again.rows[entity],
                        area,
                        self.rows[parent].data->0.attrs.dims,
                        self.rows[parent].scale->0.scale,
                        serial,
                        metrics,
                    );
                }
            }
            assert(again.rows =~= after.rows);
            let order = choose|order: Seq<u64>| #[trigger]
                crate::popups::repositions_in_order(order, more, after.rows, again.rows);
            if order.len() > 0 {
                assert(order.contains(order[0]));
            }
            assert(more =~= Seq::<Request<Seq<char>>>::empty());
        }
    }

    /// Re-anchoring the popups of a parent changes nothing but popups: neither windows nor scale
    /// factors, nor what is a toplevel or a popup of whom.
    pub proof fn refresh_moves_only_popups<D, L, W>(
        self,
        after: ServerModel,
        parent: u64,
        area: Area,
        serial: Option<u32>,
        metrics: Metrics<D, L, W>,
    ) where
        D: Fn(i32, Scale) -> i32,
        L: Fn(u16, u16, Scale) -> Size,
        W: Fn(u64, i32) -> bool,

        requires
            self.children_refreshed(after, parent, area, serial, metrics),
        ensures
            forall|entity: u64| #[trigger]
                self.rows.dom().contains(entity) ==> {
                    &&& after.rows[entity] == Row {
                        role: after.rows[entity].role,
                        ..self.rows[entity]
                    }
                    &&& after.rows[entity].role is Some == self.rows[entity].role is Some
                    &&& after.rows[entity].toplevel() == self.rows[entity].toplevel()
                    &&& after.rows[entity].popup() is Some == self.rows[entity].popup() is Some
                    &&& after.rows[entity].popup() is Some ==> after.rows[entity].popup()->0.parent
                        == self.rows[entity].popup()->0.parent
                },
    {
    }

    /// Where nothing is due to be re-anchored, nothing is.
    pub proof fn nothing_due_nothing_done<D, L, W>(
        self,
        after: ServerModel,
        requests: Seq<Request<Seq<char>>>,
        metrics: Metrics<D, L, W>,
    ) where
        D: Fn(i32, Scale) -> i32,
        L: Fn(u16, u16, Scale) -> Size,
        W: Fn(u64, i32) -> bool,

        requires
            self.pending_popup_refresh.len() == 0,
            self.pending_refreshed(after, requests, metrics),
        ensures
            after == self,
            requests == Seq::<Request<Seq<char>>>::empty(),
    {
        let parents = choose|parents: Seq<u64>|
            {
                &&& #[trigger] self.lists_parents(parents, self.pending_popup_refresh)
                &&& ServerModel {
                    pending_popup_refresh: Seq::empty(),
                    ..self
                }.all_refreshed(after, requests, parents, metrics)
            };
        if parents.len() > 0 {
            assert(parents.contains(parents[0]));
        }
        assert(self.pending_popup_refresh =~= Seq::empty());
    }

    /// Once the popups have been re-anchored that are due for it, none is due any longer, and
    /// everything but the entities is as it was.
    pub proof fn refresh_leaves_nothing_due<D, L, W>(
        self,
        after: ServerModel,
        requests: Seq<Request<Seq<char>>>,
        metrics: Metrics<D, L, W>,
    ) where
        D: Fn(i32, Scale) -> i32,
        L: Fn(u16, u16, Scale) -> Size,
        W: Fn(u64, i32) -> bool,

        requires
            self.pending_refreshed(after, requests, metrics),
        ensures
            after.pending_popup_refresh == Seq::<u64>::empty(),
            after == (ServerModel {
                rows: after.rows,
                pending_popup_refresh: Seq::empty(),
                ..self
            }),
            after.rows.dom() == self.rows.dom(),
    {
        let start = ServerModel { pending_popup_refresh: Seq::empty(), ..self };
        let parents = choose|parents: Seq<u64>|
            {
                &&& #[trigger] self.lists_parents(parents, self.pending_popup_refresh)
                &&& start.all_refreshed(after, requests, parents, metrics)
            };
        start.refresh_keeps_the_rest(after, requests, parents, metrics);
    }

    /// Re-anchoring popups leaves everything but the entities as it was.
    proof fn refresh_keeps_the_rest<D, L, W>(
        self,
        after: ServerModel,
        requests: Seq<Request<Seq<char>>>,
        parents: Seq<u64>,
        metrics: Metrics<D, L, W>,
    ) where
        D: Fn(i32, Scale) -> i32,
        L: Fn(u16, u16, Scale) -> Size,
        W: Fn(u64, i32) -> bool,

        requires
            self.all_refreshed(after, requests, parents, metrics),
        ensures
            after == (ServerModel { rows: after.rows, ..self }),
            after.rows.dom() == self.rows.dom(),
        decreases parents.len(),
    {
        if parents.len() > 0 {
            let (mid, sent, last) = choose|
                mid: ServerModel,
                sent: Seq<Request<Seq<char>>>,
                last: Seq<Request<Seq<char>>>,
            |
                {
                    &&& self.all_refreshed(mid, sent, parents.drop_last(), metrics)
                    &&& #[trigger] mid.next_refreshed(
                        after,
                        sent,
                        last,
                        requests,
                        parents.last(),
                        metrics,
                    )
                };
            self.refresh_keeps_the_rest(mid, sent, parents.drop_last(), metrics);
        }
    }

    /// Globals that have been removed are not offered any longer, and nothing else is offered
    /// than before.
    pub proof fn removed_globals_are_not_offered(
        self,
        after: ServerModel,
        removed: Seq<GlobalName>,
    )
        requires
            self.globals_removed(after, removed),
        ensures
            forall|i: int|
                0 <= i < removed.len() ==> !after.globals.dom().contains(
                    (#[trigger] removed[i]).name,
                ),
            after.globals.submap_of(self.globals),
        decreases removed.len(),
    {
        if removed.len() > 0 {
            let last = removed.last();
            let mid = choose|mid: ServerModel|
                self.globals_removed(mid, removed.drop_last()) && #[trigger] mid.global_removed(
                    after,
                    last,
                );
            self.removed_globals_are_not_offered(mid, removed.drop_last());
            assert(after.globals == mid.globals.remove(last.name));
            assert forall|i: int| 0 <= i < removed.len() implies !after.globals.dom().contains(
                (#[trigger] removed[i]).name,
            ) by {
                if i < removed.len() - 1 {
                    assert(removed.drop_last()[i] == removed[i]);
                }
            }
        }
    }

    /// The server decorates a toplevel only where the compositor does not, and never against the
    /// window's wish.
    pub proof fn decorated_by_one(
        self,
        entity: u64,
        data: WindowData<Seq<char>>,
        title: Option<Seq<char>>,
    )
        requires
            self.decoration_requests(entity, data).contains(
                Request::CreateSatelliteDecoration { entity, initial_title: title },
            ),
        ensures
            !self.environment.decoration_manager,
            data.attrs.decorations != Some(Decorations::Client),
            !self.decoration_requests(entity, data).contains(Request::CreateDecoration { entity }),
    {
    }

    /// No toplevel is decorated by both the compositor and the server.
    pub proof fn no_toplevel_is_decorated_twice(self, entity: u64)
        requires
            self.wf(),
            self.rows.dom().contains(entity),
            self.rows[entity].toplevel() is Some,
        ensures
            ({
                let decoration = self.rows[entity].toplevel()->0.decoration;
                !(decoration.wl && decoration.satellite)
            }),
    {
    }

    /// A popup whose window has been reconfigured has the offset that re-anchoring the popups of
    /// its parent gives it, whether or not a configure is responded to, where lengths are always
    /// divided with the same result.
    pub proof fn reconfigured_popup_fits_its_parent<D, L, W>(
        self,
        after: ServerModel,
        again: ServerModel,
        requests: Seq<Request<Seq<char>>>,
        more: Seq<Request<Seq<char>>>,
        window: Window,
        dims: WindowDims,
        parent: u64,
        serial: Option<u32>,
        metrics: Metrics<D, L, W>,
    ) where
        D: Fn(i32, Scale) -> i32,
        L: Fn(u16, u16, Scale) -> Size,
        W: Fn(u64, i32) -> bool,

        requires
            self.wf(),
            metrics.deterministic(),
            self.knows(window),
            self.role_matters(window),
            self.data(window).attrs.role.is_popup(),
            self.data(window).attrs.dims != dims,
            self.row(window).popup() is Some,
            self.row(window).popup()->0.parent == parent,
            self.entity(window) != parent,
            self.is_anchor(parent),
            self.reconfigured(after, requests, window, dims, metrics),
            after.refreshed(again, more, parent, serial, metrics),
        ensures
            again.row(window).popup() is Some,
            again.row(window).popup()->0.offset == after.row(window).popup()->0.offset,
    {
        let entity = self.entity(window);
        assert(crate::state::carries_window(self.rows, window.id, entity));
        assert(after.rows[parent] == self.rows[parent]);
        assert(after.is_anchor(parent));
        let area = choose|area: Area|
            {
                &&& #[trigger] after.anchors_at(parent, area, metrics)
                &&& after.children_refreshed(again, parent, area, serial, metrics)
            };
        assert(after.rows.dom().contains(entity));
        assert(after.rows[entity].is_child(parent));
        assert(after.rows[entity].data->0.attrs.dims == dims);
    }

    /// A popup that has just been created is left alone when the popups of its parent are
    /// re-anchored, where no configure is responded to and lengths are always divided with the
    /// same result.
    pub proof fn new_popup_is_settled<D, L, W>(
        self,
        again: ServerModel,
        requests: Seq<Request<Seq<char>>>,
        entity: u64,
        popup: PopupData<Seq<PendingAnchor>>,
        metrics: Metrics<D, L, W>,
    ) where
        D: Fn(i32, Scale) -> i32,
        L: Fn(u16, u16, Scale) -> Size,
        W: Fn(u64, i32) -> bool,

        requires
            metrics.deterministic(),
            self.is_anchor(popup.parent),
            self.rows.dom().contains(entity),
            self.rows[entity].data is Some,
            entity != popup.parent,
            self.is_new_popup(popup, entity, popup.parent, metrics),
            self.with_new_popup(entity, popup).refreshed(
                again,
                requests,
                popup.parent,
                None,
                metrics,
            ),
        ensures
            again.rows[entity] == self.with_new_popup(entity, popup).rows[entity],
    {
        let after = self.with_new_popup(entity, popup);
        let parent = popup.parent;
        let anchor = Area { origin: popup.anchor_origin, size: popup.anchor_size };
        let area = choose|area: Area|
            {
                &&& #[trigger] after.anchors_at(parent, area, metrics)
                &&& after.children_refreshed(again, parent, area, None, metrics)
            };
        assert(self.anchors_at(parent, anchor, metrics));
        assert(area == anchor);
        assert(after.rows.dom().contains(entity));
        assert(after.rows[entity].is_child(parent));
        let size = choose|size: Size|
            {
                &&& #[trigger] metrics.is_popup_size(
                    after.rows[entity].data->0.attrs.dims,
                    after.rows[entity].scale->0.scale,
                    size,
                )
                &&& after.rows[entity].popup()->0.stays(area, size, None) ==> again.rows[entity]
                    == after.rows[entity]
            };
        assert(size == popup.size);
    }

    /// An application splash window is told to be of one size only, which is the one it has.
    pub proof fn splash_has_fixed_size(self, entity: u64, fullscreen: bool)
        requires
            self.rows[entity].data->0.attrs.role == WindowRole::Splash,
        ensures
            ({
                let dims = self.rows[entity].data->0.attrs.dims;
                let requests = self.toplevel_requests(entity, fullscreen);
                &&& requests.contains(
                    Request::SetMinSize {
                        entity,
                        width: dims.width as i32,
                        height: dims.height as i32,
                    },
                )
                &&& requests.contains(
                    Request::SetMaxSize {
                        entity,
                        width: dims.width as i32,
                        height: dims.height as i32,
                    },
                )
            }),
    {
        let data = self.rows[entity].data->0;
        let requests = self.toplevel_requests(entity, fullscreen);
        let start = 1 + crate::create::hint_requests(entity, data.attrs.size_hints).len() as int;
        let fixed = crate::create::fixed_size_requests(entity, true, data.attrs.dims);
        assert(requests[start] == fixed[0]);
        assert(requests[start + 1] == fixed[1]);
    }

    /// The role that an entity is given is that of a toplevel exactly if it is to be nobody's
    /// popup, and else that of a popup of the window that it is to be a popup of, with the same
    /// scale factor.
    pub proof fn role_is_of_its_kind<D, L, W>(
        self,
        after: ServerModel,
        requests: Seq<Request<Seq<char>>>,
        entity: u64,
        metrics: Metrics<D, L, W>,
    ) where
        D: Fn(i32, Scale) -> i32,
        L: Fn(u16, u16, Scale) -> Size,
        W: Fn(u64, i32) -> bool,

        requires
            self.wf(),
            self.can_take_role(entity),
            self.role_created(after, requests, entity, metrics),
        ensures
            after.rows[entity].toplevel() is Some == self.popup_for(entity) is None,
            after.rows[entity].popup() is Some == self.popup_for(entity) is Some,
            self.popup_for(entity) is Some ==> {
                &&& after.rows[entity].popup()->0.parent == self.entity(self.popup_for(entity)->0)
                &&& after.rows[entity].scale == self.row(self.popup_for(entity)->0).scale
            },
    {
    }

    /// A popup that has the anchor and the size that it is to have is left alone, and no request
    /// is made for it, where no configure is responded to and lengths are always divided with the
    /// same result.
    pub proof fn unchanged_popup_is_left_alone<D, L, W>(
        self,
        after: ServerModel,
        requests: Seq<Request<Seq<char>>>,
        parent: u64,
        entity: u64,
        anchor: Area,
        size: Size,
        metrics: Metrics<D, L, W>,
    ) where
        D: Fn(i32, Scale) -> i32,
        L: Fn(u16, u16, Scale) -> Size,
        W: Fn(u64, i32) -> bool,

        requires
            metrics.deterministic(),
            self.is_anchor(parent),
            self.refreshed(after, requests, parent, None, metrics),
            self.rows.dom().contains(entity),
            self.rows[entity].is_child(parent),
            self.anchors_at(parent, anchor, metrics),
            metrics.is_popup_size(
                self.rows[entity].data->0.attrs.dims,
                self.rows[entity].scale->0.scale,
                size,
            ),
            self.rows[entity].popup()->0.stays(anchor, size, None),
        ensures
            after.rows[entity] == self.rows[entity],
            forall|i: int|
                0 <= i < requests.len() ==> (#[trigger] requests[i]) is Reposition
                    && requests[i]->Reposition_entity != entity,
    {
        let area = choose|area: Area|
            {
                &&& #[trigger] self.anchors_at(parent, area, metrics)
                &&& self.children_refreshed(after, parent, area, None, metrics)
            };
        assert(area == anchor);
        let row = self.rows[entity];
        let found = choose|found: Size|
            {
                &&& #[trigger] metrics.is_popup_size(
                    row.data->0.attrs.dims,
                    row.scale->0.scale,
                    found,
                )
                &&& row.popup()->0.stays(area, found, None) ==> after.rows[entity] == row
            };
        assert(found == size);
        let order = choose|order: Seq<u64>| #[trigger]
            crate::popups::repositions_in_order(order, requests, self.rows, after.rows);
        assert forall|i: int| 0 <= i < requests.len() implies (#[trigger] requests[i]) is Reposition
            && requests[i]->Reposition_entity != entity by {
            assert(order.contains(order[i]));
        }
    }

    /// A window as large as an output becomes a toplevel, never a popup.
    pub proof fn output_sized_is_toplevel<D, L, W>(
        self,
        after: ServerModel,
        requests: Seq<Request<Seq<char>>>,
        entity: u64,
        metrics: Metrics<D, L, W>,
    ) where
        D: Fn(i32, Scale) -> i32,
        L: Fn(u16, u16, Scale) -> Size,
        W: Fn(u64, i32) -> bool,

        requires
            self.fills_output(self.rows[entity].data->0.attrs.dims),
            self.role_created(after, requests, entity, metrics),
        ensures
            after.rows[entity].toplevel() is Some,
            after.rows[entity].popup() is None,
    {
    }

    /// Focus is given once: after that nothing is to be focused.
    pub proof fn focus_is_given_once(self)
        ensures
            self.focused().focus_requests() == Seq::<crate::connection::XRequest>::empty(),
            self.focused().focused() == self.focused(),
    {
    }

    /// Windows are given other dimensions once: after that none is to be given any.
    pub proof fn dims_are_applied_once(self, entity: u64)
        ensures
            !self.none_due().is_due(entity),
    {
    }

    /// A title or a class of a window's own comes before that of its group's leader.
    pub proof fn own_names_come_first(self, data: WindowData<Seq<char>>)
        ensures
            data.attrs.class is Some ==> self.app_id(data) == data.attrs.class,
            data.attrs.title is Some ==> self.title(data) == Some(data.attrs.title->0.text()),
            data.attrs.group is None ==> self.app_id(data) == data.attrs.class && self.title(data)
                == data.attrs.title_text(),
    {
    }
}

impl Row {
    /// A popup that has been re-anchored is left alone the next time.
    proof fn child_settles<D, L, W>(
        self,
        after: Row,
        again: Row,
        anchor: Area,
        parent_dims: WindowDims,
        parent_scale: Scale,
        serial: Option<u32>,
        metrics: Metrics<D, L, W>,
    ) where
        D: Fn(i32, Scale) -> i32,
        L: Fn(u16, u16, Scale) -> Size,
        W: Fn(u64, i32) -> bool,

        requires
            metrics.deterministic(),
            self.child_refreshed(after, anchor, parent_dims, parent_scale, serial, metrics),
            after.child_refreshed(again, anchor, parent_dims, parent_scale, None, metrics),
        ensures
            again == after,
    {
        let dims = self.data->0.attrs.dims;
        let scale = self.scale->0.scale;
        let size = choose|size: Size|
            {
                &&& #[trigger] metrics.is_popup_size(dims, scale, size)
                &&& if self.popup()->0.stays(anchor, size, serial) {
                    after == self
                } else {
                    after.popup()->0.stays(anchor, size, None) && after.data == self.data
                        && after.scale == self.scale
                }
            };
        assert(after.popup()->0.stays(anchor, size, None));
        let next = choose|next: Size|
            {
                &&& #[trigger] metrics.is_popup_size(dims, scale, next)
                &&& after.popup()->0.stays(anchor, next, None) ==> again == after
            };
        assert(next == size);
    }
}

/// What a list is split into by a condition and its opposite: nothing that meets the one meets
/// the other, and nothing is lost.
proof fn all_wait<T>(list: Seq<T>, ready: spec_fn(T) -> bool, waiting: spec_fn(T) -> bool)
    requires
        forall|item: T| #[trigger] ready(item) == !waiting(item),
    ensures
        list.filter(waiting).filter(ready) == Seq::<T>::empty(),
        list.filter(waiting).filter(waiting) == list.filter(waiting),
        list.filter(ready).len() + list.filter(waiting).len() == list.len(),
    decreases list.len(),
{
    reveal(Seq::filter);
    if list.len() > 0 {
        let rest = list.drop_last();
        all_wait(rest, ready, waiting);
        if waiting(list.last()) {
            let kept = rest.filter(waiting);
            assert(kept.push(list.last()).drop_last() =~= kept);
        }
        assert(ready(list.last()) == !waiting(list.last()));
    }
}

} // verus!
