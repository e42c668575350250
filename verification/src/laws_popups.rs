//! What holds of popups whenever they are created, re-anchored, moved or answered.
use crate::geometry::{Area, Point, Scale, Size, Window, WindowDims};
use crate::metrics::Metrics;
use crate::request::{ConstraintAdjustment, Corner, Positioner, Request};
use crate::role::{PendingAnchor, PopupData, SurfaceRole};
use crate::state::ServerModel;
use crate::world::Row;
use vstd::prelude::*;

verus! {

/// What two lists hold together is what one of them holds.
pub(crate) proof fn joined<T>(one: Seq<T>, other: Seq<T>, item: T)
    ensures
        (one + other).contains(item) <==> one.contains(item) || other.contains(item),
{
    let both = one + other;
    if one.contains(item) {
        let i = choose|i: int| 0 <= i < one.len() && one[i] == item;
        assert(both[i] == item);
    }
    if other.contains(item) {
        let i = choose|i: int| 0 <= i < other.len() && other[i] == item;
        assert(both[one.len() + i] == item);
    }
    if both.contains(item) {
        let i = choose|i: int| 0 <= i < both.len() && both[i] == item;
        if i < one.len() {
            assert(one[i] == item);
        } else {
            assert(other[i - one.len()] == item);
        }
    }
}

impl ServerModel {
    /// When the popups of a parent are re-anchored, each of them ends up with the logical size
    /// that its own dimensions and scale factor give, at least one by one, and anchored to the
    /// parent's logical area below the titlebar, if the server draws one. If it was so before and
    /// no configure is responded to, it is left alone and not repositioned. Else it is
    /// repositioned once, by the distance of the two windows in the parent's logical coordinates,
    /// and the answer is awaited under a token of its own.
    pub proof fn popups_follow_their_parent<D, L, W>(
        self,
        after: ServerModel,
        requests: Seq<Request<Seq<char>>>,
        parent: u64,
        serial: Option<u32>,
        entity: u64,
        popup: PopupData<Seq<PendingAnchor>>,
        metrics: Metrics<D, L, W>,
    ) where
        D: Fn(i32, Scale) -> i32,
        L: Fn(u16, u16, Scale) -> Size,
        W: Fn(u64, i32) -> bool,

        requires
            self.environment.xdg_wm_base_version >= 3,
            self.rows.dom().contains(parent),
            self.rows[parent].data is Some,
            self.rows[parent].scale is Some,
            self.rows[parent].role is Some,
            self.rows.dom().contains(entity),
            self.rows[entity].role == Some(SurfaceRole::Popup(Some(popup))),
            popup.parent == parent,
            self.rows[entity].data is Some,
            self.rows[entity].scale is Some,
            self.refreshed(after, requests, parent, serial, metrics),
        ensures
            ({
                let now = after.rows[entity].role->0->Popup_0->0;
                let dims = self.rows[entity].data->0.attrs.dims;
                let own = self.rows[entity].scale->0.scale;
                let outer = self.rows[parent].data->0.attrs.dims;
                let scale = self.rows[parent].scale->0.scale;
                let decorated = match self.rows[parent].role {
                    Some(SurfaceRole::Toplevel(Some(toplevel))) => {
                        toplevel.decoration.satellite
                    },
                    _ => false,
                };
                &&& after.rows[entity] == (Row {
                    role: Some(SurfaceRole::Popup(Some(now))),
                    ..self.rows[entity]
                })
                &&& now.parent == parent && now.xdg == popup.xdg && now.configure_anchor
                    == popup.configure_anchor
                &&& exists|width: i32, height: i32| #[trigger]
                    call_ensures(metrics.divide, (dims.width as i32, own), width)
                        && #[trigger] call_ensures(
                        metrics.divide,
                        (dims.height as i32, own),
                        height,
                    ) && now.size == (Size {
                        width: if width < 1 {
                            1
                        } else {
                            width
                        },
                        height: if height < 1 {
                            1
                        } else {
                            height
                        },
                    })
                &&& call_ensures(
                    metrics.logical_size,
                    (outer.width, outer.height, scale),
                    now.anchor_size,
                )
                &&& now.anchor_origin.x == 0
                &&& !decorated ==> now.anchor_origin.y == 0
                &&& decorated ==> exists|drawn: bool| #[trigger]
                    call_ensures(
                        metrics.draws_titlebar,
                        (parent, now.anchor_size.width),
                        drawn,
                    ) && now.anchor_origin.y == (if drawn {
                        self.environment.titlebar_height
                    } else {
                        0
                    })
                &&& if now.anchor_origin == popup.anchor_origin && now.anchor_size
                    == popup.anchor_size && now.size == popup.size && serial is None {
                    &&& now == popup
                    &&& forall|i: int|
                        0 <= i < requests.len() ==> !(#[trigger] requests[i] matches
                            Request::Reposition { entity: other, .. } && other == entity)
                } else {
                    &&& call_ensures(
                        metrics.divide,
                        ((dims.x - outer.x) as i32, scale),
                        now.offset.x,
                    )
                    &&& call_ensures(
                        metrics.divide,
                        ((dims.y - outer.y) as i32, scale),
                        now.offset.y,
                    )
                    &&& now.parent_configure == serial
                    &&& now.parent_size is Some
                    &&& now.parent_size->0.width == now.anchor_size.width
                    &&& now.anchor_size.height + now.anchor_origin.y <= i32::MAX
                        && now.anchor_size.height + now.anchor_origin.y >= i32::MIN
                        ==> now.parent_size->0.height == now.anchor_size.height
                        + now.anchor_origin.y
                    &&& now.next_reposition_token != popup.next_reposition_token
                    &&& now.pending_anchors == popup.pending_anchors.push(
                        PendingAnchor {
                            token: popup.next_reposition_token,
                            origin: now.anchor_origin,
                        },
                    )
                    &&& exists|i: int|
                        0 <= i < requests.len() && #[trigger] requests[i]
                            == (Request::<Seq<char>>::Reposition {
                            entity,
                            token: popup.next_reposition_token,
                            positioner: Positioner {
                                size: now.size,
                                offset: now.offset,
                                anchor: Corner::TopLeft,
                                gravity: Corner::BottomRight,
                                anchor_origin: now.anchor_origin,
                                anchor_size: now.anchor_size,
                                constraint_adjustment: ConstraintAdjustment {
                                    slide_x: true,
                                    slide_y: true,
                                },
                                parent_size: now.parent_size,
                                parent_configure: serial,
                            },
                        })
                    &&& forall|i: int, j: int|
                        0 <= i < requests.len() && 0 <= j < requests.len()
                            && (#[trigger] requests[i] matches Request::Reposition {
                            entity: one,
                            ..
                        } && one == entity) && (#[trigger] requests[j] matches
                            Request::Reposition { entity: two, .. } && two == entity) ==> i
                            == j
                }
            }),
    {
        assert(self.is_anchor(parent));
        let row = self.rows[entity];
        assert(row.popup() == Some(popup));
        assert(row.is_child(parent));
        let area = choose|area: Area|
            {
                &&& #[trigger] self.anchors_at(parent, area, metrics)
                &&& self.children_refreshed(after, parent, area, serial, metrics)
            };
        let outer = self.rows[parent].data->0.attrs.dims;
        let scale = self.rows[parent].scale->0.scale;
        assert(row.child_refreshed(after.rows[entity], area, outer, scale, serial, metrics));
        let order = choose|order: Seq<u64>| #[trigger]
            crate::popups::repositions_in_order(order, requests, self.rows, after.rows);
        assert forall|i: int| 0 <= i < requests.len() implies #[trigger] requests[i]
            == crate::popups::reposition_of(
            order[i],
            self.rows[order[i]],
            after.rows[order[i]],
        ) by {}
        let size = choose|size: Size|
            {
                &&& #[trigger] metrics.is_popup_size(
                    row.data->0.attrs.dims,
                    row.scale->0.scale,
                    size,
                )
                &&& if popup.stays(area, size, serial) {
                    after.rows[entity] == row
                } else {
                    exists|offset: Point|
                        {
                            &&& #[trigger] metrics.is_point(
                                (row.data->0.attrs.dims.x - outer.x) as i32,
                                (row.data->0.attrs.dims.y - outer.y) as i32,
                                scale,
                                offset,
                            )
                            &&& after.rows[entity] == row.with_popup(
                                popup.reanchored(area, size, offset, serial).awaiting(),
                            )
                        }
                }
            };
        if popup.stays(area, size, serial) {
            assert(after.rows[entity] == (Row {
                role: Some(SurfaceRole::Popup(Some(popup))),
                ..self.rows[entity]
            }));
            assert forall|i: int| 0 <= i < requests.len() implies !(#[trigger] requests[i] matches
                Request::Reposition { entity: other, .. } && other == entity) by {
                assert(order.contains(order[i]));
            }
        } else {
            let offset = choose|offset: Point|
                {
                    &&& #[trigger] metrics.is_point(
                        (row.data->0.attrs.dims.x - outer.x) as i32,
                        (row.data->0.attrs.dims.y - outer.y) as i32,
                        scale,
                        offset,
                    )
                    &&& after.rows[entity] == row.with_popup(
                        popup.reanchored(area, size, offset, serial).awaiting(),
                    )
                };
            let now = popup.reanchored(area, size, offset, serial).awaiting();
            assert(now.pending_anchors.len() != popup.pending_anchors.len());
            assert(after.rows[entity] == (Row {
                role: Some(SurfaceRole::Popup(Some(now))),
                ..self.rows[entity]
            }));
            assert(order.contains(entity));
            let k = choose|k: int| 0 <= k < order.len() && order[k] == entity;
            assert(after.rows[entity].popup() == Some(now));
            assert(requests[k] == crate::popups::reposition_of(entity, row, after.rows[entity]));
            assert forall|i: int, j: int|
                0 <= i < requests.len() && 0 <= j < requests.len() && (#[trigger] requests[i] matches
                    Request::Reposition { entity: one, .. } && one == entity)
                    && (#[trigger] requests[j] matches Request::Reposition { entity: two, .. } && two
                    == entity) implies i == j by {
                assert(order[i] == entity);
                assert(order[j] == entity);
            }
        }
    }
}

impl ServerModel {
    /// Re-anchoring the popups of a parent leaves everything else as it is: all that is no active
    /// popup of it, and all but the entities. Only its popups are repositioned. Where the
    /// compositor cannot reposition popups, or the parent lacks what an anchor is found from,
    /// nothing is done at all.
    pub proof fn only_popups_of_the_parent_move<D, L, W>(
        self,
        after: ServerModel,
        requests: Seq<Request<Seq<char>>>,
        parent: u64,
        serial: Option<u32>,
        metrics: Metrics<D, L, W>,
    ) where
        D: Fn(i32, Scale) -> i32,
        L: Fn(u16, u16, Scale) -> Size,
        W: Fn(u64, i32) -> bool,

        requires
            self.refreshed(after, requests, parent, serial, metrics),
        ensures
            after == (ServerModel { rows: after.rows, ..self }),
            after.rows.dom() == self.rows.dom(),
            self.environment.xdg_wm_base_version < 3 || !self.rows.dom().contains(parent)
                || self.rows[parent].data is None || self.rows[parent].scale is None
                || self.rows[parent].role is None ==> after == self && requests.len() == 0,
            forall|entity: u64| #[trigger]
                self.rows.dom().contains(entity) ==> {
                    &&& after.rows[entity] == (Row {
                        role: after.rows[entity].role,
                        ..self.rows[entity]
                    })
                    &&& match self.rows[entity].role {
                        Some(SurfaceRole::Popup(Some(popup))) => {
                            &&& popup.parent != parent ==> after.rows[entity]
                                == self.rows[entity]
                            &&& after.rows[entity].role matches Some(
                                SurfaceRole::Popup(Some(now)),
                            ) && now.parent == popup.parent
                        },
                        _ => after.rows[entity] == self.rows[entity],
                    }
                },
            forall|i: int|
                0 <= i < requests.len() ==> (#[trigger] requests[i] matches Request::Reposition {
                    entity,
                    ..
                } && self.rows.dom().contains(entity) && (self.rows[entity].role matches Some(
                    SurfaceRole::Popup(Some(popup)),
                ) && popup.parent == parent)),
    {
        if self.is_anchor(parent) {
            let area = choose|area: Area|
                {
                    &&& #[trigger] self.anchors_at(parent, area, metrics)
                    &&& self.children_refreshed(after, parent, area, serial, metrics)
                };
            let order = choose|order: Seq<u64>| #[trigger]
                crate::popups::repositions_in_order(order, requests, self.rows, after.rows);
            assert forall|i: int| 0 <= i < requests.len() implies (#[trigger] requests[i] matches
                Request::Reposition { entity, .. } && self.rows.dom().contains(entity) && (
            self.rows[entity].role matches Some(SurfaceRole::Popup(Some(popup))) && popup.parent
                == parent)) by {
                assert(order.contains(order[i]));
                assert(self.rows[order[i]].is_child(parent));
            }
        }
    }

    /// What a popup of `parent` goes through while the popups of several parents are re-anchored:
    /// it is re-anchored with those of its parent, if that is among them, and left alone else.
    proof fn reached<D, L, W>(
        self,
        after: ServerModel,
        requests: Seq<Request<Seq<char>>>,
        parents: Seq<u64>,
        entity: u64,
        parent: u64,
        metrics: Metrics<D, L, W>,
    ) -> (through: (ServerModel, ServerModel, Seq<Request<Seq<char>>>)) where
        D: Fn(i32, Scale) -> i32,
        L: Fn(u16, u16, Scale) -> Size,
        W: Fn(u64, i32) -> bool,

        requires
            self.all_refreshed(after, requests, parents, metrics),
            crate::popups::ascending(parents),
            self.rows.dom().contains(entity),
            self.rows[entity].role matches Some(SurfaceRole::Popup(Some(popup))) && popup.parent
                == parent,
        ensures
            after == (ServerModel { rows: after.rows, ..self }),
            after.rows.dom() == self.rows.dom(),
            forall|other: u64| #[trigger]
                self.rows.dom().contains(other) ==> after.rows[other] == (Row {
                    role: after.rows[other].role,
                    ..self.rows[other]
                }) && after.rows[other].role is Some == self.rows[other].role is Some
                    && after.rows[other].toplevel() == self.rows[other].toplevel(),
            after.rows[entity].role matches Some(SurfaceRole::Popup(Some(now))) && now.parent
                == parent,
            !parents.contains(parent) ==> after.rows[entity] == self.rows[entity] && forall|i: int|
                0 <= i < requests.len() ==> !(#[trigger] requests[i] matches Request::Reposition {
                    entity: other,
                    ..
                } && other == entity),
            parents.contains(parent) ==> {
                let (before, then, sent) = through;
                &&& before.refreshed(then, sent, parent, None, metrics)
                &&& before == (ServerModel { rows: before.rows, ..self })
                &&& before.rows.dom() == self.rows.dom()
                &&& before.rows[entity] == self.rows[entity]
                &&& forall|other: u64| #[trigger]
                    self.rows.dom().contains(other) ==> before.rows[other] == (Row {
                        role: before.rows[other].role,
                        ..self.rows[other]
                    }) && before.rows[other].role is Some == self.rows[other].role is Some
                        && before.rows[other].toplevel() == self.rows[other].toplevel()
                &&& then.rows[entity] == after.rows[entity]
                &&& forall|request: Request<Seq<char>>| #[trigger]
                    sent.contains(request) ==> requests.contains(request)
                &&& forall|request: Request<Seq<char>>| #[trigger]
                    requests.contains(request) && (request matches Request::Reposition {
                        entity: other,
                        ..
                    } && other == entity) ==> sent.contains(request)
            },
        decreases parents.len(),
    {
        if parents.len() == 0 {
            (self, self, seq![])
        } else {
            let last = parents.last();
            let rest = parents.drop_last();
            let (mid, sent, more) = choose|
                mid: ServerModel,
                sent: Seq<Request<Seq<char>>>,
                more: Seq<Request<Seq<char>>>,
            |
                {
                    &&& self.all_refreshed(mid, sent, rest, metrics)
                    &&& #[trigger] mid.next_refreshed(after, sent, more, requests, last, metrics)
                };
            assert(crate::popups::ascending(rest)) by {
                assert forall|i: int, j: int| 0 <= i < j < rest.len() implies crate::popups::precedes(
                    #[trigger] rest[i],
                    #[trigger] rest[j],
                ) by {
                    assert(rest[i] == parents[i] && rest[j] == parents[j]);
                }
            }
            let through = self.reached(mid, sent, rest, entity, parent, metrics);
            mid.only_popups_of_the_parent_move(after, more, last, None, metrics);
            assert(mid.rows.dom().contains(entity));
            assert(requests == sent + more);
            assert forall|request: Request<Seq<char>>| #[trigger]
                requests.contains(request) <==> sent.contains(request) || more.contains(request) by {
                joined(sent, more, request);
            }
            assert forall|other: u64| #[trigger] self.rows.dom().contains(other) implies after.rows[other]
                == (Row { role: after.rows[other].role, ..self.rows[other] })
                && after.rows[other].role is Some == self.rows[other].role is Some
                && after.rows[other].toplevel() == self.rows[other].toplevel() by {
                assert(mid.rows.dom().contains(other));
            }
            assert(parents.contains(parent) <==> rest.contains(parent) || parent == last) by {
                if rest.contains(parent) {
                    let i = choose|i: int| 0 <= i < rest.len() && rest[i] == parent;
                    assert(parents[i] == parent);
                }
                if parent == last {
                    assert(parents[parents.len() - 1] == parent);
                }
                if parents.contains(parent) && parent != last {
                    let i = choose|i: int| 0 <= i < parents.len() && parents[i] == parent;
                    assert(rest[i] == parent);
                }
            }
            if parent == last {
                assert(!rest.contains(parent)) by {
                    if rest.contains(parent) {
                        let i = choose|i: int| 0 <= i < rest.len() && rest[i] == parent;
                        assert(crate::popups::precedes(parents[i], parents[parents.len() - 1]));
                    }
                }
                assert forall|request: Request<Seq<char>>| #[trigger]
                    requests.contains(request) && (request matches Request::Reposition {
                        entity: other,
                        ..
                    } && other == entity) implies more.contains(request) by {
                    if sent.contains(request) {
                        let i = choose|i: int| 0 <= i < sent.len() && sent[i] == request;
                        assert(sent[i] == request);
                    }
                }
                (mid, after, more)
            } else {
                assert(after.rows[entity] == mid.rows[entity]);
                assert forall|request: Request<Seq<char>>| #[trigger]
                    requests.contains(request) && (request matches Request::Reposition {
                        entity: other,
                        ..
                    } && other == entity) implies sent.contains(request) by {
                    if more.contains(request) {
                        let i = choose|i: int| 0 <= i < more.len() && more[i] == request;
                        assert(more[i] == request);
                    }
                }
                if !parents.contains(parent) {
                    assert forall|i: int| 0 <= i < requests.len() implies !(#[trigger] requests[i] matches
                        Request::Reposition { entity: other, .. } && other == entity) by {
                        if requests[i] matches Request::Reposition { entity: other, .. } && other
                            == entity {
                            assert(requests.contains(requests[i]));
                            let j = choose|j: int| 0 <= j < sent.len() && sent[j] == requests[i];
                            assert(sent[j] == requests[i]);
                        }
                    }
                }
                through
            }
        }
    }
}

impl ServerModel {
    /// When the geometry of an entity has changed, the popups of it are re-anchored, and if the
    /// entity is itself a popup, it and the other popups of its parent are too: each ends up with
    /// the logical size that its own dimensions and scale factor give and anchored to its
    /// parent's logical area, and is repositioned if that makes a difference, and only then.
    pub proof fn named_popups_are_refreshed<D, L, W>(
        self,
        after: ServerModel,
        requests: Seq<Request<Seq<char>>>,
        cause: u64,
        entity: u64,
        popup: PopupData<Seq<PendingAnchor>>,
        metrics: Metrics<D, L, W>,
    ) where
        D: Fn(i32, Scale) -> i32,
        L: Fn(u16, u16, Scale) -> Size,
        W: Fn(u64, i32) -> bool,

        requires
            self.pending_refreshed(after, requests, metrics),
            self.pending_popup_refresh.contains(cause),
            cause == popup.parent || self.rows.dom().contains(cause) && (self.rows[cause].role matches
                Some(SurfaceRole::Popup(Some(named))) && named.parent == popup.parent),
            self.rows.dom().contains(entity),
            self.rows[entity].role == Some(SurfaceRole::Popup(Some(popup))),
            self.rows[entity].data is Some,
            self.rows[entity].scale is Some,
            self.environment.xdg_wm_base_version >= 3,
            self.rows.dom().contains(popup.parent),
            self.rows[popup.parent].data is Some,
            self.rows[popup.parent].scale is Some,
            self.rows[popup.parent].role is Some,
        ensures
            ({
                let now = after.rows[entity].role->0->Popup_0->0;
                let dims = self.rows[entity].data->0.attrs.dims;
                let own = self.rows[entity].scale->0.scale;
                let outer = self.rows[popup.parent].data->0.attrs.dims;
                let scale = self.rows[popup.parent].scale->0.scale;
                &&& after.rows[entity] == (Row {
                    role: Some(SurfaceRole::Popup(Some(now))),
                    ..self.rows[entity]
                })
                &&& exists|width: i32, height: i32| #[trigger]
                    call_ensures(metrics.divide, (dims.width as i32, own), width)
                        && #[trigger] call_ensures(
                        metrics.divide,
                        (dims.height as i32, own),
                        height,
                    ) && now.size == (Size {
                        width: if width < 1 {
                            1
                        } else {
                            width
                        },
                        height: if height < 1 {
                            1
                        } else {
                            height
                        },
                    })
                &&& call_ensures(
                    metrics.logical_size,
                    (outer.width, outer.height, scale),
                    now.anchor_size,
                )
                &&& if now.anchor_origin == popup.anchor_origin && now.anchor_size
                    == popup.anchor_size && now.size == popup.size {
                    &&& now == popup
                    &&& forall|i: int|
                        0 <= i < requests.len() ==> !(#[trigger] requests[i] matches
                            Request::Reposition { entity: other, .. } && other == entity)
                } else {
                    &&& call_ensures(
                        metrics.divide,
                        ((dims.x - outer.x) as i32, scale),
                        now.offset.x,
                    )
                    &&& call_ensures(
                        metrics.divide,
                        ((dims.y - outer.y) as i32, scale),
                        now.offset.y,
                    )
                    &&& exists|i: int|
                        0 <= i < requests.len() && (#[trigger] requests[i] matches
                            Request::Reposition { entity: moved, positioner, token } && moved
                            == entity && token == popup.next_reposition_token && positioner.size
                            == now.size && positioner.offset == now.offset
                            && positioner.anchor_origin == now.anchor_origin
                            && positioner.anchor_size == now.anchor_size
                            && positioner.parent_configure is None)
                }
            }),
    {
        let start = ServerModel { pending_popup_refresh: Seq::empty(), ..self };
        let parents = choose|parents: Seq<u64>|
            {
                &&& #[trigger] self.lists_parents(parents, self.pending_popup_refresh)
                &&& start.all_refreshed(after, requests, parents, metrics)
            };
        let parent = popup.parent;
        let k = choose|k: int|
            0 <= k < self.pending_popup_refresh.len() && self.pending_popup_refresh[k] == cause;
        assert(self.refreshed_through(self.pending_popup_refresh[k], parent));
        assert(parents.contains(parent));
        let (before, then, sent) = start.reached(
            after,
            requests,
            parents,
            entity,
            parent,
            metrics,
        );
        assert(start.rows.dom().contains(parent));
        assert(before.rows[parent].data == self.rows[parent].data);
        before.popups_follow_their_parent(then, sent, parent, None, entity, popup, metrics);
        let now = after.rows[entity].role->0->Popup_0->0;
        if now.anchor_origin == popup.anchor_origin && now.anchor_size == popup.anchor_size
            && now.size == popup.size {
            assert forall|i: int| 0 <= i < requests.len() implies !(#[trigger] requests[i] matches
                Request::Reposition { entity: other, .. } && other == entity) by {
                if requests[i] matches Request::Reposition { entity: other, .. } && other
                    == entity {
                    assert(requests.contains(requests[i]));
                    let j = choose|j: int| 0 <= j < sent.len() && sent[j] == requests[i];
                    assert(sent[j] == requests[i]);
                }
            }
        } else {
            let j = choose|j: int|
                0 <= j < sent.len() && (#[trigger] sent[j] matches Request::Reposition {
                    entity: moved,
                    positioner,
                    token,
                } && moved == entity && token == popup.next_reposition_token && positioner.size
                    == now.size && positioner.offset == now.offset && positioner.anchor_origin
                    == now.anchor_origin && positioner.anchor_size == now.anchor_size
                    && positioner.parent_configure is None);
            assert(sent.contains(sent[j]));
            let i = choose|i: int| 0 <= i < requests.len() && requests[i] == sent[j];
            assert(requests[i] == sent[j]);
        }
    }

    /// A popup is left alone as long as neither its parent nor any popup of its parent is named,
    /// and so is everything that is no popup.
    pub proof fn unnamed_popups_are_left_alone<D, L, W>(
        self,
        after: ServerModel,
        requests: Seq<Request<Seq<char>>>,
        entity: u64,
        popup: PopupData<Seq<PendingAnchor>>,
        metrics: Metrics<D, L, W>,
    ) where
        D: Fn(i32, Scale) -> i32,
        L: Fn(u16, u16, Scale) -> Size,
        W: Fn(u64, i32) -> bool,

        requires
            self.pending_refreshed(after, requests, metrics),
            self.rows.dom().contains(entity),
            self.rows[entity].role == Some(SurfaceRole::Popup(Some(popup))),
            forall|i: int|
                0 <= i < self.pending_popup_refresh.len() ==> {
                    let named = #[trigger] self.pending_popup_refresh[i];
                    &&& named != popup.parent
                    &&& self.rows.dom().contains(named) ==> !(self.rows[named].role matches Some(
                        SurfaceRole::Popup(Some(other)),
                    ) && other.parent == popup.parent)
                },
        ensures
            after.rows[entity] == self.rows[entity],
            forall|i: int|
                0 <= i < requests.len() ==> !(#[trigger] requests[i] matches Request::Reposition {
                    entity: other,
                    ..
                } && other == entity),
    {
        let start = ServerModel { pending_popup_refresh: Seq::empty(), ..self };
        let parents = choose|parents: Seq<u64>|
            {
                &&& #[trigger] self.lists_parents(parents, self.pending_popup_refresh)
                &&& start.all_refreshed(after, requests, parents, metrics)
            };
        assert(!parents.contains(popup.parent));
        start.reached(after, requests, parents, entity, popup.parent, metrics);
    }

    /// Re-anchoring popups empties the list of what is due and keeps everything else: all of an
    /// entity but its role, what is a toplevel, and all but the entities.
    pub proof fn refresh_keeps_all_but_popups<D, L, W>(
        self,
        after: ServerModel,
        requests: Seq<Request<Seq<char>>>,
        metrics: Metrics<D, L, W>,
    ) where
        D: Fn(i32, Scale) -> i32,
        L: Fn(u16, u16, Scale) -> Size,
        W: Fn(u64, i32) -> bool,

        requires
            self.pending_refreshed(after, requests, metrics),
        ensures
            after == (ServerModel {
                rows: after.rows,
                pending_popup_refresh: Seq::empty(),
                ..self
            }),
            after.rows.dom() == self.rows.dom(),
            forall|entity: u64| #[trigger]
                self.rows.dom().contains(entity) ==> {
                    &&& after.rows[entity] == (Row {
                        role: after.rows[entity].role,
                        ..self.rows[entity]
                    })
                    &&& !(self.rows[entity].role matches Some(SurfaceRole::Popup(Some(_))))
                        ==> after.rows[entity] == self.rows[entity]
                },
            forall|i: int|
                0 <= i < requests.len() ==> (#[trigger] requests[i]) is Reposition,
    {
        let start = ServerModel { pending_popup_refresh: Seq::empty(), ..self };
        let parents = choose|parents: Seq<u64>|
            {
                &&& #[trigger] self.lists_parents(parents, self.pending_popup_refresh)
                &&& start.all_refreshed(after, requests, parents, metrics)
            };
        start.kept(after, requests, parents, metrics);
    }

    /// What re-anchoring the popups of several parents keeps.
    proof fn kept<D, L, W>(
        self,
        after: ServerModel,
        requests: Seq<Request<Seq<char>>>,
        parents: Seq<u64>,
        metrics: Metrics<D, L, W>,
    ) where
        D: Fn(i32, Scale) -> i32,
        L: Fn(u16, u16, Scale) -> Size,
        W: Fn(u64, i32) -> bool,

        requires
            self.all_refreshed(after, requests, parents, metrics),
        ensures
            after == (ServerModel { rows: after.rows, ..self }),
            after.rows.dom() == self.rows.dom(),
            forall|entity: u64| #[trigger]
                self.rows.dom().contains(entity) ==> {
                    &&& after.rows[entity] == (Row {
                        role: after.rows[entity].role,
                        ..self.rows[entity]
                    })
                    &&& match self.rows[entity].role {
                        Some(SurfaceRole::Popup(Some(_))) => after.rows[entity].role matches Some(
                            SurfaceRole::Popup(Some(_)),
                        ),
                        _ => after.rows[entity] == self.rows[entity],
                    }
                },
            forall|i: int|
                0 <= i < requests.len() ==> (#[trigger] requests[i]) is Reposition,
        decreases parents.len(),
    {
        if parents.len() > 0 {
            let (mid, sent, more) = choose|
                mid: ServerModel,
                sent: Seq<Request<Seq<char>>>,
                more: Seq<Request<Seq<char>>>,
            |
                {
                    &&& self.all_refreshed(mid, sent, parents.drop_last(), metrics)
                    &&& #[trigger] mid.next_refreshed(
                        after,
                        sent,
                        more,
                        requests,
                        parents.last(),
                        metrics,
                    )
                };
            self.kept(mid, sent, parents.drop_last(), metrics);
            mid.only_popups_of_the_parent_move(after, more, parents.last(), None, metrics);
            assert forall|entity: u64| #[trigger] self.rows.dom().contains(entity) implies {
                &&& after.rows[entity] == (Row {
                    role: after.rows[entity].role,
                    ..self.rows[entity]
                })
                &&& match self.rows[entity].role {
                    Some(SurfaceRole::Popup(Some(_))) => after.rows[entity].role matches Some(
                        SurfaceRole::Popup(Some(_)),
                    ),
                    _ => after.rows[entity] == self.rows[entity],
                }
            } by {
                assert(mid.rows.dom().contains(entity));
            }
            assert forall|i: int| 0 <= i < requests.len() implies (#[trigger] requests[i]) is Reposition by {
                if i < sent.len() {
                    assert(requests[i] == sent[i]);
                } else {
                    assert(requests[i] == more[i - sent.len()]);
                }
            }
        }
    }
}

impl ServerModel {
    /// A window that is to be a popup becomes one of the window last hovered, or else of the
    /// toplevel last focused: it takes over that window's scale factor, by which its size and its
    /// distance are divided, is anchored to that window's logical area below the titlebar, and
    /// awaits no answer yet. The compositor is told all of this, between an empty commit and
    /// another one.
    pub proof fn popup_is_created_by_its_parent<D, L, W>(
        self,
        after: ServerModel,
        requests: Seq<Request<Seq<char>>>,
        entity: u64,
        parent: Window,
        metrics: Metrics<D, L, W>,
    ) where
        D: Fn(i32, Scale) -> i32,
        L: Fn(u16, u16, Scale) -> Size,
        W: Fn(u64, i32) -> bool,

        requires
            self.role_created(after, requests, entity, metrics),
            self.rows[entity].data is Some,
            self.rows[entity].data->0.attrs.role == crate::window::WindowRole::Popup,
            forall|output: u64| #[trigger]
                self.rows.dom().contains(output) ==> !(self.rows[output].output_dimensions matches
                    Some(area) && area.width == self.rows[entity].data->0.attrs.dims.width
                    && area.height == self.rows[entity].data->0.attrs.dims.height),
            self.last_hovered == Some(parent) || self.last_hovered is None
                && self.last_focused_toplevel == Some(parent),
            self.windows[parent.id] != entity,
        ensures
            ({
                let now = after.rows[entity].role->0->Popup_0->0;
                let dims = self.rows[entity].data->0.attrs.dims;
                let owner = self.windows[parent.id];
                let outer = self.rows[owner].data->0.attrs.dims;
                let scale = self.rows[owner].scale->0.scale;
                let decorated = match self.rows[owner].role {
                    Some(SurfaceRole::Toplevel(Some(toplevel))) => toplevel.decoration.satellite,
                    _ => false,
                };
                &&& after == (ServerModel {
                    rows: self.rows.insert(
                        entity,
                        Row {
                            scale: self.rows[owner].scale,
                            role: Some(SurfaceRole::Popup(Some(now))),
                            ..self.rows[entity]
                        },
                    ),
                    ..self
                })
                &&& now.parent == owner
                &&& !now.xdg.configured && now.xdg.pending is None
                &&& now.parent_size is None && now.parent_configure is None
                &&& now.configure_anchor == now.anchor_origin
                &&& now.pending_anchors.len() == 0 && now.next_reposition_token == 1
                &&& exists|width: i32, height: i32| #[trigger]
                    call_ensures(metrics.divide, (dims.width as i32, scale), width)
                        && #[trigger] call_ensures(
                        metrics.divide,
                        (dims.height as i32, scale),
                        height,
                    ) && now.size == (Size {
                        width: if width < 1 {
                            1
                        } else {
                            width
                        },
                        height: if height < 1 {
                            1
                        } else {
                            height
                        },
                    })
                &&& call_ensures(metrics.divide, ((dims.x - outer.x) as i32, scale), now.offset.x)
                &&& call_ensures(metrics.divide, ((dims.y - outer.y) as i32, scale), now.offset.y)
                &&& call_ensures(
                    metrics.logical_size,
                    (outer.width, outer.height, scale),
                    now.anchor_size,
                )
                &&& now.anchor_origin.x == 0
                &&& !decorated ==> now.anchor_origin.y == 0
                &&& decorated ==> exists|drawn: bool| #[trigger]
                    call_ensures(
                        metrics.draws_titlebar,
                        (owner, now.anchor_size.width),
                        drawn,
                    ) && now.anchor_origin.y == (if drawn {
                        self.environment.titlebar_height
                    } else {
                        0
                    })
                &&& requests =~= seq![
                    Request::<Seq<char>>::AttachNothing { entity },
                    Request::Commit { entity },
                    Request::CreateXdgSurface { entity },
                    Request::CreatePopup {
                        entity,
                        parent: owner,
                        positioner: Positioner {
                            size: now.size,
                            offset: now.offset,
                            anchor: Corner::TopLeft,
                            gravity: Corner::BottomRight,
                            anchor_origin: now.anchor_origin,
                            anchor_size: now.anchor_size,
                            constraint_adjustment: ConstraintAdjustment {
                                slide_x: true,
                                slide_y: true,
                            },
                            parent_size: now.parent_size,
                            parent_configure: None,
                        },
                    },
                    Request::Commit { entity },
                ]
            }),
    {
        let dims = self.rows[entity].data->0.attrs.dims;
        assert(!self.fills_output(dims)) by {
            if self.fills_output(dims) {
                let output = choose|output: u64| #[trigger]
                    self.rows.dom().contains(output) && self.is_filled(output, dims);
                assert(self.rows.dom().contains(output));
            }
        }
        assert(self.popup_for(entity) == Some(parent));
        let popup = choose|popup: PopupData<Seq<PendingAnchor>>|
            {
                &&& #[trigger] self.is_new_popup(popup, entity, self.entity(parent), metrics)
                &&& after == self.with_new_popup(entity, popup)
                &&& requests.len() == 5
                &&& requests[3] == (Request::<Seq<char>>::CreatePopup {
                    entity,
                    parent: self.entity(parent),
                    positioner: popup.positioner(),
                })
            };
        assert(after.rows[entity].role == Some(SurfaceRole::Popup(Some(popup))));
    }

    /// When the window of a popup is reconfigured, the popup is repositioned once: by its
    /// distance from its parent's window in the parent's logical coordinates, with the logical
    /// size that its own scale factor gives, and in response to no configure. Its anchor stays.
    pub proof fn reconfigured_popup_is_repositioned<D, L, W>(
        self,
        after: ServerModel,
        requests: Seq<Request<Seq<char>>>,
        window: Window,
        dims: WindowDims,
        popup: PopupData<Seq<PendingAnchor>>,
        metrics: Metrics<D, L, W>,
    ) where
        D: Fn(i32, Scale) -> i32,
        L: Fn(u16, u16, Scale) -> Size,
        W: Fn(u64, i32) -> bool,

        requires
            self.reconfigured(after, requests, window, dims, metrics),
            self.windows.dom().contains(window.id),
            self.rows[self.windows[window.id]].data is Some,
            self.rows[self.windows[window.id]].data->0.mapped,
            self.rows[self.windows[window.id]].data->0.attrs.dims != dims,
            self.rows[self.windows[window.id]].role == Some(SurfaceRole::Popup(Some(popup))),
            self.rows[self.windows[window.id]].scale is Some,
            self.environment.xdg_wm_base_version >= 3,
        ensures
            ({
                let entity = self.windows[window.id];
                let now = after.rows[entity].role->0->Popup_0->0;
                let own = self.rows[entity].scale->0.scale;
                &&& after == (ServerModel {
                    rows: self.rows.insert(
                        entity,
                        Row {
                            data: after.rows[entity].data,
                            role: Some(SurfaceRole::Popup(Some(now))),
                            ..self.rows[entity]
                        },
                    ),
                    ..self
                })
                &&& now.xdg == popup.xdg && now.parent == popup.parent
                &&& now.anchor_origin == popup.anchor_origin && now.anchor_size
                    == popup.anchor_size && now.parent_size == popup.parent_size
                &&& now.configure_anchor == popup.configure_anchor
                &&& now.parent_configure is None
                &&& now.next_reposition_token != popup.next_reposition_token
                &&& now.pending_anchors == popup.pending_anchors.push(
                    PendingAnchor {
                        token: popup.next_reposition_token,
                        origin: popup.anchor_origin,
                    },
                )
                &&& exists|width: i32, height: i32| #[trigger]
                    call_ensures(metrics.divide, (dims.width as i32, own), width)
                        && #[trigger] call_ensures(
                        metrics.divide,
                        (dims.height as i32, own),
                        height,
                    ) && now.size == (Size {
                        width: if width < 1 {
                            1
                        } else {
                            width
                        },
                        height: if height < 1 {
                            1
                        } else {
                            height
                        },
                    })
                &&& self.rows.dom().contains(popup.parent) && self.rows[popup.parent].data is Some
                    && self.rows[popup.parent].scale is Some ==> {
                    let outer = self.rows[popup.parent].data->0.attrs.dims;
                    let scale = self.rows[popup.parent].scale->0.scale;
                    &&& call_ensures(
                        metrics.divide,
                        ((dims.x - outer.x) as i32, scale),
                        now.offset.x,
                    )
                    &&& call_ensures(
                        metrics.divide,
                        ((dims.y - outer.y) as i32, scale),
                        now.offset.y,
                    )
                }
                &&& requests =~= seq![
                    Request::<Seq<char>>::Reposition {
                        entity,
                        token: popup.next_reposition_token,
                        positioner: Positioner {
                            size: now.size,
                            offset: now.offset,
                            anchor: Corner::TopLeft,
                            gravity: Corner::BottomRight,
                            anchor_origin: now.anchor_origin,
                            anchor_size: now.anchor_size,
                            constraint_adjustment: ConstraintAdjustment {
                                slide_x: true,
                                slide_y: true,
                            },
                            parent_size: now.parent_size,
                            parent_configure: None,
                        },
                    },
                ]
                &&& self.rows[entity].data->0.attrs.role == crate::window::WindowRole::Popup
                    ==> after.rows[entity].data->0.attrs.dims == dims
            }),
    {
        let entity = self.windows[window.id];
        let placed = choose|placed: PopupData<Seq<PendingAnchor>>|
            {
                &&& #[trigger] self.popup_reconfigured(placed, window, dims, metrics)
                &&& after == ServerModel {
                    rows: self.rows.insert(
                        entity,
                        Row {
                            data: Some(self.told_dims(window, dims)),
                            ..self.row(window)
                        }.with_popup(placed.awaiting()),
                    ),
                    ..self
                }
                &&& requests == seq![placed.reposition_request::<Seq<char>>(entity)]
            };
        assert(after.rows[entity].role == Some(SurfaceRole::Popup(Some(placed.awaiting()))));
    }
}

impl PopupData<Seq<PendingAnchor>> {
    /// The answer to a reposition tells the anchor that the reposition was made with, and leaves
    /// nothing awaited that was asked for before it. All that was asked for later is still
    /// awaited, and nothing else changes.
    pub proof fn answer_tells_its_anchor(self, token: u32, index: int)
        requires
            self.awaits_at(token, index),
        ensures
            0 <= index < self.pending_anchors.len(),
            self.pending_anchors[index].token == token,
            forall|i: int| 0 <= i < index ==> (#[trigger] self.pending_anchors[i]).token != token,
            self.answered(index).configure_anchor == self.pending_anchors[index].origin,
            self.answered(index).pending_anchors.len() + index + 1 == self.pending_anchors.len(),
            forall|i: int|
                0 <= i < self.answered(index).pending_anchors.len() ==> #[trigger] self.answered(
                    index,
                ).pending_anchors[i] == self.pending_anchors[index + 1 + i],
            self.answered(index).size == self.size && self.answered(index).offset == self.offset
                && self.answered(index).anchor_origin == self.anchor_origin && self.answered(
                index,
            ).anchor_size == self.anchor_size && self.answered(index).parent == self.parent
                && self.answered(index).xdg == self.xdg && self.answered(index).parent_size
                == self.parent_size && self.answered(index).parent_configure
                == self.parent_configure && self.answered(index).next_reposition_token
                == self.next_reposition_token,
    {
    }

    /// An answer is that to an awaited reposition exactly if one with its token is awaited.
    pub proof fn awaited_tokens_are_those_asked_for(self, token: u32)
        ensures
            self.awaits(token) <==> exists|i: int|
                0 <= i < self.pending_anchors.len() && (#[trigger] self.pending_anchors[i]).token
                    == token,
            self.awaits(token) <==> exists|index: int| #[trigger] self.awaits_at(token, index),
            self.awaiting().awaits(self.next_reposition_token),
    {
        let now = self.awaiting();
        assert(now.pending_anchors[self.pending_anchors.len() as int].token
            == self.next_reposition_token);
        if self.awaits(token) {
            let i = choose|i: int|
                0 <= i < self.pending_anchors.len() && (#[trigger] self.pending_anchors[i]).token
                    == token;
            self.first_awaited(token, i);
        }
    }

    /// Of all awaited repositions with a token one is the oldest.
    proof fn first_awaited(self, token: u32, i: int)
        requires
            0 <= i < self.pending_anchors.len(),
            self.pending_anchors[i].token == token,
        ensures
            exists|index: int| #[trigger] self.awaits_at(token, index),
        decreases i,
    {
        if exists|j: int| 0 <= j < i && (#[trigger] self.pending_anchors[j]).token == token {
            let j = choose|j: int|
                0 <= j < i && (#[trigger] self.pending_anchors[j]).token == token;
            self.first_awaited(token, j);
        } else {
            assert(self.awaits_at(token, i));
        }
    }
}

/// Entities are ordered by their index, the lower half of their bits, and those of one index by the
/// upper half. This is a strict total order.
pub proof fn entities_are_ordered(one: u64, two: u64, three: u64)
    ensures
        one % 0x1_0000_0000 < two % 0x1_0000_0000 ==> crate::popups::precedes(one, two),
        one % 0x1_0000_0000 == two % 0x1_0000_0000 && one < two ==> crate::popups::precedes(
            one,
            two,
        ),
        !crate::popups::precedes(one, one),
        one != two ==> crate::popups::precedes(one, two) || crate::popups::precedes(two, one),
        crate::popups::precedes(one, two) && crate::popups::precedes(two, three)
            ==> crate::popups::precedes(one, three),
{
}

impl ServerModel {
    /// The popups of one parent are all repositioned before those of another one that comes after
    /// it in the order of entities.
    pub proof fn popups_are_refreshed_parent_by_parent<D, L, W>(
        self,
        after: ServerModel,
        requests: Seq<Request<Seq<char>>>,
        i: int,
        j: int,
        first: PopupData<Seq<PendingAnchor>>,
        second: PopupData<Seq<PendingAnchor>>,
        metrics: Metrics<D, L, W>,
    ) where
        D: Fn(i32, Scale) -> i32,
        L: Fn(u16, u16, Scale) -> Size,
        W: Fn(u64, i32) -> bool,

        requires
            self.pending_refreshed(after, requests, metrics),
            0 <= i < requests.len(),
            0 <= j < requests.len(),
            requests[i] matches Request::Reposition { entity, .. } && self.rows[entity].role
                == Some(SurfaceRole::Popup(Some(first))),
            requests[j] matches Request::Reposition { entity, .. } && self.rows[entity].role
                == Some(SurfaceRole::Popup(Some(second))),
            crate::popups::precedes(first.parent, second.parent),
        ensures
            i < j,
    {
        let start = ServerModel { pending_popup_refresh: Seq::empty(), ..self };
        let parents = choose|parents: Seq<u64>|
            {
                &&& #[trigger] self.lists_parents(parents, self.pending_popup_refresh)
                &&& start.all_refreshed(after, requests, parents, metrics)
            };
        start.ordered(after, requests, parents, i, j, first, second, metrics);
    }

    /// The requests for popups of several parents are in the parents' order.
    proof fn ordered<D, L, W>(
        self,
        after: ServerModel,
        requests: Seq<Request<Seq<char>>>,
        parents: Seq<u64>,
        i: int,
        j: int,
        first: PopupData<Seq<PendingAnchor>>,
        second: PopupData<Seq<PendingAnchor>>,
        metrics: Metrics<D, L, W>,
    ) where
        D: Fn(i32, Scale) -> i32,
        L: Fn(u16, u16, Scale) -> Size,
        W: Fn(u64, i32) -> bool,

        requires
            self.all_refreshed(after, requests, parents, metrics),
            crate::popups::ascending(parents),
            0 <= i < requests.len(),
            0 <= j < requests.len(),
            requests[i] matches Request::Reposition { entity, .. } && self.rows[entity].role
                == Some(SurfaceRole::Popup(Some(first))),
            requests[j] matches Request::Reposition { entity, .. } && self.rows[entity].role
                == Some(SurfaceRole::Popup(Some(second))),
            crate::popups::precedes(first.parent, second.parent),
        ensures
            i < j,
        decreases parents.len(),
    {
        if parents.len() > 0 {
            let last = parents.last();
            let rest = parents.drop_last();
            let (mid, sent, more) = choose|
                mid: ServerModel,
                sent: Seq<Request<Seq<char>>>,
                more: Seq<Request<Seq<char>>>,
            |
                {
                    &&& self.all_refreshed(mid, sent, rest, metrics)
                    &&& #[trigger] mid.next_refreshed(after, sent, more, requests, last, metrics)
                };
            assert(crate::popups::ascending(rest)) by {
                assert forall|a: int, b: int| 0 <= a < b < rest.len() implies crate::popups::precedes(
                    #[trigger] rest[a],
                    #[trigger] rest[b],
                ) by {
                    assert(rest[a] == parents[a] && rest[b] == parents[b]);
                }
            }
            if j < sent.len() && i < sent.len() {
                assert(requests[i] == sent[i] && requests[j] == sent[j]);
                self.ordered(mid, sent, rest, i, j, first, second, metrics);
            } else if j < sent.len() {
                assert(requests[i] == more[i - sent.len()]);
                assert(requests[j] == sent[j]);
                mid.only_popups_of_the_parent_move(after, more, last, None, metrics);
                self.parents_of(mid, sent, rest, j, metrics);
                self.popups_keep_their_parents(mid, sent, rest, metrics);
                let k = choose|k: int| 0 <= k < rest.len() && rest[k] == second.parent;
                assert(parents[k] == second.parent);
                assert(crate::popups::precedes(parents[k], parents[parents.len() - 1]));
                assert(first.parent == last);
                entities_are_ordered(first.parent, second.parent, first.parent);
            } else if i >= sent.len() {
                assert(requests[i] == more[i - sent.len()]);
                assert(requests[j] == more[j - sent.len()]);
                mid.only_popups_of_the_parent_move(after, more, last, None, metrics);
                self.popups_keep_their_parents(mid, sent, rest, metrics);
                assert(first.parent == last && second.parent == last);
            }
        }
    }

    /// Popups keep their parents while they are re-anchored.
    proof fn popups_keep_their_parents<D, L, W>(
        self,
        after: ServerModel,
        requests: Seq<Request<Seq<char>>>,
        parents: Seq<u64>,
        metrics: Metrics<D, L, W>,
    ) where
        D: Fn(i32, Scale) -> i32,
        L: Fn(u16, u16, Scale) -> Size,
        W: Fn(u64, i32) -> bool,

        requires
            self.all_refreshed(after, requests, parents, metrics),
        ensures
            after.rows.dom() == self.rows.dom(),
            forall|entity: u64| #[trigger]
                self.rows.dom().contains(entity) ==> match self.rows[entity].role {
                    Some(SurfaceRole::Popup(Some(popup))) => after.rows[entity].role matches Some(
                        SurfaceRole::Popup(Some(now)),
                    ) && now.parent == popup.parent,
                    _ => after.rows[entity].role == self.rows[entity].role,
                },
        decreases parents.len(),
    {
        if parents.len() > 0 {
            let (mid, sent, more) = choose|
                mid: ServerModel,
                sent: Seq<Request<Seq<char>>>,
                more: Seq<Request<Seq<char>>>,
            |
                {
                    &&& self.all_refreshed(mid, sent, parents.drop_last(), metrics)
                    &&& #[trigger] mid.next_refreshed(
                        after,
                        sent,
                        more,
                        requests,
                        parents.last(),
                        metrics,
                    )
                };
            self.popups_keep_their_parents(mid, sent, parents.drop_last(), metrics);
            mid.only_popups_of_the_parent_move(after, more, parents.last(), None, metrics);
            assert forall|entity: u64| #[trigger] self.rows.dom().contains(entity) implies match self.rows[entity].role {
                Some(SurfaceRole::Popup(Some(popup))) => after.rows[entity].role matches Some(
                    SurfaceRole::Popup(Some(now)),
                ) && now.parent == popup.parent,
                _ => after.rows[entity].role == self.rows[entity].role,
            } by {
                assert(mid.rows.dom().contains(entity));
            }
        }
    }

    /// Each request is for a popup of one of the parents.
    proof fn parents_of<D, L, W>(
        self,
        after: ServerModel,
        requests: Seq<Request<Seq<char>>>,
        parents: Seq<u64>,
        i: int,
        metrics: Metrics<D, L, W>,
    ) where
        D: Fn(i32, Scale) -> i32,
        L: Fn(u16, u16, Scale) -> Size,
        W: Fn(u64, i32) -> bool,

        requires
            self.all_refreshed(after, requests, parents, metrics),
            0 <= i < requests.len(),
        ensures
            requests[i] matches Request::Reposition { entity, .. } && self.rows.dom().contains(
                entity,
            ) && (self.rows[entity].role matches Some(SurfaceRole::Popup(Some(popup)))
                && parents.contains(popup.parent)),
        decreases parents.len(),
    {
        if parents.len() > 0 {
            let last = parents.last();
            let rest = parents.drop_last();
            let (mid, sent, more) = choose|
                mid: ServerModel,
                sent: Seq<Request<Seq<char>>>,
                more: Seq<Request<Seq<char>>>,
            |
                {
                    &&& self.all_refreshed(mid, sent, rest, metrics)
                    &&& #[trigger] mid.next_refreshed(after, sent, more, requests, last, metrics)
                };
            if i < sent.len() {
                assert(requests[i] == sent[i]);
                self.parents_of(mid, sent, rest, i, metrics);
                let entity = requests[i]->Reposition_entity;
                let parent = self.rows[entity].role->0->Popup_0->0.parent;
                let k = choose|k: int| 0 <= k < rest.len() && rest[k] == parent;
                assert(parents[k] == parent);
            } else {
                assert(requests[i] == more[i - sent.len()]);
                mid.only_popups_of_the_parent_move(after, more, last, None, metrics);
                self.popups_keep_their_parents(mid, sent, rest, metrics);
                assert(parents[parents.len() - 1] == last);
            }
        }
    }
}

} // verus!
