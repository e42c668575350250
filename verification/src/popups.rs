//! Keeping popups anchored to their parents.
use crate::geometry::{Area, Point, Scale, Size, WindowDims};
use crate::metrics::Metrics;
use crate::request::Request;
use crate::role::{PendingAnchor, PopupData, SurfaceRole};
use crate::state::{InnerServerState, ServerModel};
use crate::window::WindowData;
use crate::world::{Row, SurfaceScaleFactor};
use vstd::prelude::*;

verus! {

impl PopupData<Seq<PendingAnchor>> {
    /// Whether the popup is already as it should be, and no configure of its parent is responded
    /// to.
    pub open spec fn stays(self, anchor: Area, size: Size, serial: Option<u32>) -> bool {
        &&& self.anchor_origin == anchor.origin
        &&& self.anchor_size == anchor.size
        &&& self.size == size
        &&& serial is None
    }

    /// The popup with another anchor, size and offset. The parent's window geometry is its
    /// content plus the titlebar above it.
    pub open spec fn reanchored(
        self,
        anchor: Area,
        size: Size,
        offset: Point,
        serial: Option<u32>,
    ) -> PopupData<Seq<PendingAnchor>> {
        PopupData {
            anchor_origin: anchor.origin,
            anchor_size: anchor.size,
            size,
            parent_size: Some(
                Size {
                    width: anchor.size.width,
                    height: anchor.size.height.wrapping_add(anchor.origin.y),
                },
            ),
            parent_configure: serial,
            offset,
            ..self
        }
    }
}

impl Row {
    /// The popup that the entity is, if it is an active one.
    pub open spec fn popup(self) -> Option<PopupData<Seq<PendingAnchor>>> {
        if self.role is Some {
            self.role->0.active_popup()
        } else {
            None
        }
    }

    /// The toplevel that the entity is, if it is an active one.
    pub open spec fn toplevel(self) -> Option<crate::role::ToplevelData> {
        if self.role is Some {
            self.role->0.active_toplevel()
        } else {
            None
        }
    }

    /// Whether the entity is a popup of `parent` that can be re-anchored.
    pub open spec fn is_child(self, parent: u64) -> bool {
        &&& self.popup() is Some
        &&& self.popup()->0.parent == parent
        &&& self.data is Some
        &&& self.scale is Some
    }

    /// The row with another state of the popup.
    pub open spec fn with_popup(self, popup: PopupData<Seq<PendingAnchor>>) -> Row {
        Row { role: Some(SurfaceRole::Popup(Some(popup))), ..self }
    }

    /// Whether `after` is the row of a popup once it has been re-anchored to `anchor`, where its
    /// parent has the given dimensions and scale factor. The popup's logical size follows its own
    /// scale factor, so that a change of the scale keeps its X11 size rather than resizing it.
    pub open spec fn child_refreshed<D, L, W>(
        self,
        after: Row,
        anchor: Area,
        parent_dims: WindowDims,
        parent_scale: Scale,
        serial: Option<u32>,
        metrics: Metrics<D, L, W>,
    ) -> bool where
        D: Fn(i32, Scale) -> i32,
        L: Fn(u16, u16, Scale) -> Size,
        W: Fn(u64, i32) -> bool,
     {
        exists|size: Size|
            {
                &&& #[trigger] metrics.is_popup_size(
                    self.data->0.attrs.dims,
                    self.scale->0.scale,
                    size,
                )
                &&& if self.popup()->0.stays(anchor, size, serial) {
                    after == self
                } else {
                    exists|offset: Point|
                        {
                            &&& #[trigger] metrics.is_point(
                                (self.data->0.attrs.dims.x - parent_dims.x) as i32,
                                (self.data->0.attrs.dims.y - parent_dims.y) as i32,
                                parent_scale,
                                offset,
                            )
                            &&& after == self.with_popup(
                                self.popup()->0.reanchored(
                                    anchor,
                                    size,
                                    offset,
                                    serial,
                                ).awaiting(),
                            )
                        }
                }
            }
    }
}

/// The request that repositions a popup whose row was `before` and is `after`.
pub open spec fn reposition_of(entity: u64, before: Row, after: Row) -> Request<Seq<char>> {
    Request::Reposition {
        entity,
        positioner: after.popup()->0.positioner(),
        token: before.popup()->0.next_reposition_token,
    }
}

/// Whether the requests reposition exactly the entities whose rows differ, each once, in any
/// order.
pub open spec fn repositions(
    requests: Seq<Request<Seq<char>>>,
    before: Map<u64, Row>,
    after: Map<u64, Row>,
) -> bool {
    exists|order: Seq<u64>| #[trigger] repositions_in_order(order, requests, before, after)
}

/// Whether the requests reposition the entities of the list, in its order, and these are exactly
/// the entities whose rows differ, each once.
pub open spec fn repositions_in_order(
    order: Seq<u64>,
    requests: Seq<Request<Seq<char>>>,
    before: Map<u64, Row>,
    after: Map<u64, Row>,
) -> bool {
    &&& order.no_duplicates()
    &&& forall|entity: u64| #[trigger]
        order.contains(entity) <==> before.dom().contains(entity) && before[entity]
            != after[entity]
    &&& requests.len() == order.len()
    &&& forall|i: int|
        0 <= i < order.len() ==> #[trigger] requests[i] == reposition_of(
            order[i],
            before[order[i]],
            after[order[i]],
        )
}

impl ServerModel {
    /// Whether popups of the entity can be re-anchored at all: the compositor can reposition
    /// popups, and the entity has all that an anchor is found from.
    pub open spec fn is_anchor(self, parent: u64) -> bool {
        &&& self.environment.xdg_wm_base_version >= 3
        &&& self.rows.dom().contains(parent)
        &&& self.rows[parent].data is Some
        &&& self.rows[parent].scale is Some
        &&& self.rows[parent].role is Some
    }

    /// Whether popups of the entity are anchored to `area`.
    pub open spec fn anchors_at<D, L, W>(
        self,
        parent: u64,
        area: Area,
        metrics: Metrics<D, L, W>,
    ) -> bool where
        D: Fn(i32, Scale) -> i32,
        L: Fn(u16, u16, Scale) -> Size,
        W: Fn(u64, i32) -> bool,
     {
        crate::role::anchors_popups(
            area,
            parent,
            self.rows[parent].toplevel(),
            self.rows[parent].data->0.attrs.dims,
            self.rows[parent].scale->0.scale,
            self.environment.titlebar_height,
            metrics,
        )
    }

    /// Whether `after` is the server once the popups of `parent` have been re-anchored to `area`.
    pub open spec fn children_refreshed<D, L, W>(
        self,
        after: ServerModel,
        parent: u64,
        area: Area,
        serial: Option<u32>,
        metrics: Metrics<D, L, W>,
    ) -> bool where
        D: Fn(i32, Scale) -> i32,
        L: Fn(u16, u16, Scale) -> Size,
        W: Fn(u64, i32) -> bool,
     {
        &&& after == ServerModel { rows: after.rows, ..self }
        &&& after.rows.dom() == self.rows.dom()
        &&& forall|entity: u64| #[trigger]
            self.rows.dom().contains(entity) ==> {
                if self.rows[entity].is_child(parent) {
                    self.rows[entity].child_refreshed(
                        after.rows[entity],
                        area,
                        self.rows[parent].data->0.attrs.dims,
                        self.rows[parent].scale->0.scale,
                        serial,
                        metrics,
                    )
                } else {
                    after.rows[entity] == self.rows[entity]
                }
            }
    }

    /// Whether `after` is the server once the popups of `parent` have been re-anchored, for which
    /// the requests are made.
    pub open spec fn refreshed<D, L, W>(
        self,
        after: ServerModel,
        requests: Seq<Request<Seq<char>>>,
        parent: u64,
        serial: Option<u32>,
        metrics: Metrics<D, L, W>,
    ) -> bool where
        D: Fn(i32, Scale) -> i32,
        L: Fn(u16, u16, Scale) -> Size,
        W: Fn(u64, i32) -> bool,
     {
        if self.is_anchor(parent) {
            &&& exists|area: Area|
                {
                    &&& #[trigger] self.anchors_at(parent, area, metrics)
                    &&& self.children_refreshed(after, parent, area, serial, metrics)
                }
            &&& repositions(requests, self.rows, after.rows)
        } else {
            after == self && requests == Seq::<Request<Seq<char>>>::empty()
        }
    }
}

impl InnerServerState {
    /// Re-anchors one popup, if it is one of `parent` and not already as it should be.
    fn refresh_child<D, L, W>(
        &mut self,
        entity: u64,
        parent: u64,
        anchor: Area,
        parent_dims: WindowDims,
        parent_scale: Scale,
        serial: Option<u32>,
        metrics: &Metrics<D, L, W>,
    ) -> (request: Option<Request>) where
        D: Fn(i32, Scale) -> i32,
        L: Fn(u16, u16, Scale) -> Size,
        W: Fn(u64, i32) -> bool,

        requires
            metrics.total(),
            old(self)@.rows.dom().contains(entity),
        ensures
            final(self)@ == (ServerModel {
                rows: old(self)@.rows.insert(entity, final(self)@.rows[entity]),
                ..old(self)@
            }),
            old(self)@.rows[entity].is_child(parent) ==> old(self)@.rows[entity].child_refreshed(
                final(self)@.rows[entity],
                anchor,
                parent_dims,
                parent_scale,
                serial,
                *metrics,
            ),
            !old(self)@.rows[entity].is_child(parent) ==> final(self)@.rows[entity]
                == old(self)@.rows[entity],
            request is Some == (final(self)@.rows[entity] != old(self)@.rows[entity]),
            request is Some ==> (request->0).deep_view() == reposition_of(
                entity,
                old(self)@.rows[entity],
                final(self)@.rows[entity],
            ),
    {
        let ghost row = self@.rows[entity];
        assert(self@.rows.insert(entity, row) =~= self@.rows);
        let mut popup: PopupData = match crate::world::get::<SurfaceRole>(&self.world, entity) {
            Some(SurfaceRole::Popup(Some(popup))) => popup,
            _ => return None,
        };
        if popup.parent != parent {
            return None;
        }
        let data: WindowData = match crate::world::get::<WindowData>(&self.world, entity) {
            Some(data) => data,
            None => return None,
        };
        let scale: Scale = match crate::world::get::<SurfaceScaleFactor>(&self.world, entity) {
            Some(factor) => factor.scale,
            None => return None,
        };
        let ghost before = popup@;
        let dims: WindowDims = data.attrs.dims;
        let size: Size = metrics.popup_size(dims, scale);
        assert(row.popup() == Some(before));
        assert(metrics.is_popup_size(row.data->0.attrs.dims, row.scale->0.scale, size));
        if popup.anchor_origin == anchor.origin && popup.anchor_size == anchor.size && popup.size
            == size && serial.is_none() {
            return None;
        }
        popup.anchor_origin = anchor.origin;
        popup.anchor_size = anchor.size;
        popup.size = size;
        popup.parent_size = Some(
            Size {
                width: anchor.size.width,
                height: anchor.size.height.wrapping_add(anchor.origin.y),
            },
        );
        popup.parent_configure = serial;
        popup.offset = metrics.point(
            dims.x as i32 - parent_dims.x as i32,
            dims.y as i32 - parent_dims.y as i32,
            parent_scale,
        );
        let offset: Point = popup.offset;
        assert(popup@ == before.reanchored(anchor, size, offset, serial));
        let request: Request = popup.reposition(entity);
        assert(popup@.pending_anchors.len() != before.pending_anchors.len());
        self.put(entity, SurfaceRole::Popup(Some(popup)));
        assert(metrics.is_point(
            (row.data->0.attrs.dims.x - parent_dims.x) as i32,
            (row.data->0.attrs.dims.y - parent_dims.y) as i32,
            parent_scale,
            offset,
        ));
        Some(request)
    }

    /// Re-anchors the popups of the given parent after its logical geometry may have changed
    /// (a configure, a resize by the X client, a scale change; going fullscreen removes the
    /// titlebar). `serial` is the parent's configure serial being responded to, if any, which the
    /// compositor may use, together with the parent's future window geometry, to constrain the
    /// repositioned popup. Where none is responded to, popups whose anchor and size are unchanged
    /// are left alone.
    pub fn refresh_child_popups<D, L, W>(
        &mut self,
        parent: u64,
        serial: Option<u32>,
        metrics: &Metrics<D, L, W>,
    ) -> (requests: Vec<Request>) where
        D: Fn(i32, Scale) -> i32,
        L: Fn(u16, u16, Scale) -> Size,
        W: Fn(u64, i32) -> bool,

        requires
            old(self)@.wf(),
            metrics.total(),
        ensures
            final(self)@.wf(),
            old(self)@.refreshed(
                final(self)@,
                requests.deep_view(),
                parent,
                serial,
                *metrics,
            ),
    {
        let mut requests: Vec<Request> = Vec::new();
        assert(requests.deep_view() =~= Seq::<Request<Seq<char>>>::empty());
        if self.environment.xdg_wm_base_version < 3 {
            return requests;
        }
        let dims: WindowDims = match crate::world::get::<WindowData>(&self.world, parent) {
            Some(data) => data.attrs.dims,
            None => return requests,
        };
        let scale: Scale = match crate::world::get::<SurfaceScaleFactor>(&self.world, parent) {
            Some(factor) => factor.scale,
            None => return requests,
        };
        let role: SurfaceRole = match crate::world::get::<SurfaceRole>(&self.world, parent) {
            Some(role) => role,
            None => return requests,
        };
        let area: Area = crate::role::popup_anchor(
            parent,
            &role,
            dims,
            scale,
            self.environment.titlebar_height,
            metrics,
        );
        let ghost pre = self@;
        assert(role@.active_toplevel() == role.active_toplevel());
        assert(pre.anchors_at(parent, area, *metrics));

        let entities: Vec<u64> = crate::world::entities_with::<SurfaceRole>(&self.world);
        let ghost mut order: Seq<u64> = Seq::empty();
        let mut i: usize = 0;
        while i < entities.len()
            invariant
                i <= entities.len(),
                metrics.total(),
                pre.wf(),
                pre.is_anchor(parent),
                dims == pre.rows[parent].data->0.attrs.dims,
                scale == pre.rows[parent].scale->0.scale,
                crate::world::lists_all::<SurfaceRole>(entities@, pre.rows),
                self@ == (ServerModel { rows: self@.rows, ..pre }),
                self@.rows.dom() == pre.rows.dom(),
                forall|entity: u64| #[trigger]
                    pre.rows.dom().contains(entity) ==> {
                        if pre.rows[entity].is_child(parent) && entities@.take(i as int).contains(
                            entity,
                        ) {
                            pre.rows[entity].child_refreshed(
                                self@.rows[entity],
                                area,
                                dims,
                                scale,
                                serial,
                                *metrics,
                            )
                        } else {
                            self@.rows[entity] == pre.rows[entity]
                        }
                    },
                repositions_in_order(order, requests.deep_view(), pre.rows, self@.rows),
            decreases entities.len() - i,
        {
            let entity: u64 = entities[i];
            let ghost mid = self@;
            let ghost sent = requests.deep_view();
            assert(entities@.contains(entity));
            proof {
                crate::lists::passing(entities@, i as int);
                crate::lists::pushing(order, entity);
            }
            assert(mid.rows[entity] == pre.rows[entity]);
            assert(!order.contains(entity));
            let request: Option<Request> = self.refresh_child(
                entity,
                parent,
                area,
                dims,
                scale,
                serial,
                metrics,
            );
            let ghost post = self@;
            assert(post.rows.dom() =~= pre.rows.dom());
            assert forall|other: u64| #[trigger] pre.rows.dom().contains(other) implies {
                if pre.rows[other].is_child(parent) && entities@.take(i + 1).contains(other) {
                    pre.rows[other].child_refreshed(
                        post.rows[other],
                        area,
                        dims,
                        scale,
                        serial,
                        *metrics,
                    )
                } else {
                    post.rows[other] == pre.rows[other]
                }
            } by {
                if other != entity {
                    assert(post.rows[other] == mid.rows[other]);
                }
            }
            match request {
                Some(request) => {
                    requests.push(request);
                    proof {
                        let extended = order.push(entity);
                        assert(requests.deep_view() =~= sent.push(request.deep_view()));
                        assert forall|j: int| 0 <= j < extended.len() implies #[trigger] requests.deep_view()[j]
                            == reposition_of(
                            extended[j],
                            pre.rows[extended[j]],
                            post.rows[extended[j]],
                        ) by {
                            if j < order.len() {
                                assert(order.contains(order[j]));
                                assert(requests.deep_view()[j] == sent[j]);
                            }
                        }
                        order = extended;
                    }
                },
                None => {
                    assert(post.rows =~= mid.rows);
                },
            }
            i += 1;
        }
        proof {
            assert(entities@.take(i as int) =~= entities@);
            assert(pre.children_refreshed(self@, parent, area, serial, *metrics)) by {
                assert forall|entity: u64| #[trigger] pre.rows.dom().contains(entity) implies {
                    if pre.rows[entity].is_child(parent) {
                        pre.rows[entity].child_refreshed(
                            self@.rows[entity],
                            area,
                            dims,
                            scale,
                            serial,
                            *metrics,
                        )
                    } else {
                        self@.rows[entity] == pre.rows[entity]
                    }
                } by {
                    if pre.rows[entity].is_child(parent) {
                        assert(crate::world::component::<SurfaceRole>(pre.rows, entity) is Some);
                        assert(entities@.contains(entity));
                    }
                }
            }
            pre.refresh_keeps_windows(self@, parent, area, serial, *metrics);
        }
        requests
    }
}

impl ServerModel {
    /// Re-anchoring popups keeps the server well-formed.
    proof fn refresh_keeps_windows<D, L, W>(
        self,
        after: ServerModel,
        parent: u64,
        area: Area,
        serial: Option<u32>,
        metrics: Metrics<D, L, W>,
    ) where
        D: Fn(i32, Scale) -> i32,
        L: Fn(u16, u16, Scale) -> Size,
        W: Fn(u64, i32) -> bool,

        requires
            self.wf(),
            self.children_refreshed(after, parent, area, serial, metrics),
        ensures
            after.wf(),
    {
        assert forall|id: u32| #[trigger]
            after.windows.dom().contains(id) implies crate::state::carries_window(
            after.rows,
            id,
            after.windows[id],
        ) by {
            assert(crate::state::carries_window(self.rows, id, self.windows[id]));
            assert(self.rows.dom().contains(self.windows[id]));
        }
        assert forall|entity: u64| #[trigger] after.rows.dom().contains(entity) implies after.rows[entity].others
            == 0 && after.rows[entity].decorated_once() by {
            assert(self.rows.dom().contains(entity));
        }
    }
}

/// Whether an entity comes before another, in the order of `hecs::Entity`: by its index, which is
/// in the lower half of its bits, and then by how often the index had been in use before it.
pub open spec fn precedes(one: u64, other: u64) -> bool {
    let span: u64 = 0x1_0000_0000;
    ||| one % span < other % span
    ||| one % span == other % span && one / span < other / span
}

/// Whether the list is in the entities' order, and nothing occurs twice in it.
pub open spec fn ascending(list: Seq<u64>) -> bool {
    forall|i: int, j: int| 0 <= i < j < list.len() ==> precedes(#[trigger] list[i], #[trigger] list[j])
}

/// Adds an entity to a list that is in order, unless the list has it already.
fn insert_in_order(list: &mut Vec<u64>, entity: u64)
    requires
        ascending(old(list)@),
    ensures
        ascending(final(list)@),
        forall|other: u64| #[trigger]
            final(list)@.contains(other) <==> old(list)@.contains(other) || other == entity,
{
    let span: u64 = 0x1_0000_0000;
    let mut i: usize = 0;
    while i < list.len()
        invariant
            i <= list.len(),
            span == 0x1_0000_0000,
            list@ == old(list)@,
            ascending(list@),
            forall|j: int| 0 <= j < i ==> precedes(#[trigger] list@[j], entity),
        ensures
            i < list.len() ==> precedes(entity, list@[i as int]),
        decreases list.len() - i,
    {
        let at: u64 = list[i];
        if at == entity {
            assert(list@.contains(entity));
            return;
        }
        if entity % span < at % span || (entity % span == at % span && entity / span < at / span) {
            break;
        }
        assert(precedes(at, entity));
        i += 1;
    }
    let ghost before = list@;
    assert(forall|j: int| i <= j < before.len() ==> precedes(entity, #[trigger] before[j]));
    list.insert(i, entity);
    assert forall|other: u64| #[trigger]
        list@.contains(other) <==> before.contains(other) || other == entity by {
        if before.contains(other) {
            let j = choose|j: int| 0 <= j < before.len() && before[j] == other;
            if j < i {
                assert(list@[j] == other);
            } else {
                assert(list@[j + 1] == other);
            }
        }
        if other == entity {
            assert(list@[i as int] == entity);
        }
        if list@.contains(other) {
            let j = choose|j: int| 0 <= j < list@.len() && list@[j] == other;
            if j < i {
                assert(before[j] == other);
            } else if j > i {
                assert(before[j - 1] == other);
            }
        }
    }
}

impl ServerModel {
    /// Whether the popups of `parent` are re-anchored on account of `entity`: either they are the
    /// same, or `entity` is itself a popup of `parent`, for a popup whose own geometry changed is
    /// refreshed through its parent.
    pub open spec fn refreshed_through(self, entity: u64, parent: u64) -> bool {
        ||| parent == entity
        ||| {
            &&& self.rows.dom().contains(entity)
            &&& self.rows[entity].popup() is Some
            &&& self.rows[entity].popup()->0.parent == parent
        }
    }

    /// Whether the list is that of the parents whose popups are re-anchored on account of the
    /// given entities, in order and without repetition.
    pub open spec fn lists_parents(self, list: Seq<u64>, entities: Seq<u64>) -> bool {
        &&& ascending(list)
        &&& forall|parent: u64| #[trigger]
            list.contains(parent) <==> exists|i: int|
                0 <= i < entities.len() && self.refreshed_through(#[trigger] entities[i], parent)
    }

    /// Whether `after` is the server once the popups of one more parent have been re-anchored, and
    /// the requests for it come after those that have been made.
    pub open spec fn next_refreshed<D, L, W>(
        self,
        after: ServerModel,
        sent: Seq<Request<Seq<char>>>,
        last: Seq<Request<Seq<char>>>,
        requests: Seq<Request<Seq<char>>>,
        parent: u64,
        metrics: Metrics<D, L, W>,
    ) -> bool where
        D: Fn(i32, Scale) -> i32,
        L: Fn(u16, u16, Scale) -> Size,
        W: Fn(u64, i32) -> bool,
     {
        &&& self.refreshed(after, last, parent, None, metrics)
        &&& requests == sent + last
    }

    /// Whether `after` is the server once the popups of all the parents have been re-anchored,
    /// one parent after the other, for which the requests are made.
    pub open spec fn all_refreshed<D, L, W>(
        self,
        after: ServerModel,
        requests: Seq<Request<Seq<char>>>,
        parents: Seq<u64>,
        metrics: Metrics<D, L, W>,
    ) -> bool where
        D: Fn(i32, Scale) -> i32,
        L: Fn(u16, u16, Scale) -> Size,
        W: Fn(u64, i32) -> bool,

        decreases parents.len(),
    {
        if parents.len() == 0 {
            after == self && requests == Seq::<Request<Seq<char>>>::empty()
        } else {
            exists|mid: ServerModel, sent: Seq<Request<Seq<char>>>, last: Seq<Request<Seq<char>>>|
                {
                    &&& self.all_refreshed(mid, sent, parents.drop_last(), metrics)
                    &&& #[trigger] mid.next_refreshed(
                        after,
                        sent,
                        last,
                        requests,
                        parents.last(),
                        metrics,
                    )
                }
        }
    }

    /// Whether `after` is the server once all popups have been re-anchored that are due for it,
    /// for which the requests are made.
    pub open spec fn pending_refreshed<D, L, W>(
        self,
        after: ServerModel,
        requests: Seq<Request<Seq<char>>>,
        metrics: Metrics<D, L, W>,
    ) -> bool where
        D: Fn(i32, Scale) -> i32,
        L: Fn(u16, u16, Scale) -> Size,
        W: Fn(u64, i32) -> bool,
     {
        exists|parents: Seq<u64>|
            {
                &&& #[trigger] self.lists_parents(parents, self.pending_popup_refresh)
                &&& ServerModel {
                    pending_popup_refresh: Seq::empty(),
                    ..self
                }.all_refreshed(after, requests, parents, metrics)
            }
    }
}

impl InnerServerState {
    /// Re-anchors the popups of all entities whose logical geometry changed.
    pub fn refresh_pending_popups<D, L, W>(&mut self, metrics: &Metrics<D, L, W>) -> (requests: Vec<
        Request,
    >) where
        D: Fn(i32, Scale) -> i32,
        L: Fn(u16, u16, Scale) -> Size,
        W: Fn(u64, i32) -> bool,

        requires
            old(self)@.wf(),
            metrics.total(),
        ensures
            final(self)@.wf(),
            old(self)@.pending_refreshed(final(self)@, requests.deep_view(), *metrics),
    {
        let ghost pre = self@;
        let mut pending: Vec<u64> = Vec::new();
        std::mem::swap(&mut pending, &mut self.pending_popup_refresh);
        let ghost start = self@;
        assert(start.pending_popup_refresh =~= Seq::<u64>::empty());
        let mut parents: Vec<u64> = Vec::new();
        let mut i: usize = 0;
        while i < pending.len()
            invariant
                i <= pending.len(),
                self@ == start,
                start.rows == pre.rows,
                pre.lists_parents(parents@, pending@.take(i as int)),
            decreases pending.len() - i,
        {
            let entity: u64 = pending[i];
            let ghost before = parents@;
            match crate::world::get::<SurfaceRole>(&self.world, entity) {
                Some(SurfaceRole::Popup(Some(popup))) => {
                    insert_in_order(&mut parents, popup.parent);
                },
                _ => {},
            }
            insert_in_order(&mut parents, entity);
            proof {
                let seen = pending@.take(i as int);
                let now = pending@.take(i + 1);
                assert(now =~= seen.push(entity));
                assert forall|parent: u64| #[trigger]
                    parents@.contains(parent) <==> exists|j: int|
                        0 <= j < now.len() && pre.refreshed_through(#[trigger] now[j], parent) by {
                    if before.contains(parent) {
                        let j = choose|j: int|
                            0 <= j < seen.len() && pre.refreshed_through(
                                #[trigger] seen[j],
                                parent,
                            );
                        assert(now[j] == seen[j]);
                    }
                    if pre.refreshed_through(entity, parent) {
                        assert(now[i as int] == entity);
                    }
                    if exists|j: int|
                        0 <= j < now.len() && pre.refreshed_through(#[trigger] now[j], parent) {
                        let j = choose|j: int|
                            0 <= j < now.len() && pre.refreshed_through(
                                #[trigger] now[j],
                                parent,
                            );
                        if j < i {
                            assert(seen[j] == now[j]);
                        }
                    }
                }
            }
            i += 1;
        }
        assert(pending@.take(i as int) =~= pre.pending_popup_refresh);
        let mut requests: Vec<Request> = Vec::new();
        let mut k: usize = 0;
        assert(requests.deep_view() =~= Seq::<Request<Seq<char>>>::empty());
        assert(parents@.take(0) =~= Seq::<u64>::empty());
        while k < parents.len()
            invariant
                k <= parents.len(),
                self@.wf(),
                metrics.total(),
                start.all_refreshed(
                    self@,
                    requests.deep_view(),
                    parents@.take(k as int),
                    *metrics,
                ),
            decreases parents.len() - k,
        {
            let ghost mid = self@;
            let ghost sent = requests.deep_view();
            let parent: u64 = parents[k];
            let mut last: Vec<Request> = self.refresh_child_popups(parent, None, metrics);
            let ghost last_view = last.deep_view();
            requests.append(&mut last);
            proof {
                assert(requests.deep_view() =~= sent + last_view);
                let now = parents@.take(k + 1);
                assert(now.drop_last() =~= parents@.take(k as int));
                assert(now.last() == parent);
                assert(mid.next_refreshed(
                    self@,
                    sent,
                    last_view,
                    requests.deep_view(),
                    now.last(),
                    *metrics,
                ));
            }
            k += 1;
        }
        assert(parents@.take(k as int) =~= parents@);
        requests
    }
}

} // verus!
