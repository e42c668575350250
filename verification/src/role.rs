//! The roles that surfaces play for the compositor: toplevels and popups.
use crate::geometry::{Area, PendingSurfaceState, Point, Scale, Size, WindowDims};
use crate::metrics::Metrics;
use crate::request::{ConstraintAdjustment, Corner, Positioner, Request};
use vstd::prelude::*;

verus! {

/// The state of an xdg surface.
#[derive(Clone, Copy, Debug, PartialEq, Eq, Structural)]
pub struct XdgSurfaceData {
    pub configured: bool,
    pub pending: Option<PendingSurfaceState>,
}

impl XdgSurfaceData {
    /// An xdg surface that has just been created.
    pub open spec fn fresh() -> XdgSurfaceData {
        XdgSurfaceData { configured: false, pending: None }
    }

    pub fn new() -> (data: XdgSurfaceData)
        ensures
            data == XdgSurfaceData::fresh(),
    {
        XdgSurfaceData { configured: false, pending: None }
    }
}

/// Which decorations a toplevel has: the compositor's decoration object, and those that the
/// server itself provides.
#[derive(Clone, Copy, Debug, PartialEq, Eq, Structural)]
pub struct DecorationsData {
    pub wl: bool,
    pub satellite: bool,
}

/// A toplevel.
#[derive(Clone, Copy, Debug, PartialEq, Eq, Structural)]
pub struct ToplevelData {
    pub xdg: XdgSurfaceData,
    pub fullscreen: bool,
    pub decoration: DecorationsData,
}

/// A reposition not yet answered: its token and the anchor origin it was made with.
#[derive(Clone, Copy, Debug, PartialEq, Eq, Structural)]
pub struct PendingAnchor {
    pub token: u32,
    pub origin: Point,
}

/// A popup. `P` holds the repositions not yet answered, the latest last.
#[derive(Clone, Debug, PartialEq, Eq)]
pub struct PopupData<P = Vec<PendingAnchor>> {
    pub xdg: XdgSurfaceData,
    pub parent: u64,
    /// The popup's logical size.
    pub size: Size,
    /// The popup's offset from the anchor, in the parent's logical coordinates.
    pub offset: Point,
    /// Origin of the positioner's anchor rect within the parent's window geometry, i.e. where
    /// the parent's X window content starts. This is non-zero when the server draws the parent's
    /// titlebar, which is part of the parent's window geometry but not of its X window.
    pub anchor_origin: Point,
    /// Size of the positioner's anchor rect, i.e. the parent's X window content size.
    pub anchor_size: Size,
    /// The parent's future window geometry (content plus titlebar) to constrain against, and
    /// the parent's configure serial a reposition responds to, if any.
    pub parent_size: Option<Size>,
    pub parent_configure: Option<u32>,
    /// The anchor origin the next configure was positioned with. Repositions are answered
    /// asynchronously, so this lags `anchor_origin` until the matching answer.
    pub configure_anchor: Point,
    pub pending_anchors: P,
    pub next_reposition_token: u32,
}

impl View for PopupData {
    type V = PopupData<Seq<PendingAnchor>>;

    open spec fn view(&self) -> PopupData<Seq<PendingAnchor>> {
        self.with_pending(self.pending_anchors@)
    }
}

impl<P> PopupData<P> {
    /// The same popup with the given unanswered repositions.
    pub open spec fn with_pending<Q>(self, pending_anchors: Q) -> PopupData<Q> {
        PopupData {
            xdg: self.xdg,
            parent: self.parent,
            size: self.size,
            offset: self.offset,
            anchor_origin: self.anchor_origin,
            anchor_size: self.anchor_size,
            parent_size: self.parent_size,
            parent_configure: self.parent_configure,
            configure_anchor: self.configure_anchor,
            pending_anchors,
            next_reposition_token: self.next_reposition_token,
        }
    }

    /// What a positioner is told of the popup.
    pub open spec fn positioner(self) -> Positioner {
        positioner_for(
            self.size,
            self.offset,
            Area { origin: self.anchor_origin, size: self.anchor_size },
            self.parent_size,
            self.parent_configure,
        )
    }

    /// The request that repositions the popup as it is now.
    pub open spec fn reposition_request<T>(self, entity: u64) -> Request<T> {
        Request::Reposition {
            entity,
            positioner: self.positioner(),
            token: self.next_reposition_token,
        }
    }
}

impl PopupData<Seq<PendingAnchor>> {
    /// The popup after the request that repositions it: the answer is awaited.
    pub open spec fn awaiting(self) -> PopupData<Seq<PendingAnchor>> {
        PopupData {
            next_reposition_token: self.next_reposition_token.wrapping_add(1),
            pending_anchors: self.pending_anchors.push(
                PendingAnchor { token: self.next_reposition_token, origin: self.anchor_origin },
            ),
            ..self
        }
    }

    /// Whether a reposition with the token has not been answered yet.
    pub open spec fn awaits(self, token: u32) -> bool {
        exists|i: int|
            0 <= i < self.pending_anchors.len() && (#[trigger] self.pending_anchors[i]).token == token
    }

    /// Whether the oldest unanswered reposition with the token is the one at `index`.
    pub open spec fn awaits_at(self, token: u32, index: int) -> bool {
        &&& 0 <= index < self.pending_anchors.len()
        &&& self.pending_anchors[index].token == token
        &&& forall|i: int| 0 <= i < index ==> (#[trigger] self.pending_anchors[i]).token != token
    }

    /// The popup after the answer to the reposition at `index`: that one and all older ones are
    /// no longer awaited.
    pub open spec fn answered(self, index: int) -> PopupData<Seq<PendingAnchor>> {
        PopupData {
            configure_anchor: self.pending_anchors[index].origin,
            pending_anchors: self.pending_anchors.skip(index + 1),
            ..self
        }
    }

    /// When the compositor answers the latest reposition, the next configure is positioned with
    /// the anchor of that reposition and nothing is awaited any longer, unless the token was
    /// still in use.
    pub proof fn latest_answer(self)
        requires
            !self.awaits(self.next_reposition_token),
        ensures
            self.awaiting().awaits_at(
                self.next_reposition_token,
                self.pending_anchors.len() as int,
            ),
            self.awaiting().answered(self.pending_anchors.len() as int).configure_anchor
                == self.anchor_origin,
            self.awaiting().answered(self.pending_anchors.len() as int).pending_anchors
                == Seq::<PendingAnchor>::empty(),
    {
    }

    /// Two repositions in a row have different tokens.
    pub proof fn tokens_differ(self)
        ensures
            self.awaiting().next_reposition_token != self.next_reposition_token,
    {
    }

    /// What is awaited after an answer was already awaited before it, in the same order; of
    /// several repositions the answers to the earlier ones may be skipped.
    pub proof fn answer_keeps_later(self, token: u32, index: int)
        requires
            self.awaits_at(token, index),
        ensures
            forall|i: int|
                index < i < self.pending_anchors.len() ==> self.answered(index).pending_anchors[i
                    - index - 1] == #[trigger] self.pending_anchors[i],
            self.answered(index).pending_anchors.len() == self.pending_anchors.len() - index - 1,
    {
    }
}

/// What a positioner is told of a popup of the given logical size at `offset` from the anchor,
/// which is the parent's X content area within its window geometry.
pub open spec fn positioner_for(
    size: Size,
    offset: Point,
    anchor: Area,
    parent_size: Option<Size>,
    parent_configure: Option<u32>,
) -> Positioner {
    Positioner {
        size,
        offset,
        anchor: Corner::TopLeft,
        gravity: Corner::BottomRight,
        anchor_origin: anchor.origin,
        anchor_size: anchor.size,
        constraint_adjustment: ConstraintAdjustment { slide_x: true, slide_y: true },
        parent_size,
        parent_configure,
    }
}

/// Sets a positioner up for a popup of the given logical size at `offset` from the anchor, which
/// is the parent's X content area within its window geometry.
pub fn set_up_positioner(
    size: Size,
    offset: Point,
    anchor: Area,
    parent_size: Option<Size>,
    parent_configure: Option<u32>,
) -> (positioner: Positioner)
    ensures
        positioner == positioner_for(size, offset, anchor, parent_size, parent_configure),
{
    Positioner {
        size,
        offset,
        anchor: Corner::TopLeft,
        gravity: Corner::BottomRight,
        anchor_origin: anchor.origin,
        anchor_size: anchor.size,
        constraint_adjustment: ConstraintAdjustment { slide_x: true, slide_y: true },
        parent_size,
        parent_configure,
    }
}

impl PopupData {
    /// Sets a positioner up from the popup's current state.
    pub fn configure_positioner(&self) -> (positioner: Positioner)
        ensures
            positioner == self@.positioner(),
    {
        set_up_positioner(
            self.size,
            self.offset,
            Area { origin: self.anchor_origin, size: self.anchor_size },
            self.parent_size,
            self.parent_configure,
        )
    }

    /// Repositions with a positioner built from the current state, remembering which anchor
    /// origin the answer is to be converted with.
    pub fn reposition(&mut self, entity: u64) -> (request: Request)
        ensures
            request.deep_view() == old(self)@.reposition_request::<Seq<char>>(entity),
            final(self)@ == old(self)@.awaiting(),
    {
        let positioner: Positioner = self.configure_positioner();
        let token: u32 = self.next_reposition_token;
        self.next_reposition_token = self.next_reposition_token.wrapping_add(1);
        self.pending_anchors.push(PendingAnchor { token, origin: self.anchor_origin });
        Request::Reposition { entity, positioner, token }
    }

    /// The compositor answered the reposition with this token (earlier ones may have been
    /// skipped); the following configure is positioned with that request's anchor.
    pub fn repositioned(&mut self, token: u32)
        ensures
            !old(self)@.awaits(token) ==> final(self)@ == old(self)@,
            old(self)@.awaits(token) ==> exists|index: int| #[trigger]
                old(self)@.awaits_at(token, index) && final(self)@ == old(self)@.answered(index),
    {
        let mut index: usize = 0;
        while index < self.pending_anchors.len()
            invariant
                index <= self.pending_anchors.len(),
                *self == *old(self),
                forall|i: int|
                    0 <= i < index ==> (#[trigger] self@.pending_anchors[i]).token != token,
            decreases self.pending_anchors.len() - index,
        {
            if self.pending_anchors[index].token == token {
                assert(self@.pending_anchors[index as int].token == token);
                self.configure_anchor = self.pending_anchors[index].origin;
                let rest: Vec<PendingAnchor> = self.pending_anchors.split_off(index + 1);
                self.pending_anchors = rest;
                assert(self.pending_anchors@ =~= old(self).pending_anchors@.skip(index + 1));
                assert(old(self)@.awaits_at(token, index as int));
                return;
            }
            index += 1;
        }
    }
}

/// What a surface is for the compositor. A surface whose role has been taken down keeps its kind,
/// without data.
#[derive(Clone, Debug, PartialEq, Eq)]
pub enum SurfaceRole<P = Vec<PendingAnchor>> {
    Toplevel(Option<ToplevelData>),
    Popup(Option<PopupData<P>>),
}

impl View for SurfaceRole {
    type V = SurfaceRole<Seq<PendingAnchor>>;

    open spec fn view(&self) -> SurfaceRole<Seq<PendingAnchor>> {
        match self {
            SurfaceRole::Toplevel(toplevel) => SurfaceRole::Toplevel(*toplevel),
            SurfaceRole::Popup(Some(popup)) => SurfaceRole::Popup(Some(popup@)),
            SurfaceRole::Popup(None) => SurfaceRole::Popup(None),
        }
    }
}

impl<P> SurfaceRole<P> {
    /// The toplevel, where the surface is an active one.
    pub open spec fn active_toplevel(self) -> Option<ToplevelData> {
        match self {
            SurfaceRole::Toplevel(toplevel) => toplevel,
            SurfaceRole::Popup(_) => None,
        }
    }

    /// The popup, where the surface is an active one.
    pub open spec fn active_popup(self) -> Option<PopupData<P>> {
        match self {
            SurfaceRole::Popup(popup) => popup,
            SurfaceRole::Toplevel(_) => None,
        }
    }

    /// Whether at most one of the compositor and the server decorates the surface.
    pub open spec fn decorated_once(self) -> bool {
        match self {
            SurfaceRole::Toplevel(Some(toplevel)) => !(toplevel.decoration.wl
                && toplevel.decoration.satellite),
            _ => true,
        }
    }

    /// The xdg surface's state, where there is one.
    pub open spec fn xdg_data(self) -> Option<XdgSurfaceData> {
        match self {
            SurfaceRole::Toplevel(Some(toplevel)) => Some(toplevel.xdg),
            SurfaceRole::Popup(Some(popup)) => Some(popup.xdg),
            _ => None,
        }
    }

    /// The same role with another state of its xdg surface.
    pub open spec fn with_xdg(self, xdg: XdgSurfaceData) -> SurfaceRole<P> {
        match self {
            SurfaceRole::Toplevel(Some(toplevel)) => SurfaceRole::Toplevel(
                Some(ToplevelData { xdg, ..toplevel }),
            ),
            SurfaceRole::Popup(Some(popup)) => SurfaceRole::Popup(Some(PopupData { xdg, ..popup })),
            _ => self,
        }
    }

    /// What is asked of the compositor to take the role down.
    pub open spec fn teardown<T>(self, entity: u64) -> Seq<Request<T>> {
        match self {
            SurfaceRole::Toplevel(Some(toplevel)) => {
                let decoration = if toplevel.decoration.wl {
                    seq![Request::DestroyDecoration { entity }]
                } else {
                    seq![]
                };
                decoration + seq![
                    Request::DestroyToplevel { entity },
                    Request::DestroyXdgSurface { entity },
                ]
            },
            SurfaceRole::Popup(Some(popup)) => seq![
                Request::DestroyPositioner { entity },
                Request::DestroyPopup { entity },
                Request::DestroyXdgSurface { entity },
            ],
            _ => seq![],
        }
    }

    /// The role once it has been taken down: the compositor's decoration is gone.
    pub open spec fn torn_down(self) -> SurfaceRole<P> {
        match self {
            SurfaceRole::Toplevel(Some(toplevel)) => SurfaceRole::Toplevel(
                Some(
                    ToplevelData {
                        decoration: DecorationsData { wl: false, ..toplevel.decoration },
                        ..toplevel
                    },
                ),
            ),
            _ => self,
        }
    }

    /// The state of the xdg surface, where there is one.
    pub fn xdg(&self) -> (xdg: Option<&XdgSurfaceData>)
        ensures
            xdg is Some == self.xdg_data() is Some,
            xdg is Some ==> *xdg->0 == self.xdg_data()->0,
    {
        match self {
            SurfaceRole::Toplevel(Some(toplevel)) => Some(&toplevel.xdg),
            SurfaceRole::Popup(Some(popup)) => Some(&popup.xdg),
            _ => None,
        }
    }

    /// The state of the xdg surface, where there is one, to be changed.
    pub fn xdg_mut(&mut self) -> (xdg: Option<&mut XdgSurfaceData>)
        ensures
            xdg is Some == old(self).xdg_data() is Some,
            xdg is Some ==> *xdg->0 == old(self).xdg_data()->0 && *final(self) == old(
                self,
            ).with_xdg(*final(xdg->0)),
            xdg is None ==> *final(self) == *old(self),
    {
        match self {
            SurfaceRole::Toplevel(Some(toplevel)) => Some(&mut toplevel.xdg),
            SurfaceRole::Popup(Some(popup)) => Some(&mut popup.xdg),
            _ => None,
        }
    }

    /// Takes the role down: what belongs to it is destroyed.
    pub fn destroy(&mut self, entity: u64) -> (requests: Vec<Request>)
        ensures
            requests.deep_view() == old(self).teardown::<Seq<char>>(entity),
            *final(self) == old(self).torn_down(),
    {
        let mut requests: Vec<Request> = Vec::new();
        match self {
            SurfaceRole::Toplevel(Some(toplevel)) => {
                if toplevel.decoration.wl {
                    toplevel.decoration.wl = false;
                    requests.push(Request::DestroyDecoration { entity });
                }
                requests.push(Request::DestroyToplevel { entity });
                requests.push(Request::DestroyXdgSurface { entity });
            },
            SurfaceRole::Popup(Some(_)) => {
                requests.push(Request::DestroyPositioner { entity });
                requests.push(Request::DestroyPopup { entity });
                requests.push(Request::DestroyXdgSurface { entity });
            },
            _ => {},
        }
        requests
    }
}

/// Whether `area` is where popups of a parent are anchored, in the parent's surface coordinates:
/// the parent's logical size, below the titlebar if the parent is a toplevel for which the server
/// draws one.
pub open spec fn anchors_popups<D, L, W>(
    area: Area,
    parent: u64,
    toplevel: Option<ToplevelData>,
    dims: WindowDims,
    scale: Scale,
    titlebar_height: i32,
    metrics: Metrics<D, L, W>,
) -> bool where
    D: Fn(i32, Scale) -> i32,
    L: Fn(u16, u16, Scale) -> Size,
    W: Fn(u64, i32) -> bool,
 {
    &&& call_ensures(metrics.logical_size, (dims.width, dims.height, scale), area.size)
    &&& if toplevel is Some && toplevel->0.decoration.satellite {
        exists|drawn: bool|
            #![trigger call_ensures(metrics.draws_titlebar, (parent, area.size.width), drawn)]
            {
                &&& call_ensures(metrics.draws_titlebar, (parent, area.size.width), drawn)
                &&& area.origin == Point {
                    x: 0,
                    y: if drawn {
                        titlebar_height
                    } else {
                        0
                    },
                }
            }
    } else {
        area.origin == Point { x: 0, y: 0 }
    }
}

/// Returns the origin and size of the area popups of the given parent are anchored to, in the
/// parent's surface coordinates. Popups are positioned relative to the parent's window geometry,
/// which includes the titlebar the server draws above the X window, so the anchor is the X
/// window's area below it.
pub fn popup_anchor<P, D, L, W>(
    parent: u64,
    role: &SurfaceRole<P>,
    dims: WindowDims,
    scale: Scale,
    titlebar_height: i32,
    metrics: &Metrics<D, L, W>,
) -> (area: Area) where
    D: Fn(i32, Scale) -> i32,
    L: Fn(u16, u16, Scale) -> Size,
    W: Fn(u64, i32) -> bool,

    requires
        metrics.total(),
    ensures
        anchors_popups(area, parent, role.active_toplevel(), dims, scale, titlebar_height, *metrics),
{
    let size: Size = (metrics.logical_size)(dims.width, dims.height, scale);
    let satellite: bool = match role {
        SurfaceRole::Toplevel(Some(toplevel)) => toplevel.decoration.satellite,
        _ => false,
    };
    let drawn: bool = satellite && (metrics.draws_titlebar)(parent, size.width);
    let y: i32 = if drawn {
        titlebar_height
    } else {
        0
    };
    Area { origin: Point { x: 0, y }, size }
}

} // verus!
