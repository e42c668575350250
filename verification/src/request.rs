//! What the server asks of the compositor on behalf of its windows.
use crate::geometry::{Point, Scale, Size, Window};
use crate::window::{Decorations, MoveResizeDirection, WmNormalHints};
use vstd::prelude::*;

verus! {

/// A corner of a rectangle.
#[derive(Clone, Copy, Debug, PartialEq, Eq, Structural)]
pub enum Corner {
    TopLeft,
    BottomRight,
}

/// The edge or corner by which a toplevel is resized.
#[derive(Clone, Copy, Debug, PartialEq, Eq, Structural)]
pub enum ResizeEdge {
    TopLeft,
    Top,
    TopRight,
    Right,
    BottomRight,
    Bottom,
    BottomLeft,
    Left,
}

impl MoveResizeDirection {
    /// The edge that is dragged, if the direction is one in which a window is resized with the
    /// pointer.
    pub open spec fn dragged_edge(self) -> Option<ResizeEdge> {
        match self {
            MoveResizeDirection::SizeTopLeft => Some(ResizeEdge::TopLeft),
            MoveResizeDirection::SizeTop => Some(ResizeEdge::Top),
            MoveResizeDirection::SizeTopRight => Some(ResizeEdge::TopRight),
            MoveResizeDirection::SizeRight => Some(ResizeEdge::Right),
            MoveResizeDirection::SizeBottomRight => Some(ResizeEdge::BottomRight),
            MoveResizeDirection::SizeBottom => Some(ResizeEdge::Bottom),
            MoveResizeDirection::SizeBottomLeft => Some(ResizeEdge::BottomLeft),
            MoveResizeDirection::SizeLeft => Some(ResizeEdge::Left),
            MoveResizeDirection::Move => None,
            MoveResizeDirection::SizeKeyboard => None,
            MoveResizeDirection::MoveKeyboard => None,
            MoveResizeDirection::Cancel => None,
        }
    }

    /// The edge that is dragged, if any.
    #[verifier::when_used_as_spec(dragged_edge)]
    pub fn edge(self) -> (edge: Option<ResizeEdge>)
        ensures
            edge == self.dragged_edge(),
    {
        match self {
            MoveResizeDirection::SizeTopLeft => Some(ResizeEdge::TopLeft),
            MoveResizeDirection::SizeTop => Some(ResizeEdge::Top),
            MoveResizeDirection::SizeTopRight => Some(ResizeEdge::TopRight),
            MoveResizeDirection::SizeRight => Some(ResizeEdge::Right),
            MoveResizeDirection::SizeBottomRight => Some(ResizeEdge::BottomRight),
            MoveResizeDirection::SizeBottom => Some(ResizeEdge::Bottom),
            MoveResizeDirection::SizeBottomLeft => Some(ResizeEdge::BottomLeft),
            MoveResizeDirection::SizeLeft => Some(ResizeEdge::Left),
            MoveResizeDirection::Move => None,
            MoveResizeDirection::SizeKeyboard => None,
            MoveResizeDirection::MoveKeyboard => None,
            MoveResizeDirection::Cancel => None,
        }
    }
}

/// How far a compositor may go to keep a popup on screen.
#[derive(Clone, Copy, Debug, PartialEq, Eq, Structural)]
pub struct ConstraintAdjustment {
    pub slide_x: bool,
    pub slide_y: bool,
}

/// Everything that a positioner is told of a popup.
#[derive(Clone, Copy, Debug, PartialEq, Eq, Structural)]
pub struct Positioner {
    pub size: Size,
    pub offset: Point,
    pub anchor: Corner,
    pub gravity: Corner,
    pub anchor_origin: Point,
    pub anchor_size: Size,
    pub constraint_adjustment: ConstraintAdjustment,
    pub parent_size: Option<Size>,
    pub parent_configure: Option<u32>,
}

/// A click on a window: the seat, by its number, and the click's serial.
#[derive(Clone, Copy, Debug, PartialEq, Eq, Structural)]
pub struct LastClickSerial {
    pub seat: u32,
    pub serial: u32,
}

/// A request to the compositor. `entity` is the surface that it is made for.
#[derive(Clone, Debug, PartialEq, Eq)]
pub enum Request<T = String> {
    /// Attach no buffer to the surface.
    AttachNothing { entity: u64 },
    /// Commit the surface.
    Commit { entity: u64 },
    /// Create the xdg surface.
    CreateXdgSurface { entity: u64 },
    /// Make the xdg surface a toplevel.
    CreateToplevel { entity: u64 },
    /// Make the xdg surface a popup of `parent`, placed by a positioner set up as given.
    CreatePopup { entity: u64, parent: u64, positioner: Positioner },
    /// Reposition the popup with a new positioner set up as given, which then takes the place of
    /// the popup's present one.
    Reposition { entity: u64, positioner: Positioner, token: u32 },
    SetMinSize { entity: u64, width: i32, height: i32 },
    SetMaxSize { entity: u64, width: i32, height: i32 },
    SetAppId { entity: u64, app_id: T },
    SetTitle { entity: u64, title: T },
    /// Draw the title in the titlebar that the server itself provides.
    DrawTitle { entity: u64, title: T },
    SetFullscreen { entity: u64 },
    UnsetFullscreen { entity: u64 },
    SetParent { entity: u64, parent: u64 },
    Move { entity: u64, click: LastClickSerial },
    Resize { entity: u64, click: LastClickSerial, edge: ResizeEdge },
    /// Create the compositor's decoration object for the toplevel.
    CreateDecoration { entity: u64 },
    SetDecorationMode { entity: u64, mode: Decorations },
    /// Provide decorations for the toplevel, if that is possible.
    CreateSatelliteDecoration { entity: u64, initial_title: Option<T> },
    /// Activate the surface with the token.
    Activate { entity: u64, activation_token: T },
    /// Ask for a token to activate `window` with, on behalf of the surface.
    RequestActivationToken {
        entity: u64,
        window: Window,
        for_app: Option<T>,
        seat_and_serial: Option<LastClickSerial>,
    },
    /// Tell the toplevel's size hints, given in X11 coordinates.
    UpdateSizeHints { entity: u64, hints: WmNormalHints, scale: Scale },
    /// Fit the surface's viewport to its window.
    UpdateViewport { entity: u64 },
    DestroyDecoration { entity: u64 },
    DestroyToplevel { entity: u64 },
    DestroyPositioner { entity: u64 },
    DestroyPopup { entity: u64 },
    DestroyXdgSurface { entity: u64 },
}

impl DeepView for Request {
    type V = Request<Seq<char>>;

    open spec fn deep_view(&self) -> Request<Seq<char>> {
        match *self {
            Request::AttachNothing { entity } => Request::AttachNothing { entity },
            Request::Commit { entity } => Request::Commit { entity },
            Request::CreateXdgSurface { entity } => Request::CreateXdgSurface { entity },
            Request::CreateToplevel { entity } => Request::CreateToplevel { entity },
            Request::CreatePopup { entity, parent, positioner } => Request::CreatePopup {
                entity,
                parent,
                positioner,
            },
            Request::Reposition { entity, positioner, token } => Request::Reposition {
                entity,
                positioner,
                token,
            },
            Request::SetMinSize { entity, width, height } => Request::SetMinSize {
                entity,
                width,
                height,
            },
            Request::SetMaxSize { entity, width, height } => Request::SetMaxSize {
                entity,
                width,
                height,
            },
            Request::SetAppId { entity, app_id } => Request::SetAppId { entity, app_id: app_id@ },
            Request::SetTitle { entity, title } => Request::SetTitle { entity, title: title@ },
            Request::DrawTitle { entity, title } => Request::DrawTitle { entity, title: title@ },
            Request::SetFullscreen { entity } => Request::SetFullscreen { entity },
            Request::UnsetFullscreen { entity } => Request::UnsetFullscreen { entity },
            Request::SetParent { entity, parent } => Request::SetParent { entity, parent },
            Request::Move { entity, click } => Request::Move { entity, click },
            Request::Resize { entity, click, edge } => Request::Resize { entity, click, edge },
            Request::CreateDecoration { entity } => Request::CreateDecoration { entity },
            Request::SetDecorationMode { entity, mode } => Request::SetDecorationMode {
                entity,
                mode,
            },
            Request::CreateSatelliteDecoration { entity, initial_title } => {
                Request::CreateSatelliteDecoration { entity, initial_title: initial_title.deep_view() }
            },
            Request::Activate { entity, activation_token } => Request::Activate {
                entity,
                activation_token: activation_token@,
            },
            Request::RequestActivationToken { entity, window, for_app, seat_and_serial } => {
                Request::RequestActivationToken {
                    entity,
                    window,
                    for_app: for_app.deep_view(),
                    seat_and_serial,
                }
            },
            Request::UpdateSizeHints { entity, hints, scale } => Request::UpdateSizeHints {
                entity,
                hints,
                scale,
            },
            Request::UpdateViewport { entity } => Request::UpdateViewport { entity },
            Request::DestroyDecoration { entity } => Request::DestroyDecoration { entity },
            Request::DestroyToplevel { entity } => Request::DestroyToplevel { entity },
            Request::DestroyPositioner { entity } => Request::DestroyPositioner { entity },
            Request::DestroyPopup { entity } => Request::DestroyPopup { entity },
            Request::DestroyXdgSurface { entity } => Request::DestroyXdgSurface { entity },
        }
    }
}

/// Adds a request to those that are made.
pub(crate) fn ask(requests: &mut Vec<Request>, request: Request)
    ensures
        final(requests).deep_view() == old(requests).deep_view().push(request.deep_view()),
{
    let ghost before = requests.deep_view();
    requests.push(request);
    assert(requests.deep_view() =~= before.push(request.deep_view()));
}

/// No requests.
pub(crate) fn nothing() -> (requests: Vec<Request>)
    ensures
        requests.deep_view() == Seq::<Request<Seq<char>>>::empty(),
{
    let requests: Vec<Request> = Vec::new();
    assert(requests.deep_view() =~= Seq::<Request<Seq<char>>>::empty());
    requests
}

/// One request and no other.
pub(crate) fn only(request: Request) -> (requests: Vec<Request>)
    ensures
        requests.deep_view() == seq![request.deep_view()],
{
    let mut requests: Vec<Request> = nothing();
    ask(&mut requests, request);
    requests
}

} // verus!
