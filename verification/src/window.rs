//! What is known of an X11 window.
use crate::connection::{XConnection, XRequest};
use crate::geometry::{PendingSurfaceState, Size, Window, WindowDims, WindowOutputOffset};
use vstd::prelude::*;

verus! {

/// What a window is for.
#[derive(Clone, Copy, Debug, PartialEq, Eq, Structural)]
pub enum WindowRole {
    Normal,
    Popup,
    Splash,
}

impl WindowRole {
    pub open spec fn spec_is_popup(self) -> bool {
        self == WindowRole::Popup
    }

    /// The role of a window of which no more is known than whether the window manager is to
    /// leave it alone.
    pub fn new_basic(override_redirect: bool) -> (role: WindowRole)
        ensures
            role == (if override_redirect {
                WindowRole::Popup
            } else {
                WindowRole::Normal
            }),
    {
        if override_redirect {
            WindowRole::Popup
        } else {
            WindowRole::Normal
        }
    }

    #[verifier::when_used_as_spec(spec_is_popup)]
    pub fn is_popup(self) -> (popup: bool)
        ensures
            popup == self.is_popup(),
    {
        self == WindowRole::Popup
    }
}

/// A window's name, by the property that it was given in.
#[derive(Clone, Debug, PartialEq, Eq)]
pub enum WmName<T = String> {
    WmName(T),
    NetWmName(T),
}

impl View for WmName {
    type V = WmName<Seq<char>>;

    open spec fn view(&self) -> WmName<Seq<char>> {
        match self {
            WmName::WmName(name) => WmName::WmName(name@),
            WmName::NetWmName(name) => WmName::NetWmName(name@),
        }
    }
}

impl DeepView for WmName {
    type V = WmName<Seq<char>>;

    open spec fn deep_view(&self) -> WmName<Seq<char>> {
        self@
    }
}

impl<T> WmName<T> {
    pub open spec fn text(self) -> T {
        match self {
            WmName::WmName(name) => name,
            WmName::NetWmName(name) => name,
        }
    }

    /// The name itself.
    pub fn name(&self) -> (name: &T)
        ensures
            *name == self.text(),
    {
        match self {
            WmName::WmName(name) => name,
            WmName::NetWmName(name) => name,
        }
    }

    /// Whether a window of this title keeps it when it is given another one: a `_NET_WM_NAME`
    /// is not replaced by a `WM_NAME`.
    pub open spec fn outranks(self, name: WmName<T>) -> bool {
        self is NetWmName && name is WmName
    }
}

/// Who draws a window's decorations.
#[derive(Clone, Copy, Debug, PartialEq, Eq, Structural)]
pub enum Decorations {
    Client,
    Server,
}

impl Decorations {
    pub open spec fn spec_is_serverside(self) -> bool {
        self == Decorations::Server
    }

    #[verifier::when_used_as_spec(spec_is_serverside)]
    pub fn is_serverside(self) -> (server: bool)
        ensures
            server == self.is_serverside(),
    {
        self == Decorations::Server
    }
}

/// A window's wishes on its size.
#[derive(Clone, Copy, Debug, PartialEq, Eq, Structural)]
pub struct WmNormalHints {
    pub min_size: Option<Size>,
    pub max_size: Option<Size>,
}

/// A window's hints to the window manager.
#[derive(Clone, Copy, Debug, PartialEq, Eq, Structural)]
pub struct WmHints {
    pub window_group: Option<Window>,
    pub acquire_input_via_wm: bool,
}

/// A change of a state that is on or off.
#[derive(Clone, Copy, Debug, PartialEq, Eq, Structural)]
pub enum SetState {
    Remove,
    Add,
    Toggle,
}

/// What a client asks to be done with the pointer or the keyboard to its window.
#[derive(Clone, Copy, Debug, PartialEq, Eq, Structural)]
pub enum MoveResizeDirection {
    SizeTopLeft,
    SizeTop,
    SizeTopRight,
    SizeRight,
    SizeBottomRight,
    SizeBottom,
    SizeBottomLeft,
    SizeLeft,
    Move,
    SizeKeyboard,
    MoveKeyboard,
    Cancel,
}

/// The properties of a window.
#[derive(Clone, Debug, PartialEq, Eq)]
pub struct WindowAttributes<T = String> {
    pub acquire_input_via_wm: bool,
    pub has_take_focus: bool,
    pub role: WindowRole,
    pub dims: WindowDims,
    pub size_hints: Option<WmNormalHints>,
    pub title: Option<WmName<T>>,
    pub class: Option<T>,
    pub group: Option<Window>,
    pub decorations: Option<Decorations>,
    pub transient_for: Option<Window>,
}

impl View for WindowAttributes {
    type V = WindowAttributes<Seq<char>>;

    open spec fn view(&self) -> WindowAttributes<Seq<char>> {
        WindowAttributes {
            acquire_input_via_wm: self.acquire_input_via_wm,
            has_take_focus: self.has_take_focus,
            role: self.role,
            dims: self.dims,
            size_hints: self.size_hints,
            title: self.title.deep_view(),
            class: self.class.deep_view(),
            group: self.group,
            decorations: self.decorations,
            transient_for: self.transient_for,
        }
    }
}

impl WindowAttributes {
    /// The title itself, if the window has one.
    pub fn title_name(&self) -> (title: Option<String>)
        ensures
            title.deep_view() == self@.title_text(),
    {
        match &self.title {
            Some(title) => Some(title.name().clone()),
            None => None,
        }
    }
}

impl<T> WindowAttributes<T> {
    pub open spec fn title_text(self) -> Option<T> {
        match self.title {
            Some(title) => Some(title.text()),
            None => None,
        }
    }

    /// Whether the window only gets input when the window manager focuses it, the "passive"
    /// input model.
    pub fn require_wm_focus(&self) -> (required: bool)
        ensures
            required == (self.acquire_input_via_wm && !self.has_take_focus),
    {
        self.acquire_input_via_wm && !self.has_take_focus
    }
}

/// A window and its state.
#[derive(Clone, Debug, PartialEq, Eq)]
pub struct WindowData<T = String> {
    pub mapped: bool,
    pub attrs: WindowAttributes<T>,
    pub output_offset: WindowOutputOffset,
    pub activation_token: Option<T>,
}

impl View for WindowData {
    type V = WindowData<Seq<char>>;

    open spec fn view(&self) -> WindowData<Seq<char>> {
        WindowData {
            mapped: self.mapped,
            attrs: self.attrs@,
            output_offset: self.output_offset,
            activation_token: self.activation_token.deep_view(),
        }
    }
}

impl<T> WindowData<T> {
    /// A window that has just been created.
    pub open spec fn fresh(
        override_redirect: bool,
        dims: WindowDims,
        activation_token: Option<T>,
    ) -> WindowData<T> {
        WindowData {
            mapped: false,
            attrs: WindowAttributes {
                acquire_input_via_wm: false,
                has_take_focus: false,
                role: if override_redirect {
                    WindowRole::Popup
                } else {
                    WindowRole::Normal
                },
                dims,
                size_hints: None,
                title: None,
                class: None,
                group: None,
                decorations: None,
                transient_for: None,
            },
            output_offset: WindowOutputOffset { x: 0, y: 0 },
            activation_token,
        }
    }

    /// The window with other dimensions.
    pub open spec fn with_dims(self, dims: WindowDims) -> WindowData<T> {
        WindowData { attrs: WindowAttributes { dims, ..self.attrs }, ..self }
    }

    /// The window with another offset: it moves by the distance between the two.
    pub open spec fn with_offset(self, offset: WindowOutputOffset) -> WindowData<T> {
        WindowData {
            output_offset: offset,
            ..self.with_dims(
                WindowDims {
                    x: crate::geometry::moved(
                        self.attrs.dims.x,
                        offset.x - self.output_offset.x,
                    ) as i16,
                    y: crate::geometry::moved(
                        self.attrs.dims.y,
                        offset.y - self.output_offset.y,
                    ) as i16,
                    ..self.attrs.dims
                },
            )
        }
    }

    /// The dimensions that the window is asked to take.
    pub open spec fn wanted_dims(self) -> PendingSurfaceState {
        PendingSurfaceState {
            x: self.attrs.dims.x as i32,
            y: self.attrs.dims.y as i32,
            width: self.attrs.dims.width as i32,
            height: self.attrs.dims.height as i32,
        }
    }

    pub fn new(
        override_redirect: bool,
        dims: WindowDims,
        activation_token: Option<T>,
    ) -> (data: WindowData<T>)
        ensures
            data == WindowData::fresh(override_redirect, dims, activation_token),
    {
        WindowData {
            mapped: false,
            attrs: WindowAttributes {
                acquire_input_via_wm: false,
                has_take_focus: false,
                role: WindowRole::new_basic(override_redirect),
                dims,
                size_hints: None,
                title: None,
                class: None,
                group: None,
                decorations: None,
                transient_for: None,
            },
            output_offset: WindowOutputOffset { x: 0, y: 0 },
            activation_token,
        }
    }

    /// Moves the window by the distance from its present offset to the given one, and has the
    /// connection move it too.
    pub fn update_output_offset<C: XConnection>(
        &mut self,
        window: Window,
        offset: WindowOutputOffset,
        connection: &mut C,
    )
        ensures
            *final(self) == old(self).with_offset(offset),
            offset == old(self).output_offset ==> final(connection).asked() == old(
                connection,
            ).asked(),
            offset != old(self).output_offset ==> final(connection).asked() == old(
                connection,
            ).asked().push(XRequest::Dims { window, dims: final(self).wanted_dims() }),
    {
        if offset == self.output_offset {
            return;
        }
        let from: WindowOutputOffset = self.output_offset;
        let x: i16 = crate::geometry::moved_between(self.attrs.dims.x, from.x, offset.x);
        let y: i16 = crate::geometry::moved_between(self.attrs.dims.y, from.y, offset.y);
        self.attrs.dims.x = x;
        self.attrs.dims.y = y;
        self.output_offset = offset;
        let _set: bool = connection.set_window_dims(
            window,
            PendingSurfaceState {
                x: x as i32,
                y: y as i32,
                width: self.attrs.dims.width as i32,
                height: self.attrs.dims.height as i32,
            },
        );
    }

    /// A window that is moved to another offset and back again is where it was.
    pub proof fn offset_and_back(self, offset: WindowOutputOffset)
        ensures
            self.with_offset(offset).with_offset(self.output_offset) == self,
    {
    }

    /// Two changes of the offset move a window as far as the one change to the last offset.
    pub proof fn offsets_compose(self, first: WindowOutputOffset, second: WindowOutputOffset)
        ensures
            self.with_offset(first).with_offset(second) == self.with_offset(second),
    {
    }
}

} // verus!
