//! The connection to the X server, and what stands in its place before there is one.
use crate::geometry::{PendingSurfaceState, Window};
use std::marker::PhantomData;
use vstd::prelude::*;

verus! {

/// Something that an X connection is asked to do.
pub enum XRequest {
    Focus { window: Window, output_name: Option<Seq<char>> },
    Close { window: Window },
    Unmap { window: Window },
    Raise { window: Window },
    Fullscreen { window: Window, fullscreen: bool },
    Dims { window: Window, dims: PendingSurfaceState },
}

/// A connection to an X server, through which windows are managed.
pub trait XConnection: Sized {
    /// The kind of selection that is exchanged with X11 clients over this connection.
    type X11Selection;

    /// All that the connection has been asked to do, the latest request last. Only contracts
    /// speak of it; nothing is kept at run time.
    closed spec fn asked(&self) -> Seq<XRequest> {
        Seq::empty()
    }

    /// Gives the input focus to the window, which is on the output of the given name.
    fn focus_window(&mut self, window: Window, output_name: Option<String>)
        ensures
            final(self).asked() == old(self).asked().push(
                XRequest::Focus { window, output_name: output_name.deep_view() },
            ),
    ;

    /// Asks the window's client to close it.
    fn close_window(&mut self, window: Window)
        ensures
            final(self).asked() == old(self).asked().push(XRequest::Close { window }),
    ;

    /// Unmaps the window.
    fn unmap_window(&mut self, window: Window)
        ensures
            final(self).asked() == old(self).asked().push(XRequest::Unmap { window }),
    ;

    /// Puts the window above all others.
    fn raise_to_top(&mut self, window: Window)
        ensures
            final(self).asked() == old(self).asked().push(XRequest::Raise { window }),
    ;

    /// Tells the window that it is fullscreen, or no longer so.
    fn set_fullscreen(&mut self, window: Window, fullscreen: bool)
        ensures
            final(self).asked() == old(self).asked().push(
                XRequest::Fullscreen { window, fullscreen },
            ),
    ;

    /// Moves and resizes the window, and says whether that was possible.
    fn set_window_dims(&mut self, window: Window, dims: PendingSurfaceState) -> (set: bool)
        ensures
            final(self).asked() == old(self).asked().push(XRequest::Dims { window, dims }),
    ;
}

/// The state of the X11 connection before it has been fully initialized. Whatever it is asked to
/// do, it gracefully does nothing.
pub struct NoConnection<S> {
    _p: PhantomData<S>,
    asked: Ghost<Seq<XRequest>>,
}

impl<S> NoConnection<S> {
    /// A connection that has not been asked for anything yet.
    pub fn new() -> (connection: NoConnection<S>)
        ensures
            connection.asked() == Seq::<XRequest>::empty(),
    {
        NoConnection { _p: PhantomData, asked: Ghost(Seq::empty()) }
    }
}

impl<S> XConnection for NoConnection<S> {
    type X11Selection = S;

    closed spec fn asked(&self) -> Seq<XRequest> {
        self.asked@
    }

    fn focus_window(&mut self, window: Window, output_name: Option<String>) {
        proof {
            self.asked@ = self.asked@.push(
                XRequest::Focus { window, output_name: output_name.deep_view() },
            );
        }
    }

    fn close_window(&mut self, window: Window) {
        proof {
            self.asked@ = self.asked@.push(XRequest::Close { window });
        }
    }

    fn unmap_window(&mut self, window: Window) {
        proof {
            self.asked@ = self.asked@.push(XRequest::Unmap { window });
        }
    }

    fn raise_to_top(&mut self, window: Window) {
        proof {
            self.asked@ = self.asked@.push(XRequest::Raise { window });
        }
    }

    fn set_fullscreen(&mut self, window: Window, fullscreen: bool) {
        proof {
            self.asked@ = self.asked@.push(XRequest::Fullscreen { window, fullscreen });
        }
    }

    fn set_window_dims(&mut self, window: Window, dims: PendingSurfaceState) -> (set: bool)
        ensures
            !set,
    {
        proof {
            self.asked@ = self.asked@.push(XRequest::Dims { window, dims });
        }
        false
    }
}

} // verus!
