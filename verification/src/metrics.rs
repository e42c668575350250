//! How X11 geometry becomes the logical geometry of surfaces.
use crate::geometry::{Point, Scale, Size, WindowDims};
use vstd::prelude::*;

verus! {

/// The conversions between X11 and logical geometry, by a scale factor. They are given to the
/// server, which does no arithmetic on scale factors itself.
///
/// `divide` divides an X11 length by a scale factor and rounds it to a logical one.
/// `logical_size` gives the logical size of an X11 window. `draws_titlebar` says whether the
/// titlebar that the server provides for a toplevel is drawn when the toplevel has the given
/// logical width.
pub struct Metrics<D, L, W> {
    pub divide: D,
    pub logical_size: L,
    pub draws_titlebar: W,
}

impl<D, L, W> Metrics<D, L, W> where
    D: Fn(i32, Scale) -> i32,
    L: Fn(u16, u16, Scale) -> Size,
    W: Fn(u64, i32) -> bool,
 {
    /// Whether all of the conversions can be made of all values.
    pub open spec fn total(self) -> bool {
        &&& forall|length: i32, scale: Scale| call_requires(self.divide, (length, scale))
        &&& forall|width: u16, height: u16, scale: Scale|
            call_requires(self.logical_size, (width, height, scale))
        &&& forall|toplevel: u64, width: i32|
            call_requires(self.draws_titlebar, (toplevel, width))
    }

    /// Whether lengths are always divided with the same result, and sizes and titlebars are
    /// always the same too.
    pub open spec fn deterministic(self) -> bool {
        &&& forall|length: i32, scale: Scale, one: i32, other: i32|
            call_ensures(self.divide, (length, scale), one) && call_ensures(
                self.divide,
                (length, scale),
                other,
            ) ==> one == other
        &&& forall|width: u16, height: u16, scale: Scale, one: Size, other: Size|
            call_ensures(self.logical_size, (width, height, scale), one) && call_ensures(
                self.logical_size,
                (width, height, scale),
                other,
            ) ==> one == other
        &&& forall|toplevel: u64, width: i32, one: bool, other: bool|
            call_ensures(self.draws_titlebar, (toplevel, width), one) && call_ensures(
                self.draws_titlebar,
                (toplevel, width),
                other,
            ) ==> one == other
    }

    /// Whether `point` is the logical position of an X11 position.
    pub open spec fn is_point(self, x: i32, y: i32, scale: Scale, point: Point) -> bool {
        &&& call_ensures(self.divide, (x, scale), point.x)
        &&& call_ensures(self.divide, (y, scale), point.y)
    }

    /// Whether `size` is the logical size of a popup of the given X11 dimensions, which is at
    /// least one by one.
    pub open spec fn is_popup_size(self, dims: WindowDims, scale: Scale, size: Size) -> bool {
        exists|width: i32, height: i32|
            {
                &&& #[trigger] call_ensures(self.divide, (dims.width as i32, scale), width)
                &&& #[trigger] call_ensures(self.divide, (dims.height as i32, scale), height)
                &&& size == Size {
                    width: crate::geometry::at_least_one(width),
                    height: crate::geometry::at_least_one(height),
                }
            }
    }

    /// The logical position of an X11 position.
    pub(crate) fn point(&self, x: i32, y: i32, scale: Scale) -> (point: Point)
        requires
            self.total(),
        ensures
            self.is_point(x, y, scale, point),
    {
        Point { x: (self.divide)(x, scale), y: (self.divide)(y, scale) }
    }

    /// The logical size of a popup.
    pub(crate) fn popup_size(&self, dims: WindowDims, scale: Scale) -> (size: Size)
        requires
            self.total(),
        ensures
            self.is_popup_size(dims, scale, size),
    {
        let width: i32 = (self.divide)(dims.width as i32, scale);
        let height: i32 = (self.divide)(dims.height as i32, scale);
        Size {
            width: crate::geometry::clamp_extent(width),
            height: crate::geometry::clamp_extent(height),
        }
    }

    /// No popup is narrower or lower than one.
    pub proof fn popups_have_an_extent(self, dims: WindowDims, scale: Scale, size: Size)
        requires
            self.is_popup_size(dims, scale, size),
        ensures
            size.width >= 1,
            size.height >= 1,
    {
    }
}

} // verus!
