//! The generic rectangle: a capability interface for rectangle-like types,
//! a concrete rectangle over any copyable coordinate type, field-by-field
//! conversion between coordinate domains, and axis-aligned intersection.

use vstd::prelude::*;
use crate::basic_types::{int_repr, LabyrinthError};
use crate::convert::{convert, representable, ConvertFrom, IntCoord};

verus! {

/// Capability interface for rectangle-like types: four accessors and a
/// constructor from an `(x, y, width, height)` tuple.
pub trait IsARectangle<T: Copy>: Sized {
    /// The x coordinate of the top-left corner.
    spec fn spec_x(&self) -> T;

    /// The y coordinate of the top-left corner.
    spec fn spec_y(&self) -> T;

    /// The horizontal extent.
    spec fn spec_width(&self) -> T;

    /// The vertical extent.
    spec fn spec_height(&self) -> T;

    fn from_tuple(tuple: (T, T, T, T)) -> (r: Self)
        ensures
            r.spec_x() == tuple.0,
            r.spec_y() == tuple.1,
            r.spec_width() == tuple.2,
            r.spec_height() == tuple.3,
    ;

    fn x(&self) -> (r: T)
        ensures
            r == self.spec_x(),
    ;

    fn y(&self) -> (r: T)
        ensures
            r == self.spec_y(),
    ;

    fn width(&self) -> (r: T)
        ensures
            r == self.spec_width(),
    ;

    fn height(&self) -> (r: T)
        ensures
            r == self.spec_height(),
    ;
}

/// An axis-aligned rectangle: top-left corner plus non-negative extents.
#[derive(Debug, Copy, Clone, PartialEq, Eq, Structural)]
pub struct GeneralRectangle<T: Copy> {
    pub x: T,
    pub y: T,
    pub width: T,
    pub height: T,
}

/// The rectangle type of the pixel coordinate space.
pub type Rectangle = GeneralRectangle<u32>;

impl<T: Copy> IsARectangle<T> for GeneralRectangle<T> {
    open spec fn spec_x(&self) -> T {
        self.x
    }

    open spec fn spec_y(&self) -> T {
        self.y
    }

    open spec fn spec_width(&self) -> T {
        self.width
    }

    open spec fn spec_height(&self) -> T {
        self.height
    }

    fn from_tuple(tuple: (T, T, T, T)) -> (r: GeneralRectangle<T>) {
        GeneralRectangle { x: tuple.0, y: tuple.1, width: tuple.2, height: tuple.3 }
    }

    fn x(&self) -> (r: T) {
        self.x
    }

    fn y(&self) -> (r: T) {
        self.y
    }

    fn width(&self) -> (r: T) {
        self.width
    }

    fn height(&self) -> (r: T) {
        self.height
    }
}

impl<T: Copy> IsARectangle<T> for (T, T, T, T) {
    open spec fn spec_x(&self) -> T {
        self.0
    }

    open spec fn spec_y(&self) -> T {
        self.1
    }

    open spec fn spec_width(&self) -> T {
        self.2
    }

    open spec fn spec_height(&self) -> T {
        self.3
    }

    fn from_tuple(tuple: (T, T, T, T)) -> (r: (T, T, T, T)) {
        tuple
    }

    fn x(&self) -> (r: T) {
        self.0
    }

    fn y(&self) -> (r: T) {
        self.1
    }

    fn width(&self) -> (r: T) {
        self.2
    }

    fn height(&self) -> (r: T) {
        self.3
    }
}

/// The larger of two values.
pub fn partial_max(a: u32, b: u32) -> (r: u32)
    ensures
        r == (if b > a {
            b
        } else {
            a
        }),
{
    if b > a {
        b
    } else {
        a
    }
}

/// The smaller of two values.
pub fn partial_min(a: u32, b: u32) -> (r: u32)
    ensures
        r == (if b < a {
            b
        } else {
            a
        }),
{
    if b < a {
        b
    } else {
        a
    }
}

/// Among the four components of a rectangle, the first one whose value is
/// not representable in `S`, in `x, y, width, height` order.  Meaningful
/// only when at least one component is not representable.
pub open spec fn spec_first_unconvertible<S: IntCoord, T: IntCoord>(x: T, y: T, w: T, h: T) -> T {
    if !representable::<S, T>(x) {
        x
    } else if !representable::<S, T>(y) {
        y
    } else if !representable::<S, T>(w) {
        w
    } else {
        h
    }
}

impl<U: IntCoord> GeneralRectangle<U> {
    /// Converts a foreign rectangle representation into this coordinate
    /// domain, field by field; fails with the first field whose value does
    /// not fit.
    pub fn from<T: IntCoord, R: IsARectangle<T>>(rectangle: &R) -> (r: Result<
        GeneralRectangle<U>,
        LabyrinthError,
    >) where U: ConvertFrom<T>
        ensures
            r is Ok <==> (representable::<U, T>(rectangle.spec_x()) && representable::<U, T>(
                rectangle.spec_y(),
            ) && representable::<U, T>(rectangle.spec_width()) && representable::<U, T>(
                rectangle.spec_height(),
            )),
            r is Ok ==> r->Ok_0 == (GeneralRectangle {
                x: U::converted(rectangle.spec_x()),
                y: U::converted(rectangle.spec_y()),
                width: U::converted(rectangle.spec_width()),
                height: U::converted(rectangle.spec_height()),
            }),
            r is Err ==> (r->Err_0 matches LabyrinthError::ConversionError { value }
                && value@ == int_repr(
                spec_first_unconvertible::<U, T>(
                    rectangle.spec_x(),
                    rectangle.spec_y(),
                    rectangle.spec_width(),
                    rectangle.spec_height(),
                ).as_math(),
            )),
    {
        let x = match convert::<T, U>(rectangle.x()) {
            Ok(v) => v,
            Err(e) => return Err(e),
        };
        let y = match convert::<T, U>(rectangle.y()) {
            Ok(v) => v,
            Err(e) => return Err(e),
        };
        let width = match convert::<T, U>(rectangle.width()) {
            Ok(v) => v,
            Err(e) => return Err(e),
        };
        let height = match convert::<T, U>(rectangle.height()) {
            Ok(v) => v,
            Err(e) => return Err(e),
        };
        Ok(GeneralRectangle { x, y, width, height })
    }

    /// Projects this rectangle into any rectangle-capable representation
    /// over the coordinate type `T`, field by field; fails with the first
    /// field whose value does not fit.
    pub fn to<T: IntCoord, R: IsARectangle<T>>(&self) -> (r: Result<
        R,
        LabyrinthError,
    >) where T: ConvertFrom<U>
        ensures
            r is Ok <==> (representable::<T, U>(self.x) && representable::<T, U>(self.y)
                && representable::<T, U>(self.width) && representable::<T, U>(self.height)),
            r is Ok ==> (r->Ok_0.spec_x() == T::converted(self.x) && r->Ok_0.spec_y()
                == T::converted(self.y) && r->Ok_0.spec_width() == T::converted(self.width)
                && r->Ok_0.spec_height() == T::converted(self.height)),
            r is Err ==> (r->Err_0 matches LabyrinthError::ConversionError { value }
                && value@ == int_repr(
                spec_first_unconvertible::<T, U>(
                    self.x,
                    self.y,
                    self.width,
                    self.height,
                ).as_math(),
            )),
    {
        let x = match convert::<U, T>(self.x) {
            Ok(v) => v,
            Err(e) => return Err(e),
        };
        let y = match convert::<U, T>(self.y) {
            Ok(v) => v,
            Err(e) => return Err(e),
        };
        let width = match convert::<U, T>(self.width) {
            Ok(v) => v,
            Err(e) => return Err(e),
        };
        let height = match convert::<U, T>(self.height) {
            Ok(v) => v,
            Err(e) => return Err(e),
        };
        Ok(R::from_tuple((x, y, width, height)))
    }
}

impl<U: IntCoord> GeneralRectangle<U> {
    /// Best-effort conversion from a foreign rectangle representation.
    /// Over integer coordinates it coincides with `from`; sources with
    /// floating-point extents are handled by the unverified rendering
    /// layer.
    pub fn approx_from<T: IntCoord, R: IsARectangle<T>>(rectangle: &R) -> (r: Result<
        GeneralRectangle<U>,
        LabyrinthError,
    >) where U: ConvertFrom<T>
        ensures
            r is Ok <==> (representable::<U, T>(rectangle.spec_x()) && representable::<U, T>(
                rectangle.spec_y(),
            ) && representable::<U, T>(rectangle.spec_width()) && representable::<U, T>(
                rectangle.spec_height(),
            )),
            r is Ok ==> r->Ok_0 == (GeneralRectangle {
                x: U::converted(rectangle.spec_x()),
                y: U::converted(rectangle.spec_y()),
                width: U::converted(rectangle.spec_width()),
                height: U::converted(rectangle.spec_height()),
            }),
            r is Err ==> (r->Err_0 matches LabyrinthError::ConversionError { value }
                && value@ == int_repr(
                spec_first_unconvertible::<U, T>(
                    rectangle.spec_x(),
                    rectangle.spec_y(),
                    rectangle.spec_width(),
                    rectangle.spec_height(),
                ).as_math(),
            )),
    {
        GeneralRectangle::<U>::from::<T, R>(rectangle)
    }

    /// Best-effort projection into a rectangle-capable representation.
    /// Over integer coordinates it coincides with `to`; targets with
    /// floating-point extents are handled by the unverified rendering
    /// layer.
    pub fn approx_to<T: IntCoord, R: IsARectangle<T>>(&self) -> (r: Result<
        R,
        LabyrinthError,
    >) where T: ConvertFrom<U>
        ensures
            r is Ok <==> (representable::<T, U>(self.x) && representable::<T, U>(self.y)
                && representable::<T, U>(self.width) && representable::<T, U>(self.height)),
            r is Ok ==> (r->Ok_0.spec_x() == T::converted(self.x) && r->Ok_0.spec_y()
                == T::converted(self.y) && r->Ok_0.spec_width() == T::converted(self.width)
                && r->Ok_0.spec_height() == T::converted(self.height)),
            r is Err ==> (r->Err_0 matches LabyrinthError::ConversionError { value }
                && value@ == int_repr(
                spec_first_unconvertible::<T, U>(
                    self.x,
                    self.y,
                    self.width,
                    self.height,
                ).as_math(),
            )),
    {
        self.to::<T, R>()
    }
}

/// The x coordinate one past the right edge, as a mathematical integer.
pub open spec fn spec_right(r: GeneralRectangle<u32>) -> int {
    r.x + r.width
}

/// The y coordinate one past the bottom edge, as a mathematical integer.
pub open spec fn spec_bottom(r: GeneralRectangle<u32>) -> int {
    r.y + r.height
}

/// Whether two rectangles overlap; rectangles that only touch at an edge
/// count as overlapping (the boundary-inclusive policy).
pub open spec fn spec_overlaps(a: GeneralRectangle<u32>, b: GeneralRectangle<u32>) -> bool {
    spec_right(b) >= a.x && b.x <= spec_right(a) && spec_bottom(b) >= a.y && b.y <= spec_bottom(a)
}

/// The axis-aligned intersection of two rectangles: the rectangle spanned
/// by the componentwise maxima of the top-left corners and minima of the
/// bottom-right corners, or nothing when the two do not overlap.
pub open spec fn spec_intersect(a: GeneralRectangle<u32>, b: GeneralRectangle<u32>) -> Option<
    GeneralRectangle<u32>,
> {
    if spec_overlaps(a, b) {
        Some(
            GeneralRectangle {
                x: (if b.x > a.x {
                    b.x
                } else {
                    a.x
                }),
                y: (if b.y > a.y {
                    b.y
                } else {
                    a.y
                }),
                width: ((if spec_right(b) < spec_right(a) {
                    spec_right(b)
                } else {
                    spec_right(a)
                }) - (if b.x > a.x {
                    b.x
                } else {
                    a.x
                })) as u32,
                height: ((if spec_bottom(b) < spec_bottom(a) {
                    spec_bottom(b)
                } else {
                    spec_bottom(a)
                }) - (if b.y > a.y {
                    b.y
                } else {
                    a.y
                })) as u32,
            },
        )
    } else {
        None
    }
}

impl GeneralRectangle<u32> {
    /// Whether the rectangle's bottom-right corner stays within the
    /// coordinate type, so that the corner accessors cannot overflow.
    pub open spec fn wf(&self) -> bool {
        spec_right(*self) <= u32::MAX && spec_bottom(*self) <= u32::MAX
    }

    /// Whether this rectangle and `other` overlap, edges included.
    pub fn inside_bounds(&self, other: &GeneralRectangle<u32>) -> (r: bool)
        ensures
            r == spec_overlaps(*self, *other),
    {
        let self_right: u64 = self.x as u64 + self.width as u64;
        let self_bottom: u64 = self.y as u64 + self.height as u64;
        let other_right: u64 = other.x as u64 + other.width as u64;
        let other_bottom: u64 = other.y as u64 + other.height as u64;
        other_right >= self.x as u64 && (other.x as u64) <= self_right && other_bottom
            >= self.y as u64 && (other.y as u64) <= self_bottom
    }

    /// Computes the axis-aligned intersection, or `None` when the two
    /// rectangles do not overlap.  Rectangles that only touch yield a
    /// zero-extent rectangle, not `None`.  The arithmetic runs in a wider
    /// accumulator, so no pair of rectangles overflows.
    pub fn intersect(&self, other: &GeneralRectangle<u32>) -> (r: Option<GeneralRectangle<u32>>)
        ensures
            r == spec_intersect(*self, *other),
    {
        if self.inside_bounds(other) {
            let top_left_x = partial_max(self.x, other.x);
            let top_left_y = partial_max(self.y, other.y);
            let self_right: u64 = self.x as u64 + self.width as u64;
            let self_bottom: u64 = self.y as u64 + self.height as u64;
            let other_right: u64 = other.x as u64 + other.width as u64;
            let other_bottom: u64 = other.y as u64 + other.height as u64;
            let bottom_right_x: u64 = if other_right < self_right {
                other_right
            } else {
                self_right
            };
            let bottom_right_y: u64 = if other_bottom < self_bottom {
                other_bottom
            } else {
                self_bottom
            };
            Some(
                GeneralRectangle {
                    x: top_left_x,
                    y: top_left_y,
                    width: (bottom_right_x - top_left_x as u64) as u32,
                    height: (bottom_right_y - top_left_y as u64) as u32,
                },
            )
        } else {
            None
        }
    }
}

/// Law: rectangle intersection is commutative.
pub proof fn lemma_intersect_commutative(a: GeneralRectangle<u32>, b: GeneralRectangle<u32>)
    ensures
        spec_intersect(a, b) == spec_intersect(b, a),
{
}

/// Derived corner accessors for rectangle-like types.  `area_wf` says when
/// the corner arithmetic stays within the coordinate type.
pub trait IsARectangularArea<T: Copy> {
    /// When the corner accessors are callable.
    spec fn area_wf(&self) -> bool;

    spec fn spec_top_left_x(&self) -> T;

    spec fn spec_top_left_y(&self) -> T;

    spec fn spec_bottom_right_x(&self) -> T;

    spec fn spec_bottom_right_y(&self) -> T;

    fn top_left_x(&self) -> (r: T)
        requires
            self.area_wf(),
        ensures
            r == self.spec_top_left_x(),
    ;

    fn top_left_y(&self) -> (r: T)
        requires
            self.area_wf(),
        ensures
            r == self.spec_top_left_y(),
    ;

    fn bottom_right_x(&self) -> (r: T)
        requires
            self.area_wf(),
        ensures
            r == self.spec_bottom_right_x(),
    ;

    fn bottom_right_y(&self) -> (r: T)
        requires
            self.area_wf(),
        ensures
            r == self.spec_bottom_right_y(),
    ;
}

impl IsARectangularArea<u32> for GeneralRectangle<u32> {
    open spec fn area_wf(&self) -> bool {
        self.wf()
    }

    open spec fn spec_top_left_x(&self) -> u32 {
        self.x
    }

    open spec fn spec_top_left_y(&self) -> u32 {
        self.y
    }

    open spec fn spec_bottom_right_x(&self) -> u32 {
        (self.x + self.width) as u32
    }

    open spec fn spec_bottom_right_y(&self) -> u32 {
        (self.y + self.height) as u32
    }

    fn top_left_x(&self) -> (r: u32) {
        self.x
    }

    fn top_left_y(&self) -> (r: u32) {
        self.y
    }

    fn bottom_right_x(&self) -> (r: u32) {
        self.x + self.width
    }

    fn bottom_right_y(&self) -> (r: u32) {
        self.y + self.height
    }
}

/// A rectangle written as its two corners.
#[derive(Debug, Copy, Clone, PartialEq, Eq, Structural)]
pub struct GeneralRectangularArea<T: Copy> {
    pub top_left_x: T,
    pub top_left_y: T,
    pub bottom_right_x: T,
    pub bottom_right_y: T,
}

/// The corner representation over the pixel coordinate space.
pub type RectangularArea = GeneralRectangularArea<u32>;

impl IsARectangularArea<u32> for GeneralRectangularArea<u32> {
    open spec fn area_wf(&self) -> bool {
        true
    }

    open spec fn spec_top_left_x(&self) -> u32 {
        self.top_left_x
    }

    open spec fn spec_top_left_y(&self) -> u32 {
        self.top_left_y
    }

    open spec fn spec_bottom_right_x(&self) -> u32 {
        self.bottom_right_x
    }

    open spec fn spec_bottom_right_y(&self) -> u32 {
        self.bottom_right_y
    }

    fn top_left_x(&self) -> (r: u32) {
        self.top_left_x
    }

    fn top_left_y(&self) -> (r: u32) {
        self.top_left_y
    }

    fn bottom_right_x(&self) -> (r: u32) {
        self.bottom_right_x
    }

    fn bottom_right_y(&self) -> (r: u32) {
        self.bottom_right_y
    }
}

impl GeneralRectangle<u32> {
    /// The corner representation of this rectangle.
    pub fn to_area(&self) -> (a: GeneralRectangularArea<u32>)
        requires
            self.wf(),
        ensures
            a == (GeneralRectangularArea {
                top_left_x: self.x,
                top_left_y: self.y,
                bottom_right_x: (self.x + self.width) as u32,
                bottom_right_y: (self.y + self.height) as u32,
            }),
    {
        GeneralRectangularArea {
            top_left_x: self.x,
            top_left_y: self.y,
            bottom_right_x: self.x + self.width,
            bottom_right_y: self.y + self.height,
        }
    }
}

impl From<GeneralRectangularArea<u32>> for GeneralRectangle<u32> {
    /// The rectangle spanned by the two corners; a corner pair in the wrong
    /// order yields a zero extent.
    fn from(area: GeneralRectangularArea<u32>) -> (r: GeneralRectangle<u32>) {
        GeneralRectangle {
            x: area.top_left_x,
            y: area.top_left_y,
            width: if area.bottom_right_x >= area.top_left_x {
                area.bottom_right_x - area.top_left_x
            } else {
                0
            },
            height: if area.bottom_right_y >= area.top_left_y {
                area.bottom_right_y - area.top_left_y
            } else {
                0
            },
        }
    }
}

impl vstd::std_specs::convert::FromSpecImpl<GeneralRectangularArea<u32>> for GeneralRectangle<u32> {
    open spec fn obeys_from_spec() -> bool {
        true
    }

    open spec fn from_spec(area: GeneralRectangularArea<u32>) -> GeneralRectangle<u32> {
        GeneralRectangle {
            x: area.top_left_x,
            y: area.top_left_y,
            width: if area.bottom_right_x >= area.top_left_x {
                (area.bottom_right_x - area.top_left_x) as u32
            } else {
                0
            },
            height: if area.bottom_right_y >= area.top_left_y {
                (area.bottom_right_y - area.top_left_y) as u32
            } else {
                0
            },
        }
    }
}

} // verus!
