//! The grid: a logical box grid (box size and box counts) laid over a pixel
//! area centred within the screen, with conversions between pixel
//! coordinates and box indices in both directions.
//!
//! Boundary policy, fixed once for the whole crate: a pixel on any grid
//! line, outer or interior, belongs to no box; `box_to_pixel` returns each
//! box's rectangle inset by one pixel on every side, so adjacent boxes never
//! share a drawn pixel.

use vstd::prelude::*;
use vstd::arithmetic::div_mod::{lemma_div_is_ordered, lemma_fundamental_div_mod};
use std::ops::Range;
use crate::basic_types::LabyrinthError;
use crate::rectangle::{spec_bottom, spec_right, GeneralRectangle, IsARectangularArea, Rectangle};

verus! {

/// A point over any copyable coordinate type.
#[derive(Debug, Eq, PartialEq, Structural, Copy)]
pub struct GeneralPoint<T: Copy> {
    pub coordinate: (T, T),
}

impl<T: Copy> Clone for GeneralPoint<T> {
    fn clone(&self) -> (r: GeneralPoint<T>)
        ensures
            r == *self,
    {
        *self
    }
}

/// A point in the pixel coordinate space.
pub type Point = GeneralPoint<u32>;

impl<T: Copy> GeneralPoint<T> {
    /// The first coordinate.
    pub fn x(&self) -> (r: T)
        ensures
            r == self.coordinate.0,
    {
        self.coordinate.0
    }

    /// The second coordinate.
    pub fn y(&self) -> (r: T)
        ensures
            r == self.coordinate.1,
    {
        self.coordinate.1
    }
}

/// A point tagged as lying in screen (pixel) coordinates.
#[derive(Debug, Eq, PartialEq, Structural, Copy, Clone)]
pub struct GeneralPointInScreenCoordinates<T: Copy>(pub GeneralPoint<T>);

pub type PointInScreenCoordinates = GeneralPointInScreenCoordinates<u32>;

/// A point tagged as lying in grid (box index) coordinates.
#[derive(Debug, Eq, PartialEq, Structural, Copy, Clone)]
pub struct GeneralPointInGridCoordinates<T: Copy>(pub GeneralPoint<T>);

pub type PointInGridCoordinates = GeneralPointInGridCoordinates<u32>;

/// A rectangle tagged as lying in screen (pixel) coordinates.
#[derive(Debug, Eq, PartialEq, Structural, Copy, Clone)]
pub struct GeneralRectangleInScreenCoordinates<T: Copy>(pub GeneralRectangle<T>);

pub type RectangleInScreenCoordinates = GeneralRectangleInScreenCoordinates<u32>;

/// A rectangle tagged as lying in grid (box index) coordinates.
#[derive(Debug, Eq, PartialEq, Structural, Copy, Clone)]
pub struct GeneralRectangleInGridCoordinates<T: Copy>(pub GeneralRectangle<T>);

pub type RectangleInGridCoordinates = GeneralRectangleInGridCoordinates<u32>;

impl GeneralPointInScreenCoordinates<u32> {
    /// The top-left corner of a rectangular area, as a screen point.
    pub fn top_left_of<S: IsARectangularArea<u32>>(area: &S) -> (p: PointInScreenCoordinates)
        requires
            area.area_wf(),
        ensures
            p.0.coordinate == (area.spec_top_left_x(), area.spec_top_left_y()),
    {
        GeneralPointInScreenCoordinates(
            GeneralPoint { coordinate: (area.top_left_x(), area.top_left_y()) },
        )
    }

    /// The bottom-right corner of a rectangular area, as a screen point.
    pub fn bottom_right_of<S: IsARectangularArea<u32>>(area: &S) -> (p: PointInScreenCoordinates)
        requires
            area.area_wf(),
        ensures
            p.0.coordinate == (area.spec_bottom_right_x(), area.spec_bottom_right_y()),
    {
        GeneralPointInScreenCoordinates(
            GeneralPoint { coordinate: (area.bottom_right_x(), area.bottom_right_y()) },
        )
    }
}

impl<T: Copy> GeneralPointInScreenCoordinates<T> {
    pub fn x(&self) -> (r: T)
        ensures
            r == self.0.coordinate.0,
    {
        self.0.x()
    }

    pub fn y(&self) -> (r: T)
        ensures
            r == self.0.coordinate.1,
    {
        self.0.y()
    }
}

impl<T: Copy> GeneralPointInGridCoordinates<T> {
    pub fn x(&self) -> (r: T)
        ensures
            r == self.0.coordinate.0,
    {
        self.0.x()
    }

    pub fn y(&self) -> (r: T)
        ensures
            r == self.0.coordinate.1,
    {
        self.0.y()
    }
}

/// The total extent of the rendering surface.
#[derive(Debug, Eq, PartialEq, Structural, Copy, Clone)]
pub struct GeneralScreen<T: Copy> {
    pub width: T,
    pub height: T,
}

type Screen = GeneralScreen<u32>;

impl<T: Copy> From<(T, T)> for GeneralScreen<T> {
    fn from(t: (T, T)) -> (s: GeneralScreen<T>) {
        GeneralScreen { width: t.0, height: t.1 }
    }
}

impl<T: Copy> vstd::std_specs::convert::FromSpecImpl<(T, T)> for GeneralScreen<T> {
    open spec fn obeys_from_spec() -> bool {
        true
    }

    open spec fn from_spec(t: (T, T)) -> GeneralScreen<T> {
        GeneralScreen { width: t.0, height: t.1 }
    }
}

/// A pair of half-open index ranges, one per axis, used to restrict
/// iteration over the box grid.
pub type TwoDimensionalRange = (Range<usize>, Range<usize>);

/// The screen is divided by this factor to obtain the margin kept free
/// around the labyrinth area.
pub const MARGIN_FACTOR: u32 = 32;

/// The drawn border of a box, in pixels; each box's pixel rectangle is
/// inset by this much on every side.
pub const BORDER_SIZE: u32 = 1;

/// A box grid laid over a pixel area centred within a screen.
///
/// The pixel area's extent is one more than the boxes' total extent, so
/// that the closed area includes the outermost grid lines.
#[derive(Debug, Eq, PartialEq, Structural, Copy, Clone)]
pub struct Grid {
    pub screen: Screen,
    pub area: RectangleInScreenCoordinates,
    pub box_size: u32,
    pub x_box_cnt: u32,
    pub y_box_cnt: u32,
}

impl Grid {
    /// Well-formedness: the box size leaves room for the one-pixel inset,
    /// the area extents agree with the box counts, and the area's corners
    /// stay within the coordinate type.
    pub open spec fn wf(&self) -> bool {
        &&& 2 <= self.box_size
        &&& self.area.0.width == self.x_box_cnt * self.box_size + 1
        &&& self.area.0.height == self.y_box_cnt * self.box_size + 1
        &&& self.area.0.wf()
    }

    /// The grid that `new` builds: margins of a thirty-second of each total
    /// extent, the largest multiple of `box_size` that fits between them,
    /// centred, with the area one pixel wider and taller than the boxes it
    /// holds.
    pub open spec fn spec_new(box_size: u32, total_width: u32, total_height: u32) -> Grid {
        let tw = total_width as int;
        let th = total_height as int;
        let b = box_size as int;
        let width = (tw - 2 * (tw / (MARGIN_FACTOR as int))) / b * b;
        let height = (th - 2 * (th / (MARGIN_FACTOR as int))) / b * b;
        Grid {
            screen: GeneralScreen { width: total_width, height: total_height },
            area: GeneralRectangleInScreenCoordinates(
                GeneralRectangle {
                    x: (tw / 2 - width / 2) as u32,
                    y: (th / 2 - height / 2) as u32,
                    width: (width + 1) as u32,
                    height: (height + 1) as u32,
                },
            ),
            box_size,
            x_box_cnt: (width / b) as u32,
            y_box_cnt: (height / b) as u32,
        }
    }

    /// Builds the grid for a surface of the given total extent.  A total
    /// extent too small for margins plus one box yields a zero box count on
    /// that axis.
    pub fn new(box_size: u32, total_width: u32, total_height: u32) -> (r: Grid)
        requires
            2 <= box_size,
        ensures
            r == Grid::spec_new(box_size, total_width, total_height),
            r.wf(),
    {
        let left_margin = total_width / MARGIN_FACTOR;
        let top_margin = total_height / MARGIN_FACTOR;
        proof {
            lemma_fundamental_div_mod(total_width as int, MARGIN_FACTOR as int);
            lemma_fundamental_div_mod(total_height as int, MARGIN_FACTOR as int);
        }
        let usable_width = total_width - 2 * left_margin;
        let usable_height = total_height - 2 * top_margin;
        let x_box_cnt = usable_width / box_size;
        let y_box_cnt = usable_height / box_size;
        proof {
            lemma_fundamental_div_mod(usable_width as int, box_size as int);
            lemma_fundamental_div_mod(usable_height as int, box_size as int);
        }
        let width = x_box_cnt * box_size;
        let height = y_box_cnt * box_size;
        proof {
            vstd::arithmetic::div_mod::lemma_div_multiples_vanish(
                x_box_cnt as int,
                box_size as int,
            );
            vstd::arithmetic::div_mod::lemma_div_multiples_vanish(
                y_box_cnt as int,
                box_size as int,
            );
            lemma_fundamental_div_mod(total_width as int, 2);
            lemma_fundamental_div_mod(total_height as int, 2);
            lemma_fundamental_div_mod(width as int, 2);
            lemma_fundamental_div_mod(height as int, 2);
            lemma_div_is_ordered(width as int, total_width as int, 2);
            lemma_div_is_ordered(height as int, total_height as int, 2);
            if total_width >= 2 * MARGIN_FACTOR {
                lemma_div_is_ordered(
                    2 * MARGIN_FACTOR as int,
                    total_width as int,
                    MARGIN_FACTOR as int,
                );
                lemma_fundamental_div_mod(usable_width as int, 2);
                lemma_div_is_ordered(width as int, usable_width as int, 2);
            }
            if total_height >= 2 * MARGIN_FACTOR {
                lemma_div_is_ordered(
                    2 * MARGIN_FACTOR as int,
                    total_height as int,
                    MARGIN_FACTOR as int,
                );
                lemma_fundamental_div_mod(usable_height as int, 2);
                lemma_div_is_ordered(height as int, usable_height as int, 2);
            }
        }
        let x = total_width / 2 - width / 2;
        let y = total_height / 2 - height / 2;
        Grid {
            screen: GeneralScreen { width: total_width, height: total_height },
            area: GeneralRectangleInScreenCoordinates(
                GeneralRectangle { x, y, width: width + 1, height: height + 1 },
            ),
            box_size,
            x_box_cnt,
            y_box_cnt,
        }
    }

    /// Whether `p` lies within the closed pixel area, outer grid lines
    /// included.
    pub open spec fn spec_inside(&self, p: GeneralPoint<u32>) -> bool {
        &&& p.coordinate.0 >= self.area.0.x
        &&& p.coordinate.0 <= spec_right(self.area.0)
        &&& p.coordinate.1 >= self.area.0.y
        &&& p.coordinate.1 <= spec_bottom(self.area.0)
    }

    /// Whether `p` lies within the closed pixel area and on some grid line,
    /// outer or interior.
    pub open spec fn spec_on_axis(&self, p: GeneralPoint<u32>) -> bool {
        self.spec_inside(p) && ((p.coordinate.0 - self.area.0.x) % (self.box_size as int) == 0
            || (p.coordinate.1 - self.area.0.y) % (self.box_size as int) == 0)
    }

    /// Whether the point lies within the closed pixel area.
    pub fn is_inside(&self, point: PointInScreenCoordinates) -> (r: bool)
        requires
            self.wf(),
        ensures
            r == self.spec_inside(point.0),
    {
        point.x() >= self.area.0.x && point.x() <= self.area.0.bottom_right_x() && point.y()
            >= self.area.0.y && point.y() <= self.area.0.bottom_right_y()
    }

    /// Whether the point lies within the closed pixel area and on a grid
    /// line.
    pub fn is_on_axis(&self, point: PointInScreenCoordinates) -> (r: bool)
        requires
            self.wf(),
        ensures
            r == self.spec_on_axis(point.0),
    {
        self.is_inside(point) && ((point.x() - self.area.0.x) % self.box_size == 0 || (point.y()
            - self.area.0.y) % self.box_size == 0)
    }

    /// Where `pixel_to_box` sends a point: the box whose interior holds the
    /// point, or nothing for a point on or outside any grid line.
    pub open spec fn spec_pixel_to_box(&self, p: GeneralPoint<u32>) -> Option<(u32, u32)> {
        let b = self.box_size as int;
        let ox = p.coordinate.0 - self.area.0.x;
        let oy = p.coordinate.1 - self.area.0.y;
        if self.area.0.x < p.coordinate.0 < self.area.0.x + self.area.0.width && self.area.0.y
            < p.coordinate.1 < self.area.0.y + self.area.0.height && ox % b != 0 && oy % b != 0 {
            Some(((ox / b) as u32, (oy / b) as u32))
        } else {
            None
        }
    }

    /// Maps a pixel point to the box whose interior holds it.  A point on
    /// or outside any grid line (the shared borders between boxes and the
    /// area's own boundary) belongs to no box and yields `None`; a returned
    /// box index is always within the box counts.
    pub fn pixel_to_box(&self, point: PointInScreenCoordinates) -> (r: Option<
        PointInGridCoordinates,
    >)
        requires
            self.wf(),
        ensures
            match r {
                Some(bp) => self.spec_pixel_to_box(point.0) == Some(bp.0.coordinate)
                    && bp.0.coordinate.0 < self.x_box_cnt && bp.0.coordinate.1 < self.y_box_cnt,
                None => self.spec_pixel_to_box(point.0) is None,
            },
    {
        let px = point.x();
        let py = point.y();
        if px <= self.area.0.x || px >= self.area.0.x + self.area.0.width || py <= self.area.0.y
            || py >= self.area.0.y + self.area.0.height {
            None
        } else {
            let ox = px - self.area.0.x;
            let oy = py - self.area.0.y;
            if ox % self.box_size == 0 || oy % self.box_size == 0 {
                None
            } else {
                proof {
                    self.lemma_offset_box_in_range(ox as int, self.x_box_cnt as int);
                    self.lemma_offset_box_in_range(oy as int, self.y_box_cnt as int);
                }
                Some(
                    GeneralPointInGridCoordinates(
                        GeneralPoint {
                            coordinate: (ox / self.box_size, oy / self.box_size),
                        },
                    ),
                )
            }
        }
    }

    /// An in-area offset that avoids every grid line falls in a box whose
    /// index is below the box count for that axis.
    proof fn lemma_offset_box_in_range(&self, o: int, cnt: int)
        requires
            2 <= self.box_size,
            0 < o < cnt * self.box_size + 1,
            o % (self.box_size as int) != 0,
        ensures
            0 <= o / (self.box_size as int) < cnt,
    {
        let b = self.box_size as int;
        lemma_fundamental_div_mod(o, b);
        assert(o / b < cnt) by (nonlinear_arith)
            requires
                b >= 2,
                o == b * (o / b) + o % b,
                0 < o % b < b,
                o <= cnt * b,
        ;
        assert(o / b >= 0) by (nonlinear_arith)
            requires
                b >= 2,
                o == b * (o / b) + o % b,
                0 < o % b < b,
                o > 0,
        ;
    }

    /// The pixel rectangle of the box at `(bx, by)`: the box's square inset
    /// by the border on every side.
    pub open spec fn spec_box_to_pixel(&self, bx: int, by: int) -> GeneralRectangle<u32> {
        let b = self.box_size as int;
        GeneralRectangle {
            x: (self.area.0.x + b * bx + BORDER_SIZE) as u32,
            y: (self.area.0.y + b * by + BORDER_SIZE) as u32,
            width: (b - 2 * BORDER_SIZE) as u32,
            height: (b - 2 * BORDER_SIZE) as u32,
        }
    }

    /// Maps a box index to the box's drawn pixel rectangle, inset by one
    /// pixel on every side so that adjacent boxes share no drawn pixel.
    /// Fails with an internal error exactly when an index is at or beyond
    /// the box count.
    pub fn box_to_pixel(&self, point: &PointInGridCoordinates) -> (r: Result<
        RectangleInScreenCoordinates,
        LabyrinthError,
    >)
        requires
            self.wf(),
        ensures
            r is Ok <==> (point.0.coordinate.0 < self.x_box_cnt && point.0.coordinate.1
                < self.y_box_cnt),
            r is Ok ==> r->Ok_0.0 == self.spec_box_to_pixel(
                point.0.coordinate.0 as int,
                point.0.coordinate.1 as int,
            ),
            r is Err ==> r->Err_0 is InternalError,
    {
        if point.x() >= self.x_box_cnt || point.y() >= self.y_box_cnt {
            Err(LabyrinthError::InternalError)
        } else {
            proof {
                self.lemma_box_origin_bounded(
                    point.0.coordinate.0 as int,
                    self.x_box_cnt as int,
                );
                self.lemma_box_origin_bounded(
                    point.0.coordinate.1 as int,
                    self.y_box_cnt as int,
                );
            }
            Ok(
                GeneralRectangleInScreenCoordinates(
                    GeneralRectangle {
                        x: self.area.0.x + self.box_size * point.x() + BORDER_SIZE,
                        y: self.area.0.y + self.box_size * point.y() + BORDER_SIZE,
                        width: self.box_size - 2 * BORDER_SIZE,
                        height: self.box_size - 2 * BORDER_SIZE,
                    },
                ),
            )
        }
    }

    /// A box origin lies strictly inside the area's extent.
    proof fn lemma_box_origin_bounded(&self, i: int, cnt: int)
        requires
            2 <= self.box_size,
            0 <= i < cnt,
        ensures
            self.box_size * i + self.box_size <= cnt * self.box_size,
    {
        let b = self.box_size as int;
        assert(b * i + b <= cnt * b) by (nonlinear_arith)
            requires
                0 <= i < cnt,
                b >= 2,
        ;
    }
}

/// Law: the two directions of the mapping agree.  Every pixel point within
/// the drawn rectangle of a valid box maps back to exactly that box; the
/// one-pixel inset keeps the drawn rectangle clear of every grid line.
pub proof fn lemma_box_pixel_round_trip(grid: Grid, bx: int, by: int, p: GeneralPoint<u32>)
    requires
        grid.wf(),
        0 <= bx < grid.x_box_cnt,
        0 <= by < grid.y_box_cnt,
        grid.spec_box_to_pixel(bx, by).x <= p.coordinate.0 <= spec_right(
            grid.spec_box_to_pixel(bx, by),
        ),
        grid.spec_box_to_pixel(bx, by).y <= p.coordinate.1 <= spec_bottom(
            grid.spec_box_to_pixel(bx, by),
        ),
    ensures
        grid.spec_pixel_to_box(p) == Some((bx as u32, by as u32)),
{
    let b = grid.box_size as int;
    let ox = p.coordinate.0 - grid.area.0.x;
    let oy = p.coordinate.1 - grid.area.0.y;
    assert(grid.area.0.x + b * bx + 1 <= grid.area.0.x + b * bx + b - 1) by (nonlinear_arith)
        requires
            b >= 2,
    ;
    assert(b * bx + b <= grid.x_box_cnt * b && b * by + b <= grid.y_box_cnt * b)
        by (nonlinear_arith)
        requires
            b >= 2,
            0 <= bx < grid.x_box_cnt,
            0 <= by < grid.y_box_cnt,
    ;
    assert(b * bx >= 0 && b * by >= 0) by (nonlinear_arith)
        requires
            b >= 2,
            bx >= 0,
            by >= 0,
    ;
    vstd::arithmetic::div_mod::lemma_div_multiples_vanish_fancy(bx, ox - b * bx, b);
    vstd::arithmetic::div_mod::lemma_div_multiples_vanish_fancy(by, oy - b * by, b);
    vstd::arithmetic::div_mod::lemma_mod_multiples_vanish(bx, ox - b * bx, b);
    vstd::arithmetic::div_mod::lemma_mod_multiples_vanish(by, oy - b * by, b);
    vstd::arithmetic::div_mod::lemma_small_mod((ox - b * bx) as nat, b as nat);
    vstd::arithmetic::div_mod::lemma_small_mod((oy - b * by) as nat, b as nat);
}

/// Law: a grid with no boxes on some axis maps every pixel point to no
/// box; in particular, a grid built for a degenerate surface has no
/// clickable area at all.
pub proof fn lemma_empty_grid_has_no_boxes(grid: Grid, p: GeneralPoint<u32>)
    requires
        grid.wf(),
        grid.x_box_cnt == 0 || grid.y_box_cnt == 0,
    ensures
        grid.spec_pixel_to_box(p) is None,
{
}

/// Coercion: clamps a coordinate into an axis span.  A coordinate at or
/// before the span's start is pulled one pixel past it; one at or past the
/// span's end is pulled one pixel before it; others stay put.
pub open spec fn spec_coerce(c: int, start: int, dim: int) -> int {
    if c <= start {
        start + 1
    } else if c >= start + dim {
        start + dim - 1
    } else {
        c
    }
}

/// Coercion over pixel coordinates, used only by the range queries; out of
/// range queries are clamped here, never rejected.
fn coerce_coordinate_into(coordinate: u32, start: u32, dimension: u32) -> (r: u32)
    requires
        1 <= dimension,
        start + dimension <= u32::MAX,
    ensures
        r == spec_coerce(coordinate as int, start as int, dimension as int),
{
    if coordinate <= start {
        start + 1
    } else if coordinate >= start + dimension {
        start + dimension - 1
    } else {
        coordinate
    }
}

impl Grid {
    /// The box index that the range queries use for an x coordinate: the
    /// coordinate is coerced into the area, then divided into boxes.  The
    /// result lies in `[0, x_box_cnt]`; the value `x_box_cnt` arises only
    /// for a coordinate coerced onto the area's far edge.
    pub open spec fn spec_coerced_box_x(&self, c: int) -> int {
        (spec_coerce(c, self.area.0.x as int, self.area.0.width as int) - self.area.0.x) / (
        self.box_size as int)
    }

    /// The box index that the range queries use for a y coordinate.
    pub open spec fn spec_coerced_box_y(&self, c: int) -> int {
        (spec_coerce(c, self.area.0.y as int, self.area.0.height as int) - self.area.0.y) / (
        self.box_size as int)
    }

    /// The end of the half-open x index range whose bottom-right coordinate
    /// is `c`: one past that coordinate's box, capped at the box count.
    pub open spec fn spec_range_end_x(&self, c: int) -> int {
        if self.spec_coerced_box_x(c) + 1 >= self.x_box_cnt {
            self.x_box_cnt as int
        } else {
            self.spec_coerced_box_x(c) + 1
        }
    }

    /// The end of the half-open y index range whose bottom-right coordinate
    /// is `c`.
    pub open spec fn spec_range_end_y(&self, c: int) -> int {
        if self.spec_coerced_box_y(c) + 1 >= self.y_box_cnt {
            self.y_box_cnt as int
        } else {
            self.spec_coerced_box_y(c) + 1
        }
    }

    /// A coerced offset stays within the area and its box index within
    /// `[0, cnt]`.
    proof fn lemma_coerced_box_bounds(&self, c: int, start: int, dim: int, cnt: int)
        requires
            2 <= self.box_size,
            dim == cnt * self.box_size + 1,
            cnt >= 0,
        ensures
            0 <= (spec_coerce(c, start, dim) - start) / (self.box_size as int) <= cnt,
    {
        let b = self.box_size as int;
        let o = spec_coerce(c, start, dim) - start;
        if cnt == 0 {
            assert(0 <= o <= 1);
            vstd::arithmetic::div_mod::lemma_basic_div(o, b);
        } else {
            assert(0 <= o <= cnt * b) by (nonlinear_arith)
                requires
                    o == spec_coerce(c, start, dim) - start,
                    dim == cnt * b + 1,
                    cnt >= 1,
                    b >= 2,
                    (c <= start ==> spec_coerce(c, start, dim) == start + 1) && (c >= start + dim
                        ==> spec_coerce(c, start, dim) == start + dim - 1) && (start < c < start
                        + dim ==> spec_coerce(c, start, dim) == c),
            ;
            vstd::arithmetic::div_mod::lemma_div_pos_is_pos(o, b);
            lemma_div_is_ordered(o, cnt * b, b);
            vstd::arithmetic::mul::lemma_mul_is_commutative(b, cnt);
            vstd::arithmetic::div_mod::lemma_div_multiples_vanish(cnt, b);
        }
    }

    /// Along one axis, the coerced box index of the top-left corner never
    /// exceeds that of the bottom-right corner.
    proof fn lemma_coerced_box_ordered(&self, c1: int, c2: int, start: int, dim: int, cnt: int)
        requires
            2 <= self.box_size,
            dim == cnt * self.box_size + 1,
            cnt >= 0,
            c1 <= c2,
        ensures
            (spec_coerce(c1, start, dim) - start) / (self.box_size as int) <= (spec_coerce(
                c2,
                start,
                dim,
            ) - start) / (self.box_size as int),
    {
        let b = self.box_size as int;
        let o1 = spec_coerce(c1, start, dim) - start;
        let o2 = spec_coerce(c2, start, dim) - start;
        if cnt == 0 {
            assert(0 <= o1 <= 1 && 0 <= o2 <= 1);
            vstd::arithmetic::div_mod::lemma_basic_div(o1, b);
            vstd::arithmetic::div_mod::lemma_basic_div(o2, b);
        } else {
            assert(dim >= 2) by (nonlinear_arith)
                requires
                    dim == cnt * b + 1,
                    cnt >= 1,
                    b >= 2,
            ;
            assert(o1 <= o2);
            self.lemma_coerced_box_bounds(c1, start, dim, cnt);
            lemma_div_is_ordered(o1, o2, b);
        }
    }

    /// The coerced box indices of a rectangle's two corners, as
    /// `((top_left_x, top_left_y), (bottom_right_x, bottom_right_y))` in
    /// box coordinates.  Each pair is ordered and bounded by the box
    /// counts.
    pub(crate) fn coerced_box_bounds(&self, rectangle: &GeneralRectangle<u32>) -> (r: (
        (u32, u32),
        (u32, u32),
    ))
        requires
            self.wf(),
            rectangle.wf(),
        ensures
            r.0.0 == self.spec_coerced_box_x(rectangle.x as int),
            r.0.1 == self.spec_coerced_box_y(rectangle.y as int),
            r.1.0 == self.spec_coerced_box_x(spec_right(*rectangle)),
            r.1.1 == self.spec_coerced_box_y(spec_bottom(*rectangle)),
            r.0.0 <= r.1.0 <= self.x_box_cnt,
            r.0.1 <= r.1.1 <= self.y_box_cnt,
    {
        let area = &self.area.0;
        let tlx = coerce_coordinate_into(rectangle.x, area.x, area.width);
        let tly = coerce_coordinate_into(rectangle.y, area.y, area.height);
        let brx = coerce_coordinate_into(rectangle.x + rectangle.width, area.x, area.width);
        let bry = coerce_coordinate_into(rectangle.y + rectangle.height, area.y, area.height);
        proof {
            self.lemma_coerced_box_bounds(
                rectangle.x as int,
                area.x as int,
                area.width as int,
                self.x_box_cnt as int,
            );
            self.lemma_coerced_box_bounds(
                rectangle.y as int,
                area.y as int,
                area.height as int,
                self.y_box_cnt as int,
            );
            self.lemma_coerced_box_bounds(
                spec_right(*rectangle),
                area.x as int,
                area.width as int,
                self.x_box_cnt as int,
            );
            self.lemma_coerced_box_bounds(
                spec_bottom(*rectangle),
                area.y as int,
                area.height as int,
                self.y_box_cnt as int,
            );
            self.lemma_coerced_box_ordered(
                rectangle.x as int,
                spec_right(*rectangle),
                area.x as int,
                area.width as int,
                self.x_box_cnt as int,
            );
            self.lemma_coerced_box_ordered(
                rectangle.y as int,
                spec_bottom(*rectangle),
                area.y as int,
                area.height as int,
                self.y_box_cnt as int,
            );
        }
        (
            ((tlx - area.x) / self.box_size, (tly - area.y) / self.box_size),
            ((brx - area.x) / self.box_size, (bry - area.y) / self.box_size),
        )
    }

    /// Maps a pixel-space rectangle to the rectangle it spans in box
    /// coordinates, corners coerced into the area; `None` when the
    /// rectangle does not overlap the pixel area at all.
    pub fn pixel_area_to_box_area(&self, rectangle: &RectangleInScreenCoordinates) -> (r: Option<
        RectangleInGridCoordinates,
    >)
        requires
            self.wf(),
            rectangle.0.wf(),
        ensures
            r is Some <==> crate::rectangle::spec_overlaps(rectangle.0, self.area.0),
            r matches Some(gr) ==> gr.0 == (GeneralRectangle {
                x: self.spec_coerced_box_x(rectangle.0.x as int) as u32,
                y: self.spec_coerced_box_y(rectangle.0.y as int) as u32,
                width: (self.spec_coerced_box_x(spec_right(rectangle.0))
                    - self.spec_coerced_box_x(rectangle.0.x as int)) as u32,
                height: (self.spec_coerced_box_y(spec_bottom(rectangle.0))
                    - self.spec_coerced_box_y(rectangle.0.y as int)) as u32,
            }),
    {
        if rectangle.0.inside_bounds(&self.area.0) {
            let ((tlx, tly), (brx, bry)) = self.coerced_box_bounds(&rectangle.0);
            Some(
                GeneralRectangleInGridCoordinates(
                    GeneralRectangle { x: tlx, y: tly, width: brx - tlx, height: bry - tly },
                ),
            )
        } else {
            None
        }
    }

    /// Maps a pixel-space rectangle to a pair of half-open box index
    /// ranges, one per axis, covering every box the rectangle's coerced
    /// corners fall in; `None` when the rectangle does not overlap the
    /// pixel area.  A returned range is always valid and bounded by the box
    /// count.
    pub fn pixel_area_to_box_range(&self, rectangle: &RectangleInScreenCoordinates) -> (r: Option<
        TwoDimensionalRange,
    >)
        requires
            self.wf(),
            rectangle.0.wf(),
        ensures
            r is Some <==> crate::rectangle::spec_overlaps(rectangle.0, self.area.0),
            r matches Some(ranges) ==> {
                &&& ranges.0.start == self.spec_coerced_box_x(rectangle.0.x as int)
                &&& ranges.0.end == self.spec_range_end_x(spec_right(rectangle.0))
                &&& ranges.1.start == self.spec_coerced_box_y(rectangle.0.y as int)
                &&& ranges.1.end == self.spec_range_end_y(spec_bottom(rectangle.0))
                &&& ranges.0.start <= ranges.0.end <= self.x_box_cnt
                &&& ranges.1.start <= ranges.1.end <= self.y_box_cnt
            },
    {
        if rectangle.0.inside_bounds(&self.area.0) {
            let ((tlx, tly), (brx, bry)) = self.coerced_box_bounds(&rectangle.0);
            proof {
                self.lemma_box_cnt_small();
            }
            let end_x = if brx + 1 >= self.x_box_cnt {
                self.x_box_cnt
            } else {
                brx + 1
            };
            let end_y = if bry + 1 >= self.y_box_cnt {
                self.y_box_cnt
            } else {
                bry + 1
            };
            Some(
                (
                    (tlx as usize)..(end_x as usize),
                    (tly as usize)..(end_y as usize),
                ),
            )
        } else {
            None
        }
    }

    /// The index of the first vertical grid line at or after the left edge
    /// of `d`: the ceiling of the edge's offset in boxes.
    pub open spec fn spec_x_line_start(&self, d: GeneralRectangle<u32>) -> int {
        (d.x - self.area.0.x + self.box_size - 1) / (self.box_size as int)
    }

    /// One past the index of the last vertical grid line drawn for `d`,
    /// capped one past the box count (the grid has one more line than it
    /// has boxes per axis).
    pub open spec fn spec_x_line_end(&self, d: GeneralRectangle<u32>) -> int {
        let e = (spec_right(d) - self.area.0.x + self.box_size - 1) / (self.box_size as int);
        if self.x_box_cnt + 1 < e {
            self.x_box_cnt + 1
        } else {
            e
        }
    }

    /// The index of the first horizontal grid line at or below the top
    /// edge of `d`.
    pub open spec fn spec_y_line_start(&self, d: GeneralRectangle<u32>) -> int {
        (d.y - self.area.0.y + self.box_size - 1) / (self.box_size as int)
    }

    /// One past the index of the last horizontal grid line drawn for `d`.
    pub open spec fn spec_y_line_end(&self, d: GeneralRectangle<u32>) -> int {
        let e = (spec_bottom(d) - self.area.0.y + self.box_size - 1) / (self.box_size as int);
        if self.y_box_cnt + 1 < e {
            self.y_box_cnt + 1
        } else {
            e
        }
    }

    /// The visible part of the `k`-th vertical grid line within `d`: a
    /// zero-width rectangle spanning `d`'s vertical extent.
    pub open spec fn spec_x_line_segment(&self, d: GeneralRectangle<u32>, k: int) -> GeneralRectangle<
        u32,
    > {
        GeneralRectangle {
            x: (self.area.0.x + self.box_size * k) as u32,
            y: d.y,
            width: 0u32,
            height: d.height,
        }
    }

    /// The visible part of the `k`-th horizontal grid line within `d`.
    pub open spec fn spec_y_line_segment(&self, d: GeneralRectangle<u32>, k: int) -> GeneralRectangle<
        u32,
    > {
        GeneralRectangle {
            x: d.x,
            y: (self.area.0.y + self.box_size * k) as u32,
            width: d.width,
            height: 0u32,
        }
    }

    /// Bounds of the ceiling division that picks line indices: the chosen
    /// multiple of `b` lands at or after `o` but less than one box past it.
    proof fn lemma_ceil_div_bounds(o: int, b: int)
        requires
            0 <= o,
            2 <= b,
        ensures
            b * ((o + b - 1) / b) >= o,
            b * ((o + b - 1) / b) <= o + b - 1,
            (o + b - 1) / b >= 0,
    {
        lemma_fundamental_div_mod(o + b - 1, b);
        vstd::arithmetic::div_mod::lemma_mod_division_less_than_divisor(o + b - 1, b);
        vstd::arithmetic::div_mod::lemma_div_pos_is_pos(o + b - 1, b);
    }

    /// The multiples of `b` indexed within `[s, e)` stay between the two
    /// ceiling bounds.
    proof fn lemma_line_multiple_bounds(k: int, s: int, e: int, o1: int, o2: int, b: int)
        requires
            2 <= b,
            s <= k < e,
            0 <= o1,
            s == (o1 + b - 1) / b,
            e <= (o2 + b - 1) / b,
        ensures
            o1 <= b * k,
            b * k <= o2 - 1,
    {
        Self::lemma_ceil_div_bounds(o1, b);
        vstd::arithmetic::mul::lemma_mul_inequality(s, k, b);
        vstd::arithmetic::mul::lemma_mul_is_commutative(s, b);
        vstd::arithmetic::mul::lemma_mul_is_commutative(k, b);
        lemma_fundamental_div_mod(o2 + b - 1, b);
        vstd::arithmetic::div_mod::lemma_mod_division_less_than_divisor(o2 + b - 1, b);
        let e2 = (o2 + b - 1) / b;
        vstd::arithmetic::mul::lemma_mul_inequality(k + 1, e2, b);
        vstd::arithmetic::mul::lemma_mul_is_commutative(k + 1, b);
        vstd::arithmetic::mul::lemma_mul_is_commutative(e2, b);
        vstd::arithmetic::mul::lemma_mul_is_distributive_add(b, k, 1);
    }

    /// The ceiling line index of any offset within the area is at most one
    /// past the box count.
    proof fn lemma_line_start_capped(&self, o: int, cnt: int)
        requires
            2 <= self.box_size,
            0 <= o <= cnt * self.box_size + 1,
            0 <= cnt,
        ensures
            (o + self.box_size - 1) / (self.box_size as int) <= cnt + 1,
    {
        let b = self.box_size as int;
        assert(o + b - 1 <= (cnt + 1) * b) by (nonlinear_arith)
            requires
                o <= cnt * b + 1,
                b >= 2,
                cnt >= 0,
        ;
        lemma_div_is_ordered(o + b - 1, (cnt + 1) * b, b);
        vstd::arithmetic::mul::lemma_mul_is_commutative(cnt + 1, b);
        vstd::arithmetic::div_mod::lemma_div_multiples_vanish(cnt + 1, b);
    }

    /// The vertical grid lines crossing the clip rectangle, each clipped to
    /// the intersection of the clip with the pixel area: one zero-width
    /// segment per line, in increasing order.  A clip that misses the area
    /// yields no lines.
    pub fn axis_lines_x(&self, clip: &Rectangle) -> (lines: Vec<GeneralRectangle<u32>>)
        requires
            self.wf(),
            clip.wf(),
        ensures
            match crate::rectangle::spec_intersect(*clip, self.area.0) {
                None => lines@ == Seq::<GeneralRectangle<u32>>::empty(),
                Some(d) => {
                    let s = self.spec_x_line_start(d);
                    let e = self.spec_x_line_end(d);
                    &&& lines@.len() as int == (if s <= e {
                        e - s
                    } else {
                        0
                    })
                    &&& forall|k: int|
                        0 <= k < lines@.len() ==> lines@[k] == self.spec_x_line_segment(d, s + k)
                },
            },
    {
        let mut lines: Vec<GeneralRectangle<u32>> = Vec::new();
        match clip.intersect(&self.area.0) {
            None => lines,
            Some(d) => {
                let b = self.box_size;
                let area = self.area.0;
                let dx: u32 = d.x - area.x;
                let xr64: u64 = d.x as u64 + d.width as u64 - area.x as u64;
                let s64: u64 = (dx as u64 + b as u64 - 1) / (b as u64);
                let e_raw: u64 = (xr64 + b as u64 - 1) / (b as u64);
                let cap: u64 = self.x_box_cnt as u64 + 1;
                let e64: u64 = if cap < e_raw {
                    cap
                } else {
                    e_raw
                };
                proof {
                    self.lemma_line_start_capped(dx as int, self.x_box_cnt as int);
                    self.lemma_box_cnt_small();
                }
                let s: u32 = s64 as u32;
                let e: u32 = e64 as u32;
                let ghost gd = d;
                let mut k = s;
                while k < e
                    invariant
                        self.wf(),
                        crate::rectangle::spec_intersect(*clip, self.area.0) == Some(gd),
                        b == self.box_size,
                        area == self.area.0,
                        gd == d,
                        dx == gd.x - area.x,
                        xr64 == spec_right(gd) - area.x,
                        s as int == self.spec_x_line_start(gd),
                        e as int == self.spec_x_line_end(gd),
                        e as int <= (xr64 + b - 1) / (b as int),
                        s <= k <= e || (s > e && k == s),
                        lines@.len() as int == k - s,
                        forall|idx: int|
                            0 <= idx < lines@.len() ==> lines@[idx] == self.spec_x_line_segment(
                                gd,
                                s + idx,
                            ),
                    decreases e - k,
                {
                    proof {
                        Grid::lemma_line_multiple_bounds(
                            k as int,
                            s as int,
                            e as int,
                            dx as int,
                            xr64 as int,
                            b as int,
                        );
                    }
                    let start_y = crate::rectangle::partial_max(area.y, d.y);
                    let line = GeneralRectangle {
                        x: area.x + b * k,
                        y: start_y,
                        width: 0,
                        height: area.height,
                    };
                    match d.intersect(&line) {
                        Some(segment) => {
                            lines.push(segment);
                        },
                        None => {},
                    }
                    k = k + 1;
                }
                lines
            },
        }
    }

    /// The horizontal grid lines crossing the clip rectangle, each clipped
    /// to the intersection of the clip with the pixel area: one zero-height
    /// segment per line, in increasing order.
    pub fn axis_lines_y(&self, clip: &Rectangle) -> (lines: Vec<GeneralRectangle<u32>>)
        requires
            self.wf(),
            clip.wf(),
        ensures
            match crate::rectangle::spec_intersect(*clip, self.area.0) {
                None => lines@ == Seq::<GeneralRectangle<u32>>::empty(),
                Some(d) => {
                    let s = self.spec_y_line_start(d);
                    let e = self.spec_y_line_end(d);
                    &&& lines@.len() as int == (if s <= e {
                        e - s
                    } else {
                        0
                    })
                    &&& forall|k: int|
                        0 <= k < lines@.len() ==> lines@[k] == self.spec_y_line_segment(d, s + k)
                },
            },
    {
        let mut lines: Vec<GeneralRectangle<u32>> = Vec::new();
        match clip.intersect(&self.area.0) {
            None => lines,
            Some(d) => {
                let b = self.box_size;
                let area = self.area.0;
                let dy: u32 = d.y - area.y;
                let yr64: u64 = d.y as u64 + d.height as u64 - area.y as u64;
                let s64: u64 = (dy as u64 + b as u64 - 1) / (b as u64);
                let e_raw: u64 = (yr64 + b as u64 - 1) / (b as u64);
                let cap: u64 = self.y_box_cnt as u64 + 1;
                let e64: u64 = if cap < e_raw {
                    cap
                } else {
                    e_raw
                };
                proof {
                    self.lemma_line_start_capped(dy as int, self.y_box_cnt as int);
                    self.lemma_box_cnt_small();
                }
                let s: u32 = s64 as u32;
                let e: u32 = e64 as u32;
                let ghost gd = d;
                let mut k = s;
                while k < e
                    invariant
                        self.wf(),
                        crate::rectangle::spec_intersect(*clip, self.area.0) == Some(gd),
                        b == self.box_size,
                        area == self.area.0,
                        gd == d,
                        dy == gd.y - area.y,
                        yr64 == spec_bottom(gd) - area.y,
                        s as int == self.spec_y_line_start(gd),
                        e as int == self.spec_y_line_end(gd),
                        e as int <= (yr64 + b - 1) / (b as int),
                        s <= k <= e || (s > e && k == s),
                        lines@.len() as int == k - s,
                        forall|idx: int|
                            0 <= idx < lines@.len() ==> lines@[idx] == self.spec_y_line_segment(
                                gd,
                                s + idx,
                            ),
                    decreases e - k,
                {
                    proof {
                        Grid::lemma_line_multiple_bounds(
                            k as int,
                            s as int,
                            e as int,
                            dy as int,
                            yr64 as int,
                            b as int,
                        );
                    }
                    let start_x = crate::rectangle::partial_max(area.x, d.x);
                    let line = GeneralRectangle {
                        x: start_x,
                        y: area.y + b * k,
                        width: area.width,
                        height: 0,
                    };
                    match d.intersect(&line) {
                        Some(segment) => {
                            lines.push(segment);
                        },
                        None => {},
                    }
                    k = k + 1;
                }
                lines
            },
        }
    }

    /// The box counts stay clear of the coordinate type's ceiling, so an
    /// index one past a count still fits.
    pub(crate) proof fn lemma_box_cnt_small(&self)
        requires
            self.wf(),
        ensures
            self.x_box_cnt < u32::MAX,
            self.y_box_cnt < u32::MAX,
    {
        let b = self.box_size as int;
        assert(self.x_box_cnt * b >= self.x_box_cnt * 2) by (nonlinear_arith)
            requires
                b >= 2,
                self.x_box_cnt >= 0,
        ;
        assert(self.y_box_cnt * b >= self.y_box_cnt * 2) by (nonlinear_arith)
            requires
                b >= 2,
                self.y_box_cnt >= 0,
        ;
    }
}

} // verus!
