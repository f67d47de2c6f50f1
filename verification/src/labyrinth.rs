//! The labyrinth: a grid paired with the marked-box store, a dense
//! two-dimensional array of box states addressed by grid coordinates.  The
//! two are built together, replaced together, and never resized in place.

use vstd::prelude::*;
use crate::basic_types::{GeneralColor, LabyrinthError};
use crate::grid::{
    GeneralPoint, GeneralPointInScreenCoordinates, Grid, TwoDimensionalRange,
};
use crate::marked::{marked_cells, marked_dim, MarkedArray};
use crate::rectangle::{spec_bottom, spec_right, Rectangle};

verus! {

/// The state of one box of the labyrinth.
#[derive(Debug, Copy, Clone, Eq, PartialEq, Structural)]
pub enum BoxState {
    Empty,
    Labyrinth,
}

impl Default for BoxState {
    /// A box starts out unmarked.
    fn default() -> (r: BoxState)
        ensures
            r == BoxState::Empty,
    {
        BoxState::Empty
    }
}

impl BoxState {
    /// The colour a box of this state is painted with: white when empty,
    /// blue when marked.
    pub fn color(&self) -> (c: GeneralColor<u32>)
        ensures
            c == (match self {
                BoxState::Empty => GeneralColor { red: 255u32, green: 255u32, blue: 255u32 },
                BoxState::Labyrinth => GeneralColor { red: 0u32, green: 0u32, blue: 255u32 },
            }),
    {
        match self {
            BoxState::Empty => GeneralColor::<u32>::get_white(),
            BoxState::Labyrinth => GeneralColor::<u32>::get_blue(),
        }
    }
}

/// One cell of the marked-box store.
#[derive(Debug, Copy, Clone, Eq, PartialEq, Structural)]
pub struct LabyrinthEntry {
    pub state: BoxState,
}

impl Default for LabyrinthEntry {
    /// A cell starts out unmarked.
    fn default() -> (r: LabyrinthEntry)
        ensures
            r == (LabyrinthEntry { state: BoxState::Empty }),
    {
        LabyrinthEntry { state: BoxState::Empty }
    }
}

/// How a box state is stored in the backing array.
pub open spec fn spec_state_to_cell(s: BoxState) -> u8 {
    match s {
        BoxState::Empty => 0,
        BoxState::Labyrinth => 1,
    }
}

/// The box state a stored cell denotes; any non-zero cell reads as marked.
pub open spec fn spec_cell_to_state(v: u8) -> BoxState {
    if v == 0 {
        BoxState::Empty
    } else {
        BoxState::Labyrinth
    }
}

fn state_to_cell(s: BoxState) -> (v: u8)
    ensures
        v == spec_state_to_cell(s),
{
    match s {
        BoxState::Empty => 0,
        BoxState::Labyrinth => 1,
    }
}

fn cell_to_state(v: u8) -> (s: BoxState)
    ensures
        s == spec_cell_to_state(v),
{
    if v == 0 {
        BoxState::Empty
    } else {
        BoxState::Labyrinth
    }
}

/// A grid together with its marked-box store.
#[derive(Debug)]
pub struct Labyrinth {
    pub grid: Grid,
    pub marked: MarkedArray,
}

impl Labyrinth {
    /// Well-formedness: the grid is well formed and the store's dimensions
    /// equal the grid's box counts.
    pub open spec fn wf(&self) -> bool {
        &&& self.grid.wf()
        &&& marked_dim(self.marked) == (self.grid.x_box_cnt as int, self.grid.y_box_cnt as int)
    }

    /// The state stored for the box at `(i, j)`.
    pub open spec fn spec_state_at(&self, i: int, j: int) -> BoxState {
        spec_cell_to_state(marked_cells(self.marked)[(i, j)])
    }

    /// Builds the grid for the given total extent together with a store of
    /// matching dimensions, every box unmarked.  The product bound keeps
    /// the store's allocation within the address space.
    pub fn new(box_size: u32, total_width: u32, total_height: u32) -> (r: Labyrinth)
        requires
            2 <= box_size,
            (total_width as int / box_size as int) * (total_height as int / box_size as int)
                <= usize::MAX / 2,
        ensures
            r.wf(),
            r.grid == Grid::spec_new(box_size, total_width, total_height),
            forall|i: int, j: int|
                0 <= i < r.grid.x_box_cnt && 0 <= j < r.grid.y_box_cnt ==> r.spec_state_at(i, j)
                    == BoxState::Empty,
    {
        let grid = Grid::new(box_size, total_width, total_height);
        proof {
            let b = box_size as int;
            let tw = total_width as int;
            let th = total_height as int;
            let usable_w = tw - 2 * (tw / 32);
            let usable_h = th - 2 * (th / 32);
            let qw = usable_w / b;
            let qh = usable_h / b;
            vstd::arithmetic::div_mod::lemma_fundamental_div_mod(tw, 32);
            vstd::arithmetic::div_mod::lemma_fundamental_div_mod(th, 32);
            vstd::arithmetic::mul::lemma_mul_is_commutative(b, qw);
            vstd::arithmetic::mul::lemma_mul_is_commutative(b, qh);
            vstd::arithmetic::div_mod::lemma_div_multiples_vanish(qw, b);
            vstd::arithmetic::div_mod::lemma_div_multiples_vanish(qh, b);
            assert(grid.x_box_cnt == qw && grid.y_box_cnt == qh);
            vstd::arithmetic::div_mod::lemma_div_pos_is_pos(usable_w, b);
            vstd::arithmetic::div_mod::lemma_div_pos_is_pos(usable_h, b);
            vstd::arithmetic::div_mod::lemma_div_is_ordered(usable_w, tw, b);
            vstd::arithmetic::div_mod::lemma_div_is_ordered(usable_h, th, b);
            vstd::arithmetic::div_mod::lemma_div_is_ordered_by_denominator(tw, 2, b);
            vstd::arithmetic::div_mod::lemma_div_is_ordered_by_denominator(th, 2, b);
            vstd::arithmetic::div_mod::lemma_div_is_ordered(tw, u32::MAX as int, 2);
            vstd::arithmetic::div_mod::lemma_div_is_ordered(th, u32::MAX as int, 2);
            vstd::arithmetic::mul::lemma_mul_upper_bound(qw, tw / b, qh, th / b);
        }
        let marked = MarkedArray::filled(
            grid.x_box_cnt as usize,
            grid.y_box_cnt as usize,
            state_to_cell(BoxState::Empty),
        );
        Labyrinth { grid, marked }
    }

    /// The state of the box at `(x_box, y_box)`; `None` for an index at or
    /// beyond the box counts, never a panic.
    pub fn get(&self, x_box: u32, y_box: u32) -> (r: Option<BoxState>)
        requires
            self.wf(),
        ensures
            r is Some <==> (x_box < self.grid.x_box_cnt && y_box < self.grid.y_box_cnt),
            r matches Some(s) ==> s == self.spec_state_at(x_box as int, y_box as int),
    {
        if x_box < self.grid.x_box_cnt && y_box < self.grid.y_box_cnt {
            Some(cell_to_state(self.marked.read(x_box as usize, y_box as usize)))
        } else {
            None
        }
    }

    /// Writes `state` into the box at `(x_box, y_box)` when the index is in
    /// range and the stored state differs; reports whether anything
    /// changed.
    fn update_marked(&mut self, x_box: u32, y_box: u32, state: BoxState) -> (changed: bool)
        requires
            old(self).wf(),
        ensures
            final(self).wf(),
            final(self).grid == old(self).grid,
            changed == (x_box < old(self).grid.x_box_cnt && y_box < old(self).grid.y_box_cnt
                && old(self).spec_state_at(x_box as int, y_box as int) != state),
            !changed ==> *final(self) == *old(self),
            changed ==> marked_cells(final(self).marked) == marked_cells(old(self).marked).insert(
                (x_box as int, y_box as int),
                spec_state_to_cell(state),
            ),
    {
        if x_box < self.grid.x_box_cnt && y_box < self.grid.y_box_cnt {
            let current = cell_to_state(self.marked.read(x_box as usize, y_box as usize));
            if current != state {
                self.marked.write(x_box as usize, y_box as usize, state_to_cell(state));
                return true;
            }
        }
        false
    }

    /// Marks or clears the box whose interior holds the pixel point, and
    /// returns that box's pixel rectangle exactly when something changed,
    /// so the caller can redraw just that rectangle.  A point on no box, or
    /// a box already in the requested state, changes nothing and yields
    /// `None`.
    pub fn set_state(&mut self, point: (u32, u32), state: BoxState) -> (r: Option<Rectangle>)
        requires
            old(self).wf(),
        ensures
            final(self).wf(),
            final(self).grid == old(self).grid,
            match old(self).grid.spec_pixel_to_box(GeneralPoint { coordinate: point }) {
                None => r is None && *final(self) == *old(self),
                Some(bp) => if old(self).spec_state_at(bp.0 as int, bp.1 as int) == state {
                    r is None && *final(self) == *old(self)
                } else {
                    r == Some(
                        old(self).grid.spec_box_to_pixel(bp.0 as int, bp.1 as int),
                    ) && marked_cells(final(self).marked) == marked_cells(old(self).marked).insert(
                        (bp.0 as int, bp.1 as int),
                        spec_state_to_cell(state),
                    )
                },
            },
    {
        let clicked = self.grid.pixel_to_box(
            GeneralPointInScreenCoordinates(GeneralPoint { coordinate: point }),
        );
        match clicked {
            Some(bp) => {
                let x_box = bp.x();
                let y_box = bp.y();
                if self.update_marked(x_box, y_box, state) {
                    match self.grid.box_to_pixel(&bp) {
                        Ok(rect) => Some(rect.0),
                        Err(_) => None,
                    }
                } else {
                    None
                }
            },
            None => None,
        }
    }

    /// Maps a pixel point to its box index pair; `None` on or outside any
    /// grid line.
    pub fn pixel_to_box(&self, point: (u32, u32)) -> (r: Option<(u32, u32)>)
        requires
            self.wf(),
        ensures
            r == self.grid.spec_pixel_to_box(GeneralPoint { coordinate: point }),
            r matches Some(bp) ==> bp.0 < self.grid.x_box_cnt && bp.1 < self.grid.y_box_cnt,
    {
        match self.grid.pixel_to_box(
            GeneralPointInScreenCoordinates(GeneralPoint { coordinate: point }),
        ) {
            Some(bp) => Some((bp.x(), bp.y())),
            None => None,
        }
    }

    /// Maps a box index pair to the box's drawn pixel rectangle; fails with
    /// an internal error exactly when an index is at or beyond the box
    /// count.
    pub fn box_to_pixel(&self, index: (u32, u32)) -> (r: Result<Rectangle, LabyrinthError>)
        requires
            self.wf(),
        ensures
            r is Ok <==> (index.0 < self.grid.x_box_cnt && index.1 < self.grid.y_box_cnt),
            r is Ok ==> r->Ok_0 == self.grid.spec_box_to_pixel(index.0 as int, index.1 as int),
            r is Err ==> r->Err_0 is InternalError,
    {
        match self.grid.box_to_pixel(
            &crate::grid::GeneralPointInGridCoordinates(
                GeneralPoint { coordinate: (index.0, index.1) },
            ),
        ) {
            Ok(rect) => Ok(rect.0),
            Err(e) => Err(e),
        }
    }

    /// Maps a pixel rectangle to a pair of half-open box index ranges, its
    /// corners coerced into the grid's pixel area first.  Never fails: a
    /// rectangle wholly outside the area still yields a valid (possibly
    /// empty) pair of ranges.
    pub fn pixel_rectangle_to_box_range(&self, rectangle: &Rectangle) -> (r: Result<
        TwoDimensionalRange,
        LabyrinthError,
    >)
        requires
            self.wf(),
            rectangle.wf(),
        ensures
            r is Ok,
            r matches Ok(ranges) ==> {
                &&& ranges.0.start == self.grid.spec_coerced_box_x(rectangle.x as int)
                &&& ranges.0.end == self.grid.spec_range_end_x(spec_right(*rectangle))
                &&& ranges.1.start == self.grid.spec_coerced_box_y(rectangle.y as int)
                &&& ranges.1.end == self.grid.spec_range_end_y(spec_bottom(*rectangle))
                &&& ranges.0.start <= ranges.0.end <= self.grid.x_box_cnt
                &&& ranges.1.start <= ranges.1.end <= self.grid.y_box_cnt
            },
    {
        let ((tlx, tly), (brx, bry)) = self.grid.coerced_box_bounds(rectangle);
        proof {
            self.grid.lemma_box_cnt_small();
        }
        let end_x = if brx + 1 >= self.grid.x_box_cnt {
            self.grid.x_box_cnt
        } else {
            brx + 1
        };
        let end_y = if bry + 1 >= self.grid.y_box_cnt {
            self.grid.y_box_cnt
        } else {
            bry + 1
        };
        Ok(((tlx as usize)..(end_x as usize), (tly as usize)..(end_y as usize)))
    }

    /// The `(visible rectangle, state)` pairs contributed by boxes
    /// `(i, j0) .. (i, j1)` of one column: each box whose drawn rectangle
    /// overlaps `area`, paired with the overlapping part, in increasing
    /// `j` order.
    pub open spec fn spec_visible_in_column(
        &self,
        area: Rectangle,
        i: int,
        j0: int,
        j1: int,
    ) -> Seq<(Rectangle, BoxState)>
        decreases j1 - j0,
    {
        if j0 >= j1 {
            Seq::empty()
        } else {
            let rest = self.spec_visible_in_column(area, i, j0 + 1, j1);
            match crate::rectangle::spec_intersect(self.grid.spec_box_to_pixel(i, j0), area) {
                Some(part) => seq![(part, self.spec_state_at(i, j0))] + rest,
                None => rest,
            }
        }
    }

    /// The pairs contributed by the columns `i0 .. i1`, each over the row
    /// range `j0 .. j1`, column by column.
    pub open spec fn spec_visible_from(
        &self,
        area: Rectangle,
        i0: int,
        i1: int,
        j0: int,
        j1: int,
    ) -> Seq<(Rectangle, BoxState)>
        decreases i1 - i0,
    {
        if i0 >= i1 {
            Seq::empty()
        } else {
            self.spec_visible_in_column(area, i0, j0, j1) + self.spec_visible_from(
                area,
                i0 + 1,
                i1,
                j0,
                j1,
            )
        }
    }

    /// What `visible_boxes` returns: the visible part and state of every
    /// box in the coerced box range of `area`, in row-major order.
    pub open spec fn spec_visible_boxes(&self, area: Rectangle) -> Seq<(Rectangle, BoxState)> {
        self.spec_visible_from(
            area,
            self.grid.spec_coerced_box_x(area.x as int),
            self.grid.spec_range_end_x(spec_right(area)),
            self.grid.spec_coerced_box_y(area.y as int),
            self.grid.spec_range_end_y(spec_bottom(area)),
        )
    }

    /// Appending one more column.
    proof fn lemma_visible_from_snoc(&self, area: Rectangle, i0: int, i: int, j0: int, j1: int)
        requires
            i0 <= i,
        ensures
            self.spec_visible_from(area, i0, i + 1, j0, j1) == self.spec_visible_from(
                area,
                i0,
                i,
                j0,
                j1,
            ) + self.spec_visible_in_column(area, i, j0, j1),
        decreases i - i0,
    {
        if i0 == i {
            assert(self.spec_visible_from(area, i + 1, i + 1, j0, j1) =~= Seq::<
                (Rectangle, BoxState),
            >::empty());
            assert(self.spec_visible_from(area, i0, i, j0, j1) =~= Seq::<
                (Rectangle, BoxState),
            >::empty());
            assert(self.spec_visible_from(area, i0, i + 1, j0, j1) =~= self.spec_visible_from(
                area,
                i0,
                i,
                j0,
                j1,
            ) + self.spec_visible_in_column(area, i, j0, j1));
        } else {
            self.lemma_visible_from_snoc(area, i0 + 1, i, j0, j1);
            assert(self.spec_visible_from(area, i0, i + 1, j0, j1)
                == self.spec_visible_in_column(area, i0, j0, j1) + self.spec_visible_from(
                area,
                i0 + 1,
                i + 1,
                j0,
                j1,
            ));
            assert(self.spec_visible_from(area, i0, i, j0, j1) == self.spec_visible_in_column(
                area,
                i0,
                j0,
                j1,
            ) + self.spec_visible_from(area, i0 + 1, i, j0, j1));
            assert(self.spec_visible_from(area, i0, i + 1, j0, j1) =~= self.spec_visible_from(
                area,
                i0,
                i,
                j0,
                j1,
            ) + self.spec_visible_in_column(area, i, j0, j1));
        }
    }

    /// Appending one more box to a column.
    proof fn lemma_visible_in_column_snoc(&self, area: Rectangle, i: int, j0: int, j: int)
        requires
            j0 <= j,
        ensures
            self.spec_visible_in_column(area, i, j0, j + 1) == self.spec_visible_in_column(
                area,
                i,
                j0,
                j,
            ) + (match crate::rectangle::spec_intersect(self.grid.spec_box_to_pixel(i, j), area) {
                Some(part) => seq![(part, self.spec_state_at(i, j))],
                None => Seq::empty(),
            }),
        decreases j - j0,
    {
        let tail = (match crate::rectangle::spec_intersect(
            self.grid.spec_box_to_pixel(i, j),
            area,
        ) {
            Some(part) => seq![(part, self.spec_state_at(i, j))],
            None => Seq::<(Rectangle, BoxState)>::empty(),
        });
        if j0 == j {
            assert(self.spec_visible_in_column(area, i, j + 1, j + 1) =~= Seq::<
                (Rectangle, BoxState),
            >::empty());
            assert(self.spec_visible_in_column(area, i, j0, j) =~= Seq::<
                (Rectangle, BoxState),
            >::empty());
            assert(self.spec_visible_in_column(area, i, j0, j + 1)
                =~= self.spec_visible_in_column(area, i, j0, j) + tail);
        } else {
            self.lemma_visible_in_column_snoc(area, i, j0 + 1, j);
            let head = (match crate::rectangle::spec_intersect(
                self.grid.spec_box_to_pixel(i, j0),
                area,
            ) {
                Some(part) => seq![(part, self.spec_state_at(i, j0))],
                None => Seq::<(Rectangle, BoxState)>::empty(),
            });
            assert(self.spec_visible_in_column(area, i, j0, j + 1) =~= head
                + self.spec_visible_in_column(area, i, j0 + 1, j + 1));
            assert(self.spec_visible_in_column(area, i, j0, j) =~= head
                + self.spec_visible_in_column(area, i, j0 + 1, j));
            assert(self.spec_visible_in_column(area, i, j0, j + 1)
                =~= self.spec_visible_in_column(area, i, j0, j) + tail);
        }
    }

    /// Collects, in row-major order over the coerced box range of `area`,
    /// every box whose drawn rectangle overlaps `area`, paired with the
    /// overlapping part of that rectangle.  The order is stable, so a
    /// renderer can paint exactly the boxes a clip rectangle touches.
    pub fn visible_boxes(&self, area: &Rectangle) -> (r: Vec<(Rectangle, BoxState)>)
        requires
            self.wf(),
            area.wf(),
        ensures
            r@ == self.spec_visible_boxes(*area),
    {
        let mut result: Vec<(Rectangle, BoxState)> = Vec::new();
        let (x_range, y_range) = match self.pixel_rectangle_to_box_range(area) {
            Ok(ranges) => ranges,
            Err(_) => {
                return result;
            },
        };
        let i0 = x_range.start;
        let i1 = x_range.end;
        let j0 = y_range.start;
        let j1 = y_range.end;
        let ghost ga = *area;
        let mut i = i0;
        while i < i1
            invariant
                self.wf(),
                ga == *area,
                i0 <= i <= i1,
                i1 <= self.grid.x_box_cnt,
                j0 <= j1 <= self.grid.y_box_cnt,
                i0 as int == self.grid.spec_coerced_box_x(ga.x as int),
                i1 as int == self.grid.spec_range_end_x(spec_right(ga)),
                j0 as int == self.grid.spec_coerced_box_y(ga.y as int),
                j1 as int == self.grid.spec_range_end_y(spec_bottom(ga)),
                result@ == self.spec_visible_from(ga, i0 as int, i as int, j0 as int, j1 as int),
            decreases i1 - i,
        {
            let mut j = j0;
            while j < j1
                invariant
                    self.wf(),
                    ga == *area,
                    i0 <= i < i1,
                    i1 <= self.grid.x_box_cnt,
                    j0 <= j <= j1,
                    j1 <= self.grid.y_box_cnt,
                    result@ == self.spec_visible_from(
                        ga,
                        i0 as int,
                        i as int,
                        j0 as int,
                        j1 as int,
                    ) + self.spec_visible_in_column(ga, i as int, j0 as int, j as int),
                decreases j1 - j,
            {
                proof {
                    assert(i as u32 as int == i as int);
                    assert(j as u32 as int == j as int);
                }
                match self.box_to_pixel((i as u32, j as u32)) {
                    Ok(box_rectangle) => {
                        match box_rectangle.intersect(area) {
                            Some(part) => {
                                let state = match self.get(i as u32, j as u32) {
                                    Some(s) => s,
                                    None => BoxState::Empty,
                                };
                                result.push((part, state));
                            },
                            None => {},
                        }
                    },
                    Err(_) => {},
                }
                proof {
                    self.lemma_visible_in_column_snoc(ga, i as int, j0 as int, j as int);
                    assert(result@ =~= self.spec_visible_from(
                        ga,
                        i0 as int,
                        i as int,
                        j0 as int,
                        j1 as int,
                    ) + self.spec_visible_in_column(ga, i as int, j0 as int, j + 1 as int));
                }
                j = j + 1;
            }
            proof {
                self.lemma_visible_from_snoc(ga, i0 as int, i as int, j0 as int, j1 as int);
            }
            i = i + 1;
        }
        proof {
            assert(result@ =~= self.spec_visible_boxes(ga));
        }
        result
    }
}

/// The top-level state: the configured box size, and the labyrinth, which
/// is absent while the surface has no positive extent.
#[derive(Debug)]
pub struct LabyrinthState {
    pub box_size: u32,
    pub labyrinth: Option<Labyrinth>,
}

impl LabyrinthState {
    /// Well-formedness: whatever labyrinth is present is well formed.
    pub open spec fn wf(&self) -> bool {
        self.labyrinth matches Some(l) ==> l.wf()
    }

    /// The initial state: no labyrinth until the first resize.
    pub fn new(box_size: u32) -> (r: LabyrinthState)
        ensures
            r.box_size == box_size,
            r.labyrinth is None,
    {
        LabyrinthState { box_size, labyrinth: None }
    }
}

} // verus!
