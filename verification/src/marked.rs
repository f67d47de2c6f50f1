//! Trusted boundary around the dense two-dimensional array that backs the
//! marked-box store.  The array itself comes from the `ndarray` crate and is
//! held opaquely in `MarkedArray`; its contents are modelled by the
//! uninterpreted functions below, and every access from verified code goes
//! through the small wrappers here.

use vstd::prelude::*;

verus! {

/// A dense two-dimensional `u8` array, backed by `ndarray::Array2`.  The
/// verifier sees it only through `marked_cells` and `marked_dim`.
#[derive(Debug)]
#[verifier::external_body]
pub struct MarkedArray {
    cells: ndarray::Array2<u8>,
}

/// The cell contents of a `MarkedArray`, as a map from an
/// `(axis 0, axis 1)` index pair to the element stored there.
pub uninterp spec fn marked_cells(a: MarkedArray) -> Map<(int, int), u8>;

/// The axis lengths of a `MarkedArray`.
pub uninterp spec fn marked_dim(a: MarkedArray) -> (int, int);

impl MarkedArray {
    /// Relies on ndarray's `Array::from_elem`: a freshly allocated `nx` by
    /// `ny` array holding a copy of `elem` in every cell.  `from_elem` panics
    /// when the product of the non-zero axis lengths overflows `isize`, which
    /// the bounds below rule out.
    #[verifier::external_body]
    pub(crate) fn filled(nx: usize, ny: usize, elem: u8) -> (a: MarkedArray)
        requires
            nx <= usize::MAX / 2,
            ny <= usize::MAX / 2,
            nx * ny <= usize::MAX / 2,
        ensures
            marked_dim(a) == (nx as int, ny as int),
            forall|i: int, j: int|
                0 <= i < nx && 0 <= j < ny ==> marked_cells(a)[(i, j)] == elem,
    {
        MarkedArray { cells: ndarray::Array2::from_elem((nx, ny), elem) }
    }

    /// Relies on ndarray's index operator: returns the element at `(x, y)`.
    /// Indexing panics out of bounds, so the index is required to be inside
    /// the array's dimensions.
    #[verifier::external_body]
    pub(crate) fn read(&self, x: usize, y: usize) -> (v: u8)
        requires
            (x as int) < marked_dim(*self).0,
            (y as int) < marked_dim(*self).1,
        ensures
            v == marked_cells(*self)[(x as int, y as int)],
    {
        self.cells[[x, y]]
    }

    /// Relies on ndarray's index operator: overwrites the element at
    /// `(x, y)` and leaves every other cell and the dimensions unchanged.
    /// Indexing panics out of bounds, so the index is required to be inside
    /// the array's dimensions.
    #[verifier::external_body]
    pub(crate) fn write(&mut self, x: usize, y: usize, v: u8)
        requires
            (x as int) < marked_dim(*old(self)).0,
            (y as int) < marked_dim(*old(self)).1,
        ensures
            marked_dim(*final(self)) == marked_dim(*old(self)),
            marked_cells(*final(self)) == marked_cells(*old(self)).insert(
                (x as int, y as int),
                v,
            ),
    {
        self.cells[[x, y]] = v;
    }
}

} // verus!
