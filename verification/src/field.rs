//! The voxel grid: cells, flat row-major indexing and bounds-checked access.

use vstd::prelude::*;

verus! {

broadcast use vstd::std_specs::vec::axiom_spec_len;

/// Number of real spherical-harmonic basis functions per color channel
/// (degree at most 2).
pub const SPHERICAL_HARMONIC_WIDTH: usize = 9;

/// One voxel. Every scalar is the bit pattern of an IEEE-754 single-precision
/// value; the grid logic only stores, fetches and repacks these words, so it
/// is verified over plain integers while the numeric evaluation of a cell
/// stays outside the verified core.
#[derive(Clone, Copy, Debug, PartialEq)]
pub struct Cell {
    /// Stored opacity sample.
    pub density: u32,
    /// Red-channel spherical-harmonic coefficients.
    pub sh_r: [u32; SPHERICAL_HARMONIC_WIDTH],
    /// Green-channel spherical-harmonic coefficients.
    pub sh_g: [u32; SPHERICAL_HARMONIC_WIDTH],
    /// Blue-channel spherical-harmonic coefficients.
    pub sh_b: [u32; SPHERICAL_HARMONIC_WIDTH],
}

/// Filter used when the field is sampled at a continuous position.
#[derive(Clone, Copy, Debug, Default, PartialEq, Eq, PartialOrd, Ord, Hash)]
pub enum Filtering {
    Nearest,
    #[default]
    Trilinear,
}

/// A cubic grid of cells, `size` on every edge, stored flat in row-major
/// order: the cell at `[x, y, z]` sits at `x + size*y + size*size*z`.
#[derive(Clone, Debug, PartialEq)]
pub struct RadianceField {
    size: usize,
    cells: Vec<Cell>,
}

/// The grid declares a cell count that its backing storage does not hold.
#[derive(Clone, Copy, Debug, PartialEq, Eq)]
pub enum FieldError {
    CellCountMismatch,
}

/// Position of `[x, y, z]` in the flat row-major cell sequence.
pub open spec fn flat_index(size: int, x: int, y: int, z: int) -> int {
    x + size * y + size * size * z
}

/// A coordinate triple below `size` on every axis lands strictly inside the
/// flat storage of `size * size * size` cells, and so do the partial sums
/// that build its flat position up.
#[verifier::nonlinear]
proof fn lemma_flat_index_in_bounds(size: int, x: int, y: int, z: int)
    requires
        0 <= x < size,
        0 <= y < size,
        0 <= z < size,
    ensures
        0 <= flat_index(size, x, y, z) < size * size * size,
        size * y < size * size,
        size * size <= size * size * size,
        size * size * z <= size * size * size - size * size,
{
}

/// A cube is no smaller than the square it grows from.
#[verifier::nonlinear]
proof fn lemma_cube_ge_square(size: int)
    requires
        0 <= size,
    ensures
        size * size <= size * size * size || size == 0,
{
}

impl RadianceField {
    /// Edge length of the grid.
    pub closed spec fn spec_size(&self) -> nat {
        self.size as nat
    }

    /// The flat cell sequence, in row-major order.
    pub closed spec fn spec_cells(&self) -> Seq<Cell> {
        self.cells@
    }

    /// The grid holds exactly the declared number of cells.
    pub open spec fn wf(&self) -> bool {
        self.spec_cells().len() == self.spec_size() * self.spec_size() * self.spec_size()
    }

    /// Whether a 3D index lies inside the grid on every axis.
    pub open spec fn contains_index(&self, index: [usize; 3]) -> bool {
        index[0] < self.spec_size() && index[1] < self.spec_size() && index[2] < self.spec_size()
    }

    /// The flat position of an in-bounds 3D index in this grid.
    pub open spec fn spec_index_of(&self, index: [usize; 3]) -> int {
        flat_index(self.spec_size() as int, index[0] as int, index[1] as int, index[2] as int)
    }

    /// Builds a grid from an edge length and a flat cell sequence, refusing
    /// storage whose length is not exactly the cube of the edge length.
    pub fn new(size: usize, cells: Vec<Cell>) -> (r: Result<Self, FieldError>)
        ensures
            match r {
                Ok(f) => {
                    &&& f.wf()
                    &&& f.spec_size() == size
                    &&& f.spec_cells() == cells@
                    &&& cells@.len() == size * size * size
                },
                Err(FieldError::CellCountMismatch) => cells@.len() != size * size * size,
            },
    {
        let volume = match size.checked_mul(size) {
            Some(square) => square.checked_mul(size),
            None => None,
        };
        proof {
            lemma_cube_ge_square(size as int);
            assert(cells.len() == cells@.len());
        }
        match volume {
            Some(v) if v == cells.len() => Ok(RadianceField { size, cells }),
            _ => Err(FieldError::CellCountMismatch),
        }
    }

    /// Edge length of the grid.
    pub fn size(&self) -> (r: usize)
        ensures
            r == self.spec_size(),
    {
        self.size
    }

    /// The flat cell sequence, for readers that walk the whole grid.
    pub fn cells(&self) -> (r: &Vec<Cell>)
        ensures
            r@ == self.spec_cells(),
    {
        &self.cells
    }

    /// Flat position of a 3D index, as stored.
    pub fn index_of(size: usize, index: [usize; 3]) -> (r: usize)
        requires
            index[0] < size,
            index[1] < size,
            index[2] < size,
            size * size * size <= usize::MAX,
        ensures
            r == flat_index(size as int, index[0] as int, index[1] as int, index[2] as int),
            r < size * size * size,
    {
        proof {
            lemma_flat_index_in_bounds(
                size as int,
                index[0] as int,
                index[1] as int,
                index[2] as int,
            );
        }
        index[0] + size * index[1] + size * size * index[2]
    }

    /// The cell at a 3D index, or nothing when any coordinate is out of
    /// bounds.
    pub fn get(&self, index: [usize; 3]) -> (r: Option<&Cell>)
        requires
            self.wf(),
        ensures
            match r {
                Some(c) => self.contains_index(index) && *c == self.spec_cells()[
                    self.spec_index_of(index)
                ],
                None => !self.contains_index(index),
            },
    {
        if index[0] < self.size && index[1] < self.size && index[2] < self.size {
            proof {
                assert(self.cells.len() == self.spec_cells().len());
            }
            let flat = Self::index_of(self.size, index);
            Some(&self.cells[flat])
        } else {
            None
        }
    }

    /// The cell stored at integer coordinates `(x, y, z)`.
    pub open spec fn cell_at(&self, x: int, y: int, z: int) -> Cell {
        self.spec_cells()[flat_index(self.spec_size() as int, x, y, z)]
    }

    /// Whether the full eight-cell stencil anchored at `lo` stays inside the
    /// grid, that is, `lo` and `lo + 1` are in bounds on every axis.
    pub open spec fn stencil_in_bounds(&self, lo: [usize; 3]) -> bool {
        lo[0] + 1 < self.spec_size() && lo[1] + 1 < self.spec_size() && lo[2] + 1
            < self.spec_size()
    }

    /// Gathers the eight cells that surround the unit cube anchored at `lo`,
    /// ordered so that entry `0bXYZ` carries the cell offset by `X` on the
    /// x axis, `Y` on the y axis and `Z` on the z axis. Returns nothing when
    /// the stencil would leave the grid, which is the explicit bounds proof
    /// that trilinear filtering relies on.
    pub fn trilinear_gather(&self, lo: [usize; 3]) -> (r: Option<[Cell; 8]>)
        requires
            self.wf(),
        ensures
            match r {
                Some(vals) => {
                    &&& self.stencil_in_bounds(lo)
                    &&& vals[0] == self.cell_at(lo[0] as int, lo[1] as int, lo[2] as int)
                    &&& vals[1] == self.cell_at(lo[0] as int, lo[1] as int, lo[2] + 1)
                    &&& vals[2] == self.cell_at(lo[0] as int, lo[1] + 1, lo[2] as int)
                    &&& vals[3] == self.cell_at(lo[0] as int, lo[1] + 1, lo[2] + 1)
                    &&& vals[4] == self.cell_at(lo[0] + 1, lo[1] as int, lo[2] as int)
                    &&& vals[5] == self.cell_at(lo[0] + 1, lo[1] as int, lo[2] + 1)
                    &&& vals[6] == self.cell_at(lo[0] + 1, lo[1] + 1, lo[2] as int)
                    &&& vals[7] == self.cell_at(lo[0] + 1, lo[1] + 1, lo[2] + 1)
                },
                None => !self.stencil_in_bounds(lo),
            },
    {
        if self.size >= 2 && lo[0] < self.size - 1 && lo[1] < self.size - 1 && lo[2] < self.size
            - 1 {
            proof {
                assert(self.cells.len() == self.spec_cells().len());
            }
            let x = lo[0];
            let y = lo[1];
            let z = lo[2];
            let s = self.size;
            Some(
                [
                    self.cells[Self::index_of(s, [x, y, z])],
                    self.cells[Self::index_of(s, [x, y, z + 1])],
                    self.cells[Self::index_of(s, [x, y + 1, z])],
                    self.cells[Self::index_of(s, [x, y + 1, z + 1])],
                    self.cells[Self::index_of(s, [x + 1, y, z])],
                    self.cells[Self::index_of(s, [x + 1, y, z + 1])],
                    self.cells[Self::index_of(s, [x + 1, y + 1, z])],
                    self.cells[Self::index_of(s, [x + 1, y + 1, z + 1])],
                ],
            )
        } else {
            None
        }
    }

    /// Replaces the cell at a 3D index; reports whether the index was in
    /// bounds and the write happened.
    pub fn set(&mut self, index: [usize; 3], cell: Cell) -> (r: bool)
        requires
            old(self).wf(),
        ensures
            final(self).wf(),
            final(self).spec_size() == old(self).spec_size(),
            r == old(self).contains_index(index),
            r ==> final(self).spec_cells() == old(self).spec_cells().update(
                old(self).spec_index_of(index),
                cell,
            ),
            !r ==> *final(self) == *old(self),
    {
        if index[0] < self.size && index[1] < self.size && index[2] < self.size {
            proof {
                assert(self.cells.len() == self.spec_cells().len());
            }
            let flat = Self::index_of(self.size, index);
            self.cells[flat] = cell;
            true
        } else {
            false
        }
    }
}

} // verus!
