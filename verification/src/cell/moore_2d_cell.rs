//! Square 2D cells with the eight-cell Moore neighborhood.
use vstd::prelude::*;

use crate::cell::Cell;
use crate::coordinates::IVec2;

verus! {

/// Moore 2D cell. It has 8 neighbors and uses [`IVec2`] coordinates.
///
/// ```ascii
/// +-------+-------+-------+
/// |       |       |       |
/// | -1,1  |  0,1  |  1,1  |
/// |       |       |       |
/// +-------+-------+-------+
/// |       |       |       |
/// | -1,0  |  0,0  |  0,1  |
/// |       |       |       |
/// +-------+-------+-------+
/// |       |       |       |
/// | -1,-1 |  0,-1 |  1,-1 |
/// |       |       |       |
/// +-------+-------+-------+
/// ```
#[derive(Debug, Clone, PartialEq, Eq, Structural)]
pub struct MooreCell2d {
    /// The 2D cell coordinates
    pub coords: IVec2,
}

impl Cell for MooreCell2d {
    type Coordinates = IVec2;

    open spec fn spec_coords(&self) -> IVec2 {
        self.coords
    }

    /// Left, top left, top, top right, right, bottom right, bottom,
    /// bottom left.
    open spec fn spec_neighbors(&self) -> Seq<IVec2> {
        seq![
            self.coords.spec_offset(-1, 0),
            self.coords.spec_offset(-1, 1),
            self.coords.spec_offset(0, 1),
            self.coords.spec_offset(1, 1),
            self.coords.spec_offset(1, 0),
            self.coords.spec_offset(1, -1),
            self.coords.spec_offset(0, -1),
            self.coords.spec_offset(-1, -1),
        ]
    }

    open spec fn coords_in_range(&self) -> bool {
        self.coords.adjacent_in_range()
    }

    fn coords(&self) -> &IVec2 {
        &self.coords
    }

    fn neighbor_coordinates(&self) -> (r: Vec<IVec2>) {
        let r: Vec<IVec2> = vec![
            IVec2::new(self.coords.x - 1, self.coords.y),
            IVec2::new(self.coords.x - 1, self.coords.y + 1),
            IVec2::new(self.coords.x, self.coords.y + 1),
            IVec2::new(self.coords.x + 1, self.coords.y + 1),
            IVec2::new(self.coords.x + 1, self.coords.y),
            IVec2::new(self.coords.x + 1, self.coords.y - 1),
            IVec2::new(self.coords.x, self.coords.y - 1),
            IVec2::new(self.coords.x - 1, self.coords.y - 1),
        ];
        proof {
            assert(r@ =~= self.spec_neighbors());
        }
        r
    }

    fn clone_coordinates(c: &IVec2) -> IVec2 {
        *c
    }

    fn coordinates_eq(a: &IVec2, b: &IVec2) -> bool {
        *a == *b
    }

    fn clone_cell(&self) -> Self {
        MooreCell2d { coords: self.coords }
    }
}

impl MooreCell2d {
    /// Instantiates a new cell with `coords` values
    pub fn new(coords: IVec2) -> (r: Self)
        ensures
            r == (MooreCell2d { coords }),
    {
        Self { coords }
    }
}

} // verus!
