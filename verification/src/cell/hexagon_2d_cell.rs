//! Hexagonal 2D cells in cube coordinates.
use vstd::prelude::*;

use crate::cell::Cell;
use crate::coordinates::IVec3;

verus! {

/// Hexagonal 2D cell. It has 6 neighbors and uses [`IVec3`] cube coordinates.
///
/// ````ascii
///               X
///             _____
///            /     \
///           /       \
///     ,----(  0,1,-1 )----.
///    /      \       /      \
///   /        \_____/        \
///   \ -1,1,0 /     \ 1,0,-1  /
///    \      /       \      /
///     )----(  0,0,0  )----(
///    /      \       /      \
///   /        \_____/        \
///   \ -1,0,1 /     \ 1,-1,0  /
/// Y  \      /       \      /  Z
///     `----(  0,-1,1 )----'
///           \       /
///            \_____/
/// ````
#[derive(Debug, Clone, PartialEq, Eq, Structural)]
pub struct HexagonCell2d {
    /// The 2D cell coordinates
    pub coords: IVec3,
}

impl Cell for HexagonCell2d {
    type Coordinates = IVec3;

    open spec fn spec_coords(&self) -> IVec3 {
        self.coords
    }

    /// The six hexagonal directions, clockwise from the top.
    open spec fn spec_neighbors(&self) -> Seq<IVec3> {
        seq![
            self.coords.spec_offset(0, 1, -1),
            self.coords.spec_offset(1, 0, -1),
            self.coords.spec_offset(1, -1, 0),
            self.coords.spec_offset(0, -1, 1),
            self.coords.spec_offset(-1, 0, 1),
            self.coords.spec_offset(-1, 1, 0),
        ]
    }

    open spec fn coords_in_range(&self) -> bool {
        self.coords.adjacent_in_range()
    }

    fn coords(&self) -> &IVec3 {
        &self.coords
    }

    fn neighbor_coordinates(&self) -> (r: Vec<IVec3>) {
        let r: Vec<IVec3> = vec![
            IVec3::new(self.coords.x, self.coords.y + 1, self.coords.z - 1),
            IVec3::new(self.coords.x + 1, self.coords.y, self.coords.z - 1),
            IVec3::new(self.coords.x + 1, self.coords.y - 1, self.coords.z),
            IVec3::new(self.coords.x, self.coords.y - 1, self.coords.z + 1),
            IVec3::new(self.coords.x - 1, self.coords.y, self.coords.z + 1),
            IVec3::new(self.coords.x - 1, self.coords.y + 1, self.coords.z),
        ];
        proof {
            assert(r@ =~= self.spec_neighbors());
        }
        r
    }

    fn clone_coordinates(c: &IVec3) -> IVec3 {
        *c
    }

    fn coordinates_eq(a: &IVec3, b: &IVec3) -> bool {
        *a == *b
    }

    fn clone_cell(&self) -> Self {
        HexagonCell2d { coords: self.coords }
    }
}

impl HexagonCell2d {
    /// Instantiates a new cell with `coords` values
    pub fn new(coords: IVec3) -> (r: Self)
        ensures
            r == (HexagonCell2d { coords }),
    {
        Self { coords }
    }
}

} // verus!
