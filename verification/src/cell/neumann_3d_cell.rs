//! Cubic 3D cells with the six-cell von Neumann neighborhood.
use vstd::prelude::*;

use crate::cell::Cell;
use crate::coordinates::IVec3;

verus! {

/// Von Neumann 3D cell: a cube with 6 neighbors, one through each face, using
/// [`IVec3`] coordinates.
#[derive(Debug, Clone, PartialEq, Eq, Structural)]
pub struct NeumannCell3d {
    /// The 3D cell coordinates
    pub coords: IVec3,
}

impl Cell for NeumannCell3d {
    type Coordinates = IVec3;

    open spec fn spec_coords(&self) -> IVec3 {
        self.coords
    }

    /// Center below, then left, top, right, bottom, then center above.
    open spec fn spec_neighbors(&self) -> Seq<IVec3> {
        seq![
            self.coords.spec_offset(0, 0, -1),
            self.coords.spec_offset(-1, 0, 0),
            self.coords.spec_offset(0, 1, 0),
            self.coords.spec_offset(1, 0, 0),
            self.coords.spec_offset(0, -1, 0),
            self.coords.spec_offset(0, 0, 1),
        ]
    }

    open spec fn coords_in_range(&self) -> bool {
        self.coords.adjacent_in_range()
    }

    fn coords(&self) -> &IVec3 {
        &self.coords
    }

    fn neighbor_coordinates(&self) -> (r: Vec<IVec3>) {
        let r: Vec<IVec3> = vec![
            IVec3::new(self.coords.x, self.coords.y, self.coords.z - 1),
            IVec3::new(self.coords.x - 1, self.coords.y, self.coords.z),
            IVec3::new(self.coords.x, self.coords.y + 1, self.coords.z),
            IVec3::new(self.coords.x + 1, self.coords.y, self.coords.z),
            IVec3::new(self.coords.x, self.coords.y - 1, self.coords.z),
            IVec3::new(self.coords.x, self.coords.y, self.coords.z + 1),
        ];
        proof {
            assert(r@ =~= self.spec_neighbors());
        }
        r
    }

    fn clone_coordinates(c: &IVec3) -> IVec3 {
        *c
    }

    fn coordinates_eq(a: &IVec3, b: &IVec3) -> bool {
        *a == *b
    }

    fn clone_cell(&self) -> Self {
        NeumannCell3d { coords: self.coords }
    }
}

impl NeumannCell3d {
    /// Instantiates a new cell with `coords` values
    pub fn new(coords: IVec3) -> (r: Self)
        ensures
            r == (NeumannCell3d { coords }),
    {
        Self { coords }
    }
}

} // verus!
