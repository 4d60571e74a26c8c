//! Classic cubic 3D cells with the 26-cell neighborhood.
use vstd::prelude::*;

use crate::cell::Cell;
use crate::coordinates::IVec3;

verus! {

/// Classic cube 3D cell: 26 neighbors, [`IVec3`] coordinates.
#[derive(Debug, Clone, PartialEq, Eq, Structural)]
pub struct Cell3d {
    /// The 3D cell coordinates
    pub coords: IVec3,
}

impl Cell for Cell3d {
    type Coordinates = IVec3;

    open spec fn spec_coords(&self) -> IVec3 {
        self.coords
    }

    /// The layer below (center, then left, top left, top, top right, right,
    /// bottom right, bottom, bottom left), the cell's own layer (the same
    /// order without the center), then the layer above as the layer below.
    open spec fn spec_neighbors(&self) -> Seq<IVec3> {
        seq![
            self.coords.spec_offset(0, 0, -1),
            self.coords.spec_offset(-1, 0, -1),
            self.coords.spec_offset(-1, 1, -1),
            self.coords.spec_offset(0, 1, -1),
            self.coords.spec_offset(1, 1, -1),
            self.coords.spec_offset(1, 0, -1),
            self.coords.spec_offset(1, -1, -1),
            self.coords.spec_offset(0, -1, -1),
            self.coords.spec_offset(-1, -1, -1),
            self.coords.spec_offset(-1, 0, 0),
            self.coords.spec_offset(-1, 1, 0),
            self.coords.spec_offset(0, 1, 0),
            self.coords.spec_offset(1, 1, 0),
            self.coords.spec_offset(1, 0, 0),
            self.coords.spec_offset(1, -1, 0),
            self.coords.spec_offset(0, -1, 0),
            self.coords.spec_offset(-1, -1, 0),
            self.coords.spec_offset(0, 0, 1),
            self.coords.spec_offset(-1, 0, 1),
            self.coords.spec_offset(-1, 1, 1),
            self.coords.spec_offset(0, 1, 1),
            self.coords.spec_offset(1, 1, 1),
            self.coords.spec_offset(1, 0, 1),
            self.coords.spec_offset(1, -1, 1),
            self.coords.spec_offset(0, -1, 1),
            self.coords.spec_offset(-1, -1, 1),
        ]
    }

    open spec fn coords_in_range(&self) -> bool {
        self.coords.adjacent_in_range()
    }

    fn coords(&self) -> &IVec3 {
        &self.coords
    }

    fn neighbor_coordinates(&self) -> (r: Vec<IVec3>) {
        let x = self.coords.x;
        let y = self.coords.y;
        let z = self.coords.z;
        let r: Vec<IVec3> = vec![
            IVec3::new(x, y, z - 1),
            IVec3::new(x - 1, y, z - 1),
            IVec3::new(x - 1, y + 1, z - 1),
            IVec3::new(x, y + 1, z - 1),
            IVec3::new(x + 1, y + 1, z - 1),
            IVec3::new(x + 1, y, z - 1),
            IVec3::new(x + 1, y - 1, z - 1),
            IVec3::new(x, y - 1, z - 1),
            IVec3::new(x - 1, y - 1, z - 1),
            IVec3::new(x - 1, y, z),
            IVec3::new(x - 1, y + 1, z),
            IVec3::new(x, y + 1, z),
            IVec3::new(x + 1, y + 1, z),
            IVec3::new(x + 1, y, z),
            IVec3::new(x + 1, y - 1, z),
            IVec3::new(x, y - 1, z),
            IVec3::new(x - 1, y - 1, z),
            IVec3::new(x, y, z + 1),
            IVec3::new(x - 1, y, z + 1),
            IVec3::new(x - 1, y + 1, z + 1),
            IVec3::new(x, y + 1, z + 1),
            IVec3::new(x + 1, y + 1, z + 1),
            IVec3::new(x + 1, y, z + 1),
            IVec3::new(x + 1, y - 1, z + 1),
            IVec3::new(x, y - 1, z + 1),
            IVec3::new(x - 1, y - 1, z + 1),
        ];
        proof {
            assert(r@ =~= self.spec_neighbors());
        }
        r
    }

    fn clone_coordinates(c: &IVec3) -> IVec3 {
        *c
    }

    fn coordinates_eq(a: &IVec3, b: &IVec3) -> bool {
        *a == *b
    }

    fn clone_cell(&self) -> Self {
        Cell3d { coords: self.coords }
    }
}

impl Cell3d {
    /// Instantiates a new cell with `coords` values
    pub fn new(coords: IVec3) -> (r: Self)
        ensures
            r == (Cell3d { coords }),
    {
        Self { coords }
    }
}

} // verus!
