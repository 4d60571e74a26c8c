//! The coordinate-system abstraction: a cell's position type and the
//! enumeration of its neighbors' positions.
use vstd::prelude::*;

mod classic_2d_cell;
mod classic_3d_cell;
mod hexagon_2d_cell;
mod moore_2d_cell;
mod moore_3d_cell;
mod neumann_2d_cell;
mod neumann_3d_cell;

pub use classic_2d_cell::Cell2d;
pub use classic_3d_cell::Cell3d;
pub use hexagon_2d_cell::HexagonCell2d;
pub use moore_2d_cell::MooreCell2d;
pub use moore_3d_cell::MooreCell3d;
pub use neumann_2d_cell::NeumannCell2d;
pub use neumann_3d_cell::NeumannCell3d;

verus! {

/// A cell of some topology: it owns a position and can enumerate, in a fixed
/// deterministic order, the positions adjacent to it.
///
/// Every coordinate-system type (2d, 3d, hexagonal, and so on) implements this
/// trait and chooses an associated `Coordinates` type. The positions an
/// implementation returns need not be occupied: resolving them against the
/// population is the engine's concern, and unoccupied positions simply
/// contribute no neighbor.
pub trait Cell: Sized + Clone {
    /// Associated coordinates type.
    type Coordinates;

    /// The cell's own position.
    spec fn spec_coords(&self) -> Self::Coordinates;

    /// The exact sequence of neighboring positions, in the topology's
    /// documented order. Its length and order depend only on the topology.
    spec fn spec_neighbors(&self) -> Seq<Self::Coordinates>;

    /// The cell is far enough from the edge of its coordinate space that
    /// every neighboring position is representable.
    spec fn coords_in_range(&self) -> bool;

    /// Retrieves the cell's position.
    fn coords(&self) -> (c: &Self::Coordinates)
        ensures
            *c == self.spec_coords(),
    ;

    /// Retrieves the positions of the neighbor cells.
    fn neighbor_coordinates(&self) -> (r: Vec<Self::Coordinates>)
        requires
            self.coords_in_range(),
        ensures
            r@ == self.spec_neighbors(),
    ;

    /// Duplicates a position value.
    fn clone_coordinates(c: &Self::Coordinates) -> (r: Self::Coordinates)
        ensures
            r == *c,
    ;

    /// Decides equality of two position values.
    fn coordinates_eq(a: &Self::Coordinates, b: &Self::Coordinates) -> (r: bool)
        ensures
            r == (a == b),
    ;

    /// Duplicates the cell.
    fn clone_cell(&self) -> (r: Self)
        ensures
            r == *self,
    ;
}

} // verus!
