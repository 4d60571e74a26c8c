use cellular_automaton::Cell;
use cellular_automaton::Cell2d;
use cellular_automaton::Cell3d;
use cellular_automaton::HexagonCell2d;
use cellular_automaton::IVec2;
use cellular_automaton::IVec3;
use cellular_automaton::MooreCell2d;
use cellular_automaton::MooreCell3d;
use cellular_automaton::NeumannCell2d;
use cellular_automaton::NeumannCell3d;

#[test]
fn moore_2d_cell_correct_coordinates() {
    let cell = MooreCell2d {
        coords: IVec2::new(10, 10),
    };
    let neighbors = cell.neighbor_coordinates();
    assert_eq!(
        neighbors,
        vec![
            // Left
            IVec2::new(9, 10),
            // Top Left
            IVec2::new(9, 11),
            // Top
            IVec2::new(10, 11),
            // Top Right
            IVec2::new(11, 11),
            // Right
            IVec2::new(11, 10),
            // Bottom Right
            IVec2::new(11, 9),
            // Bottom
            IVec2::new(10, 9),
            // Bottom Left
            IVec2::new(9, 9),
        ]
    )
}

#[test]
fn moore_2d_cell_correct_coordinates_negative() {
    let cell = MooreCell2d {
        coords: IVec2::new(-10, 10),
    };
    let neighbors = cell.neighbor_coordinates();
    assert_eq!(
        neighbors,
        vec![
            // Left
            IVec2::new(-11, 10),
            // Top Left
            IVec2::new(-11, 11),
            // Top
            IVec2::new(-10, 11),
            // Top Right
            IVec2::new(-9, 11),
            // Right
            IVec2::new(-9, 10),
            // Bottom Right
            IVec2::new(-9, 9),
            // Bottom
            IVec2::new(-10, 9),
            // Bottom Left
            IVec2::new(-11, 9),
        ]
    )
}

#[test]
fn moore_2d_cell_correct_coordinates_origin() {
    let cell = MooreCell2d {
        coords: IVec2::new(0, 0),
    };
    let neighbors = cell.neighbor_coordinates();
    assert_eq!(
        neighbors,
        vec![
            // Left
            IVec2::new(-1, 0),
            // Top Left
            IVec2::new(-1, 1),
            // Top
            IVec2::new(0, 1),
            // Top Right
            IVec2::new(1, 1),
            // Right
            IVec2::new(1, 0),
            // Bottom Right
            IVec2::new(1, -1),
            // Bottom
            IVec2::new(0, -1),
            // Bottom Left
            IVec2::new(-1, -1),
        ]
    )
}

#[test]
fn neumann_2d_cell_correct_coordinates() {
    let cell = NeumannCell2d {
        coords: IVec2::new(10, 10),
    };
    let neighbors = cell.neighbor_coordinates();
    assert_eq!(
        neighbors,
        vec![
            // Left
            IVec2::new(9, 10),
            // Top
            IVec2::new(10, 11),
            // Right
            IVec2::new(11, 10),
            // Bottom
            IVec2::new(10, 9),
        ]
    );
}

#[test]
fn neumann_2d_cell_correct_coordinates_negative() {
    let cell = NeumannCell2d {
        coords: IVec2::new(-10, 10),
    };
    let neighbors = cell.neighbor_coordinates();
    assert_eq!(
        neighbors,
        vec![
            // Left
            IVec2::new(-11, 10),
            // Top
            IVec2::new(-10, 11),
            // Right
            IVec2::new(-9, 10),
            // Bottom
            IVec2::new(-10, 9),
        ]
    );
}

#[test]
fn neumann_2d_cell_correct_coordinates_origin() {
    let cell = NeumannCell2d {
        coords: IVec2::new(0, 0),
    };
    let neighbors = cell.neighbor_coordinates();
    assert_eq!(
        neighbors,
        vec![
            // Left
            IVec2::new(-1, 0),
            // Top
            IVec2::new(0, 1),
            // Right
            IVec2::new(1, 0),
            // Bottom
            IVec2::new(0, -1),
        ]
    );
}

#[test]
fn hexagon_2d_cell_correct_coordinates() {
    let cell = HexagonCell2d {
        coords: IVec3::new(10, 10, 10),
    };
    let neighbors = cell.neighbor_coordinates();
    assert_eq!(
        neighbors,
        vec![
            IVec3::new(10, 11, 9),
            IVec3::new(11, 10, 9),
            IVec3::new(11, 9, 10),
            IVec3::new(10, 9, 11),
            IVec3::new(9, 10, 11),
            IVec3::new(9, 11, 10)
        ]
    );
}

#[test]
fn hexagon_2d_cell_correct_coordinates_negative() {
    let cell = HexagonCell2d {
        coords: IVec3::new(-10, 8, 5),
    };
    let neighbors = cell.neighbor_coordinates();
    assert_eq!(
        neighbors,
        vec![
            IVec3::new(-10, 9, 4),
            IVec3::new(-9, 8, 4),
            IVec3::new(-9, 7, 5),
            IVec3::new(-10, 7, 6),
            IVec3::new(-11, 8, 6),
            IVec3::new(-11, 9, 5)
        ]
    );
}

#[test]
fn hexagon_2d_cell_correct_coordinates_origin() {
    let cell = HexagonCell2d {
        coords: IVec3::new(0, 0, 0),
    };
    let neighbors = cell.neighbor_coordinates();
    assert_eq!(
        neighbors,
        vec![
            IVec3::new(0, 1, -1),
            IVec3::new(1, 0, -1),
            IVec3::new(1, -1, 0),
            IVec3::new(0, -1, 1),
            IVec3::new(-1, 0, 1),
            IVec3::new(-1, 1, 0),
        ]
    );
}

#[test]
fn neumann_3d_cell_correct_coordinates_origin() {
    let cell = NeumannCell3d::new(IVec3::new(0, 0, 0));
    let neighbors = cell.neighbor_coordinates();
    assert_eq!(
        neighbors,
        vec![
            IVec3::new(0, 0, -1),
            IVec3::new(-1, 0, 0),
            IVec3::new(0, 1, 0),
            IVec3::new(1, 0, 0),
            IVec3::new(0, -1, 0),
            IVec3::new(0, 0, 1),
        ]
    );
}

#[test]
fn moore_3d_cell_correct_coordinate_count() {
    let cell = MooreCell3d::new(IVec3::new(4, -2, 7));
    let neighbors = cell.neighbor_coordinates();
    assert_eq!(neighbors.len(), 26);
    // The cell itself is not among its neighbors, and each neighbor is
    // adjacent in every axis.
    for n in &neighbors {
        assert_ne!(*n, IVec3::new(4, -2, 7));
        assert!((n.x - 4).abs() <= 1);
        assert!((n.y + 2).abs() <= 1);
        assert!((n.z - 7).abs() <= 1);
    }
    // First entry is the center of the layer below, last the bottom-left of
    // the layer above.
    assert_eq!(neighbors[0], IVec3::new(4, -2, 6));
    assert_eq!(neighbors[25], IVec3::new(3, -3, 8));
}

#[test]
fn classic_2d_cell_correct_coordinates_origin() {
    let cell = Cell2d {
        coords: IVec2::new(0, 0),
    };
    let neighbors = cell.neighbor_coordinates();
    assert_eq!(
        neighbors,
        vec![
            IVec2::new(-1, 0),
            IVec2::new(-1, 1),
            IVec2::new(0, 1),
            IVec2::new(1, 1),
            IVec2::new(1, 0),
            IVec2::new(1, -1),
            IVec2::new(0, -1),
            IVec2::new(-1, -1),
        ]
    );
}

#[test]
fn classic_3d_cell_matches_moore_3d() {
    let a = Cell3d::new(IVec3::new(1, 2, 3));
    let b = MooreCell3d::new(IVec3::new(1, 2, 3));
    assert_eq!(a.neighbor_coordinates(), b.neighbor_coordinates());
}

#[test]
fn cell_coords_accessor() {
    let cell = MooreCell2d::new(IVec2::new(3, -4));
    assert_eq!(*cell.coords(), IVec2::new(3, -4));
    let cell = NeumannCell3d::new(IVec3::new(5, 6, -7));
    assert_eq!(*cell.coords(), IVec3::new(5, 6, -7));
}
