use cellular_automaton::CellState;
use cellular_automaton::ClassicCellState;
use cellular_automaton::ConwayCell4555State;
use cellular_automaton::ConwayCellState;
use cellular_automaton::CyclicColorCellState;
use cellular_automaton::ImmigrationCellState;
use cellular_automaton::WireWorldCellState;
use cellular_automaton::WorldWireCellState;

#[test]
fn classic_state_overpopulation_rule() {
    let cell_state = ClassicCellState(true);

    // 4 alive neighbors
    let neighbors: Vec<ClassicCellState> = vec![
        false.into(),
        true.into(),
        false.into(),
        true.into(),
        true.into(),
        true.into(),
        false.into(),
        false.into(),
    ];

    let new_state = cell_state.new_cell_state(&neighbors);
    assert!(!new_state.0);
    // 8 alive neighbors
    let neighbors: Vec<ClassicCellState> = vec![
        true.into(),
        true.into(),
        true.into(),
        true.into(),
        true.into(),
        true.into(),
        true.into(),
        true.into(),
    ];

    let new_state = cell_state.new_cell_state(&neighbors);
    assert!(!new_state.0);
}

#[test]
fn classic_state_generation_rule() {
    let cell_state = ClassicCellState(true);

    // 3 alive neighbors
    let neighbors: Vec<ClassicCellState> = vec![
        false.into(),
        true.into(),
        false.into(),
        true.into(),
        false.into(),
        true.into(),
        false.into(),
        false.into(),
    ];

    let new_state = cell_state.new_cell_state(&neighbors);
    assert!(new_state.0);

    // 2 alive neighbors
    let neighbors: Vec<ClassicCellState> = vec![
        false.into(),
        true.into(),
        false.into(),
        false.into(),
        false.into(),
        true.into(),
        false.into(),
        false.into(),
    ];

    let new_state = cell_state.new_cell_state(&neighbors);
    assert!(new_state.0);

    // 2 alive neighbors but "off"
    let cell_state = ClassicCellState(false);
    let neighbors: Vec<ClassicCellState> = vec![
        false.into(),
        true.into(),
        false.into(),
        false.into(),
        false.into(),
        true.into(),
        false.into(),
        false.into(),
    ];

    let new_state = cell_state.new_cell_state(&neighbors);
    assert!(!new_state.0);
}

#[test]
fn classic_state_reproduction_rule() {
    let cell_state = ClassicCellState(false);

    // 3 alive neighbors
    let neighbors: Vec<ClassicCellState> = vec![
        false.into(),
        true.into(),
        false.into(),
        true.into(),
        false.into(),
        true.into(),
        false.into(),
        false.into(),
    ];

    let new_state = cell_state.new_cell_state(&neighbors);
    assert!(new_state.0);
}

#[test]
fn classic_state_underpopulation_rule() {
    let cell_state = ClassicCellState(true);

    // 1 alive neighbors
    let neighbors: Vec<ClassicCellState> = vec![
        false.into(),
        false.into(),
        false.into(),
        false.into(),
        false.into(),
        true.into(),
        false.into(),
        false.into(),
    ];

    let new_state = cell_state.new_cell_state(&neighbors);
    assert!(!new_state.0);

    // 0 alive neighbors
    let neighbors: Vec<ClassicCellState> = vec![
        false.into(),
        false.into(),
        false.into(),
        false.into(),
        false.into(),
        false.into(),
        false.into(),
        false.into(),
    ];

    let new_state = cell_state.new_cell_state(&neighbors);
    assert!(!new_state.0);
}

#[test]
fn conway_state_overpopulation_rule() {
    let cell_state = ConwayCellState(true);

    // 4 alive neighbors
    let neighbors: Vec<ConwayCellState> = vec![
        false.into(),
        true.into(),
        false.into(),
        true.into(),
        true.into(),
        true.into(),
        false.into(),
        false.into(),
    ];

    let new_state = cell_state.new_cell_state(&neighbors);
    assert!(!new_state.0);
    // 8 alive neighbors
    let neighbors: Vec<ConwayCellState> = vec![
        true.into(),
        true.into(),
        true.into(),
        true.into(),
        true.into(),
        true.into(),
        true.into(),
        true.into(),
    ];

    let new_state = cell_state.new_cell_state(&neighbors);
    assert!(!new_state.0);
}

#[test]
fn conway_state_generation_rule() {
    let cell_state = ConwayCellState(true);

    // 3 alive neighbors
    let neighbors: Vec<ConwayCellState> = vec![
        false.into(),
        true.into(),
        false.into(),
        true.into(),
        false.into(),
        true.into(),
        false.into(),
        false.into(),
    ];

    let new_state = cell_state.new_cell_state(&neighbors);
    assert!(new_state.0);

    // 2 alive neighbors
    let neighbors: Vec<ConwayCellState> = vec![
        false.into(),
        true.into(),
        false.into(),
        false.into(),
        false.into(),
        true.into(),
        false.into(),
        false.into(),
    ];

    let new_state = cell_state.new_cell_state(&neighbors);
    assert!(new_state.0);

    // 2 alive neighbors but "off"
    let cell_state = ConwayCellState(false);
    let neighbors: Vec<ConwayCellState> = vec![
        false.into(),
        true.into(),
        false.into(),
        false.into(),
        false.into(),
        true.into(),
        false.into(),
        false.into(),
    ];

    let new_state = cell_state.new_cell_state(&neighbors);
    assert!(!new_state.0);
}

#[test]
fn conway_state_reproduction_rule() {
    let cell_state = ConwayCellState(false);

    // 3 alive neighbors
    let neighbors: Vec<ConwayCellState> = vec![
        false.into(),
        true.into(),
        false.into(),
        true.into(),
        false.into(),
        true.into(),
        false.into(),
        false.into(),
    ];

    let new_state = cell_state.new_cell_state(&neighbors);
    assert!(new_state.0);
}

#[test]
fn conway_state_underpopulation_rule() {
    let cell_state = ConwayCellState(true);

    // 1 alive neighbors
    let neighbors: Vec<ConwayCellState> = vec![
        false.into(),
        false.into(),
        false.into(),
        false.into(),
        false.into(),
        true.into(),
        false.into(),
        false.into(),
    ];

    let new_state = cell_state.new_cell_state(&neighbors);
    assert!(!new_state.0);

    // 0 alive neighbors
    let neighbors: Vec<ConwayCellState> = vec![
        false.into(),
        false.into(),
        false.into(),
        false.into(),
        false.into(),
        false.into(),
        false.into(),
        false.into(),
    ];

    let new_state = cell_state.new_cell_state(&neighbors);
    assert!(!new_state.0);
}

#[test]
fn conway_4555_state_rules() {
    // A live cell with four live neighbors survives.
    let neighbors: Vec<ConwayCell4555State> = vec![
        true.into(),
        true.into(),
        true.into(),
        true.into(),
        false.into(),
        false.into(),
    ];
    assert!(ConwayCell4555State(true).new_cell_state(&neighbors).0);
    // A dead cell with four live neighbors stays dead.
    assert!(!ConwayCell4555State(false).new_cell_state(&neighbors).0);
    // A dead cell with five live neighbors comes alive.
    let neighbors: Vec<ConwayCell4555State> = vec![
        true.into(),
        true.into(),
        true.into(),
        true.into(),
        true.into(),
        false.into(),
    ];
    assert!(ConwayCell4555State(false).new_cell_state(&neighbors).0);
    // A live cell with six live neighbors dies.
    let neighbors: Vec<ConwayCell4555State> = vec![
        true.into(),
        true.into(),
        true.into(),
        true.into(),
        true.into(),
        true.into(),
    ];
    assert!(!ConwayCell4555State(true).new_cell_state(&neighbors).0);
    // A live cell with three live neighbors dies.
    let neighbors: Vec<ConwayCell4555State> =
        vec![true.into(), true.into(), true.into(), false.into()];
    assert!(!ConwayCell4555State(true).new_cell_state(&neighbors).0);
}

#[test]
fn wire_world_head_always_becomes_tail() {
    let neighbors = vec![
        WireWorldCellState::ElectronHead,
        WireWorldCellState::ElectronTail,
        WireWorldCellState::Conductor,
    ];
    assert_eq!(
        WireWorldCellState::ElectronHead.new_cell_state(&neighbors),
        WireWorldCellState::ElectronTail
    );
    let no_neighbors: Vec<WireWorldCellState> = vec![];
    assert_eq!(
        WireWorldCellState::ElectronHead.new_cell_state(&no_neighbors),
        WireWorldCellState::ElectronTail
    );
}

#[test]
fn wire_world_tail_always_becomes_conductor() {
    let neighbors = vec![
        WireWorldCellState::ElectronHead,
        WireWorldCellState::ElectronHead,
    ];
    assert_eq!(
        WireWorldCellState::ElectronTail.new_cell_state(&neighbors),
        WireWorldCellState::Conductor
    );
}

#[test]
fn wire_world_conductor_ignition() {
    // One head neighbor ignites.
    let neighbors = vec![
        WireWorldCellState::ElectronHead,
        WireWorldCellState::Conductor,
        WireWorldCellState::ElectronTail,
    ];
    assert_eq!(
        WireWorldCellState::Conductor.new_cell_state(&neighbors),
        WireWorldCellState::ElectronHead
    );
    // Two head neighbors ignite.
    let neighbors = vec![
        WireWorldCellState::ElectronHead,
        WireWorldCellState::ElectronHead,
        WireWorldCellState::Conductor,
    ];
    assert_eq!(
        WireWorldCellState::Conductor.new_cell_state(&neighbors),
        WireWorldCellState::ElectronHead
    );
    // Three head neighbors do not.
    let neighbors = vec![
        WireWorldCellState::ElectronHead,
        WireWorldCellState::ElectronHead,
        WireWorldCellState::ElectronHead,
    ];
    assert_eq!(
        WireWorldCellState::Conductor.new_cell_state(&neighbors),
        WireWorldCellState::Conductor
    );
    // No head neighbor does not.
    let neighbors = vec![WireWorldCellState::ElectronTail, WireWorldCellState::Conductor];
    assert_eq!(
        WireWorldCellState::Conductor.new_cell_state(&neighbors),
        WireWorldCellState::Conductor
    );
}

#[test]
fn world_wire_state_matches_wire_world() {
    let neighbors = vec![
        WorldWireCellState::ElectronHead,
        WorldWireCellState::Conductor,
    ];
    assert!(matches!(
        WorldWireCellState::Conductor.new_cell_state(&neighbors),
        WorldWireCellState::ElectronHead
    ));
    assert!(matches!(
        WorldWireCellState::ElectronHead.new_cell_state(&neighbors),
        WorldWireCellState::ElectronTail
    ));
    assert!(matches!(
        WorldWireCellState::ElectronTail.new_cell_state(&neighbors),
        WorldWireCellState::Conductor
    ));
}

#[test]
fn cyclic_state_consumed_by_successor() {
    // A neighbor holding the successor value consumes the cell.
    let neighbors = vec![
        CyclicColorCellState(0),
        CyclicColorCellState(4),
        CyclicColorCellState(7),
    ];
    assert_eq!(
        CyclicColorCellState(3).new_cell_state(&neighbors),
        CyclicColorCellState(4)
    );
    // Without the successor among the neighbors the cell is unchanged.
    assert_eq!(
        CyclicColorCellState(1).new_cell_state(&neighbors),
        CyclicColorCellState(1)
    );
}

#[test]
fn cyclic_state_wraps_around() {
    // 0 is the successor of 8.
    let neighbors = vec![CyclicColorCellState(0)];
    assert_eq!(
        CyclicColorCellState(8).new_cell_state(&neighbors),
        CyclicColorCellState(0)
    );
    let neighbors = vec![CyclicColorCellState(8)];
    assert_eq!(
        CyclicColorCellState(8).new_cell_state(&neighbors),
        CyclicColorCellState(8)
    );
}

#[test]
fn cyclic_state_max_index() {
    assert_eq!(CyclicColorCellState::max_index(), 9);
}

#[test]
fn immigration_state_birth_takes_majority() {
    // Three live neighbors, two of them `true`: birth as `true`.
    let neighbors = vec![
        ImmigrationCellState::Alive(true),
        ImmigrationCellState::Alive(true),
        ImmigrationCellState::Alive(false),
        ImmigrationCellState::Dead,
    ];
    assert_eq!(
        ImmigrationCellState::Dead.new_cell_state(&neighbors),
        ImmigrationCellState::Alive(true)
    );
    // Three live neighbors, two of them `false`: birth as `false`.
    let neighbors = vec![
        ImmigrationCellState::Alive(false),
        ImmigrationCellState::Alive(true),
        ImmigrationCellState::Alive(false),
    ];
    assert_eq!(
        ImmigrationCellState::Dead.new_cell_state(&neighbors),
        ImmigrationCellState::Alive(false)
    );
}

#[test]
fn immigration_state_survival_and_death() {
    let two_alive = vec![
        ImmigrationCellState::Alive(false),
        ImmigrationCellState::Alive(true),
        ImmigrationCellState::Dead,
    ];
    // A live cell with two live neighbors keeps its own sub-state.
    assert_eq!(
        ImmigrationCellState::Alive(true).new_cell_state(&two_alive),
        ImmigrationCellState::Alive(true)
    );
    // A live cell with one live neighbor dies.
    let one_alive = vec![ImmigrationCellState::Alive(true), ImmigrationCellState::Dead];
    assert_eq!(
        ImmigrationCellState::Alive(false).new_cell_state(&one_alive),
        ImmigrationCellState::Dead
    );
    // A dead cell with two live neighbors stays dead.
    assert_eq!(
        ImmigrationCellState::Dead.new_cell_state(&two_alive),
        ImmigrationCellState::Dead
    );
}

#[test]
fn immigration_state_is_alive() {
    assert!(ImmigrationCellState::Alive(true).is_alive());
    assert!(ImmigrationCellState::Alive(false).is_alive());
    assert!(!ImmigrationCellState::Dead.is_alive());
}

#[test]
fn rule_results_are_order_independent() {
    // The same neighbor multiset in different orders gives equal results,
    // and repeating a call gives equal results.
    let a: Vec<ConwayCellState> = vec![
        true.into(),
        false.into(),
        true.into(),
        true.into(),
        false.into(),
    ];
    let b: Vec<ConwayCellState> = vec![
        false.into(),
        true.into(),
        true.into(),
        false.into(),
        true.into(),
    ];
    let state = ConwayCellState(false);
    assert_eq!(state.new_cell_state(&a), state.new_cell_state(&b));
    assert_eq!(state.new_cell_state(&a), state.new_cell_state(&a));

    let a = vec![
        WireWorldCellState::ElectronHead,
        WireWorldCellState::Conductor,
        WireWorldCellState::ElectronTail,
    ];
    let b = vec![
        WireWorldCellState::ElectronTail,
        WireWorldCellState::ElectronHead,
        WireWorldCellState::Conductor,
    ];
    let state = WireWorldCellState::Conductor;
    assert_eq!(state.new_cell_state(&a), state.new_cell_state(&b));
}

#[test]
fn state_defaults() {
    assert_eq!(ClassicCellState::default(), ClassicCellState(false));
    assert_eq!(ConwayCellState::default(), ConwayCellState(false));
    assert_eq!(ConwayCell4555State::default(), ConwayCell4555State(false));
    assert_eq!(CyclicColorCellState::default(), CyclicColorCellState(0));
    assert_eq!(ImmigrationCellState::default(), ImmigrationCellState::Dead);
    assert_eq!(WireWorldCellState::default(), WireWorldCellState::Conductor);
    assert!(matches!(
        WorldWireCellState::default(),
        WorldWireCellState::Conductor
    ));
}
