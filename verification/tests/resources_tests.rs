use cellular_automaton::Cell;
use cellular_automaton::Cell2d;
use cellular_automaton::ClassicCellState;
use cellular_automaton::IVec2;
use cellular_automaton::IVec3;
use cellular_automaton::NewCell2d;
use cellular_automaton::NewCell3d;
use cellular_automaton::NewClassicCellState;
use cellular_automaton::NewWireWorldCellState;
use cellular_automaton::RuleSet;
use cellular_automaton::SimulationBatch;
use cellular_automaton::WorldWireCellState;
use cellular_automaton::DEFAULT_BATCH_SIZE;

#[test]
fn rule_set_default_thresholds() {
    let rules = RuleSet::default();
    assert_eq!(rules.underpopulation_threshold, 2);
    assert_eq!(rules.overpopulation_threshold, 3);
    assert_eq!(rules.reproduction_value, vec![3]);
}

#[test]
fn simulation_batch_default_size() {
    assert_eq!(SimulationBatch::default().batch_size, DEFAULT_BATCH_SIZE);
    assert_eq!(DEFAULT_BATCH_SIZE, 1024);
}

#[test]
fn new_cell_markers() {
    let marker = NewCell2d::new(IVec2::new(3, 4));
    assert_eq!(marker.0.coords, IVec2::new(3, 4));
    let marker = NewCell3d::new(IVec3::new(1, 2, 3));
    assert_eq!(marker.0.coords, IVec3::new(1, 2, 3));
}

#[test]
fn new_state_markers() {
    let marker = NewClassicCellState::new(true);
    assert_eq!(marker.0, ClassicCellState(true));
    let marker = NewWireWorldCellState::new(WorldWireCellState::ElectronHead);
    assert!(matches!(marker.0, WorldWireCellState::ElectronHead));
}

#[test]
fn coordinate_defaults() {
    assert_eq!(IVec2::default(), IVec2::new(0, 0));
    assert_eq!(IVec3::default(), IVec3::new(0, 0, 0));
}

#[test]
fn classic_cell_type_is_moore_shaped() {
    let cell = Cell2d {
        coords: IVec2::new(2, 2),
    };
    assert_eq!(cell.neighbor_coordinates().len(), 8);
}
