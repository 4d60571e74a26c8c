use cellular_automaton::apply_changes;
use cellular_automaton::handle_cell;
use cellular_automaton::handle_cells;
use cellular_automaton::handle_cells_indexed;
use cellular_automaton::handle_new_cells;
use cellular_automaton::handle_removed_cells;
use cellular_automaton::step;
use cellular_automaton::CellMap;
use cellular_automaton::CellRecord;
use cellular_automaton::ConwayCellState;
use cellular_automaton::Entity;
use cellular_automaton::IVec2;
use cellular_automaton::MooreCell2d;
use cellular_automaton::SimulationBatch;
use cellular_automaton::SimulationPause;
use cellular_automaton::DEFAULT_BATCH_SIZE;

/// A 5x5 grid of Conway cells, alive exactly at `alive`.
fn grid(alive: &[(i32, i32)]) -> Vec<CellRecord<MooreCell2d, ConwayCellState>> {
    let mut population = Vec::new();
    let mut id: u64 = 0;
    for x in 0..5 {
        for y in 0..5 {
            let is_alive = alive.iter().any(|&(ax, ay)| ax == x && ay == y);
            population.push(CellRecord {
                entity: Entity(id),
                cell: MooreCell2d::new(IVec2::new(x, y)),
                state: ConwayCellState(is_alive),
            });
            id += 1;
        }
    }
    population
}

fn alive_positions(
    population: &Vec<CellRecord<MooreCell2d, ConwayCellState>>,
) -> Vec<(i32, i32)> {
    let mut alive: Vec<(i32, i32)> = population
        .iter()
        .filter(|r| r.state.0)
        .map(|r| (r.cell.coords.x, r.cell.coords.y))
        .collect();
    alive.sort();
    alive
}

#[test]
fn blinker_oscillates() {
    // A horizontal blinker becomes vertical, and back.
    let mut population = grid(&[(1, 2), (2, 2), (3, 2)]);
    step(&mut population, None, None);
    assert_eq!(alive_positions(&population), vec![(2, 1), (2, 2), (2, 3)]);
    step(&mut population, None, None);
    assert_eq!(alive_positions(&population), vec![(1, 2), (2, 2), (3, 2)]);
}

#[test]
fn changeset_holds_only_changed_cells() {
    let population = grid(&[(1, 2), (2, 2), (3, 2)]);
    let changes = handle_cells(&population, None, None);
    // Exactly four cells change: the blinker's ends die, two cells are born.
    assert_eq!(changes.len(), 4);
    for (entity, new_state) in &changes {
        let record = population.iter().find(|r| r.entity == *entity).unwrap();
        // No-op suppression: every reported state differs from the current
        // one.
        assert_ne!(record.state, *new_state);
    }
}

#[test]
fn handle_cell_reports_none_for_unchanged() {
    let population = grid(&[(1, 2), (2, 2), (3, 2)]);
    // The center of the blinker stays alive: no change is proposed.
    let center = population
        .iter()
        .find(|r| r.cell.coords == IVec2::new(2, 2))
        .unwrap();
    assert_eq!(handle_cell(&center.cell, &center.state, &population), None);
    // The blinker's left end dies: the change is proposed.
    let end = population
        .iter()
        .find(|r| r.cell.coords == IVec2::new(1, 2))
        .unwrap();
    assert_eq!(
        handle_cell(&end.cell, &end.state, &population),
        Some(ConwayCellState(false))
    );
}

#[test]
fn pause_suppresses_the_tick() {
    let mut population = grid(&[(1, 2), (2, 2), (3, 2)]);
    let before = alive_positions(&population);
    let changes = handle_cells(&population, Some(&SimulationPause), None);
    assert!(changes.is_empty());
    // Stepping any number of times while paused leaves the population
    // untouched.
    for _ in 0..5 {
        step(&mut population, Some(&SimulationPause), None);
    }
    assert_eq!(alive_positions(&population), before);
}

#[test]
fn batched_execution_gives_the_same_changeset() {
    let population = grid(&[(1, 2), (2, 2), (3, 2), (0, 0), (4, 4)]);
    let direct = handle_cells(&population, None, None);
    for batch_size in [1, 2, 3, 7, DEFAULT_BATCH_SIZE] {
        let batched = handle_cells(&population, None, Some(&SimulationBatch { batch_size }));
        assert_eq!(direct, batched);
    }
}

#[test]
fn indexed_execution_gives_the_same_changeset() {
    let population = grid(&[(1, 2), (2, 2), (3, 2)]);
    let mut map: CellMap<MooreCell2d> = CellMap::default();
    let new_cells: Vec<(Entity, MooreCell2d)> = population
        .iter()
        .map(|r| (r.entity, r.cell.clone()))
        .collect();
    let replaced = handle_new_cells(&new_cells, &mut map);
    assert!(replaced.is_empty());
    let direct = handle_cells(&population, None, None);
    let indexed = handle_cells_indexed(&population, &map, None);
    assert_eq!(direct, indexed);
}

#[test]
fn registration_pass_reports_displacements() {
    let mut map: CellMap<MooreCell2d> = CellMap::default();
    let new_cells = vec![
        (Entity(1), MooreCell2d::new(IVec2::new(0, 0))),
        (Entity(2), MooreCell2d::new(IVec2::new(1, 0))),
        // A second cell spawned at an occupied position displaces the first.
        (Entity(3), MooreCell2d::new(IVec2::new(0, 0))),
    ];
    let replaced = handle_new_cells(&new_cells, &mut map);
    assert_eq!(replaced, vec![(Entity(3), Entity(1))]);
    assert_eq!(map.get_cell(&IVec2::new(0, 0)), Some(Entity(3)));
    assert_eq!(map.get_cell(&IVec2::new(1, 0)), Some(Entity(2)));
}

#[test]
fn registration_pass_ignores_reregistration() {
    // Registering the same entity again at its position is no anomaly.
    let mut map: CellMap<MooreCell2d> = CellMap::default();
    let new_cells = vec![
        (Entity(1), MooreCell2d::new(IVec2::new(0, 0))),
        (Entity(1), MooreCell2d::new(IVec2::new(0, 0))),
    ];
    let replaced = handle_new_cells(&new_cells, &mut map);
    assert!(replaced.is_empty());
}

#[test]
fn deregistration_pass_removes_positions() {
    let mut map: CellMap<MooreCell2d> = CellMap::default();
    map.insert_cell(IVec2::new(0, 0), Entity(1));
    map.insert_cell(IVec2::new(1, 0), Entity(2));
    let removed = vec![IVec2::new(0, 0), IVec2::new(7, 7)];
    handle_removed_cells(&removed, &mut map);
    assert_eq!(map.get_cell(&IVec2::new(0, 0)), None);
    assert_eq!(map.get_cell(&IVec2::new(1, 0)), Some(Entity(2)));
}

#[test]
fn apply_changes_commits_staged_states() {
    let mut population = grid(&[(1, 2), (2, 2), (3, 2)]);
    let changes = vec![
        (Entity(0), ConwayCellState(true)),
        (Entity(24), ConwayCellState(true)),
    ];
    apply_changes(&mut population, &changes);
    assert!(population[0].state.0);
    assert!(population[24].state.0);
    // Cells without a staged change are untouched.
    let center = population
        .iter()
        .find(|r| r.cell.coords == IVec2::new(2, 2))
        .unwrap();
    assert!(center.state.0);
}

#[test]
fn empty_population_ticks_to_empty_changeset() {
    let population: Vec<CellRecord<MooreCell2d, ConwayCellState>> = Vec::new();
    let changes = handle_cells(&population, None, None);
    assert!(changes.is_empty());
}
