use life::{Cell, World};

const X: Cell = Cell::Dead;
const O: Cell = Cell::Alive;

#[test]
fn test_get_cell_index() {
    let world = World {
        cells: vec![
            X, X, X, X, // 0-3
            X, X, X, X, // 4-7
            X, X, X, X, // 8-11
        ],
        width: 4,
        height: 3,
    };

    assert_eq!(11, world.get_cell_index(2, 3));
    assert_eq!(0, world.get_cell_index(0, 0));
    assert_eq!(8, world.get_cell_index(2, 0));
}

#[test]
fn test_get_live_neighbor_count() {
    let world = World {
        cells: vec![
            O, O, X, X, // 0-3
            X, O, X, X, // 4-7
            X, X, X, X, // 8-11
        ],
        width: 4,
        height: 3,
    };

    assert_eq!(2, world.get_live_neighbor_count(1, 1));
    assert_eq!(1, world.get_live_neighbor_count(2, 3));
}

#[test]
fn test_tick() {
    // blinker
    let mut world = World {
        cells: vec![
            X, X, X, X, X, //
            X, X, O, X, X, //
            X, X, O, X, X, //
            X, X, O, X, X, //
            X, X, X, X, X, //
        ],
        width: 5,
        height: 5,
    };

    let original_cells = world.cells.clone();

    world.tick();

    assert_eq!(
        world.cells,
        vec![
            X, X, X, X, X, //
            X, X, X, X, X, //
            X, O, O, O, X, //
            X, X, X, X, X, //
            X, X, X, X, X, //
        ]
    );

    world.tick();

    assert_eq!(world.cells, original_cells);
}

#[test]
fn cell_index_covers_every_cell_once() {
    let world = World { cells: vec![X; 12], width: 4, height: 3 };
    let mut expected = 0;
    for row in 0..3 {
        for col in 0..4 {
            assert_eq!(expected, world.get_cell_index(row, col));
            expected += 1;
        }
    }
}

#[test]
fn neighbor_count_wraps_at_corners() {
    // live cells in the four corners: each corner sees the other three
    let world = World {
        cells: vec![
            O, X, X, O, //
            X, X, X, X, //
            X, X, X, X, //
            O, X, X, O, //
        ],
        width: 4,
        height: 4,
    };
    assert_eq!(3, world.get_live_neighbor_count(0, 0));
    assert_eq!(3, world.get_live_neighbor_count(3, 3));
    assert_eq!(2, world.get_live_neighbor_count(0, 1));
}

#[test]
fn neighbor_count_of_full_grid_is_eight() {
    let world = World { cells: vec![O; 9], width: 3, height: 3 };
    assert_eq!(8, world.get_live_neighbor_count(1, 1));
    assert_eq!(8, world.get_live_neighbor_count(0, 2));
}

#[test]
fn single_live_cell_counts_itself_eight_times_and_dies() {
    let mut world = World { cells: vec![O], width: 1, height: 1 };
    assert_eq!(8, world.get_live_neighbor_count(0, 0));
    world.tick();
    assert_eq!(vec![X], world.cells);
}

#[test]
fn single_dead_cell_stays_dead() {
    let mut world = World { cells: vec![X], width: 1, height: 1 };
    assert_eq!(0, world.get_live_neighbor_count(0, 0));
    world.tick();
    assert_eq!(vec![X], world.cells);
}

#[test]
fn one_row_grid_samples_each_row_offset() {
    // on a single row the cells above and below are the row itself
    let world = World { cells: vec![O, X, X, X], width: 4, height: 1 };
    assert_eq!(3, world.get_live_neighbor_count(0, 1));
    assert_eq!(2, world.get_live_neighbor_count(0, 0));
}

#[test]
fn dead_grid_stays_dead() {
    let mut world = World { cells: vec![X; 35], width: 7, height: 5 };
    for _ in 0..5 {
        world.tick();
        assert_eq!(vec![X; 35], world.cells);
        assert_eq!(7, world.width);
        assert_eq!(5, world.height);
    }
}

#[test]
fn tick_matches_rule_on_saved_snapshot() {
    let mut world = World::with_size(6, 4).unwrap();
    let before = World { cells: world.cells.clone(), width: 6, height: 4 };
    world.tick();
    for row in 0..4 {
        for col in 0..6 {
            let index = before.get_cell_index(row, col);
            let neighbors = before.get_live_neighbor_count(row, col);
            let expected = match (before.cells[index], neighbors) {
                (Cell::Alive, 2) => Cell::Alive,
                (_, 3) => Cell::Alive,
                _ => Cell::Dead,
            };
            assert_eq!(expected, world.cells[index]);
        }
    }
}

#[test]
fn block_is_still_life() {
    let cells = vec![
        X, X, X, X, //
        X, O, O, X, //
        X, O, O, X, //
        X, X, X, X, //
    ];
    let mut world = World { cells: cells.clone(), width: 4, height: 4 };
    world.tick();
    assert_eq!(cells, world.cells);
}

#[test]
fn new_world_has_seed_pattern() {
    let world = World::new();
    assert_eq!(100, world.width);
    assert_eq!(100, world.height);
    assert_eq!(10000, world.cells.len());
    assert_eq!(O, world.cells[0]);
    assert_eq!(X, world.cells[1]);
    assert_eq!(O, world.cells[2]);
    assert_eq!(O, world.cells[7]);
    assert_eq!(X, world.cells[9]);
    assert_eq!(O, world.cells[21]);
    assert_eq!(X, world.cells[9999]);
    assert_eq!(O, world.cells[9996]);
}

#[test]
fn with_size_seeds_and_rejects_bad_sizes() {
    let world = World::with_size(3, 5).unwrap();
    assert_eq!(3, world.width);
    assert_eq!(5, world.height);
    assert_eq!(
        vec![O, X, O, X, O, X, O, O, O, X, O, X, O, X, O],
        world.cells
    );
    assert!(World::with_size(0, 5).is_none());
    assert!(World::with_size(5, 0).is_none());
    assert!(World::with_size(usize::MAX, 2).is_none());
}

#[test]
fn from_cells_checks_dimensions() {
    let world = World::from_cells(2, 2, vec![O, X, X, O]).unwrap();
    assert_eq!(2, world.width);
    assert_eq!(2, world.height);
    assert_eq!(vec![O, X, X, O], world.cells);
    assert!(World::from_cells(0, 2, vec![]).is_none());
    assert!(World::from_cells(2, 0, vec![]).is_none());
    assert!(World::from_cells(2, 2, vec![O, X, X]).is_none());
    assert!(World::from_cells(usize::MAX, 2, vec![O]).is_none());
}
