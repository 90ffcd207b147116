use breakout::block::{block_grid, GridCell};
use breakout::collision::{check_collision_block, Axis, BlockHit};
use breakout::state::{check_clear, GameState};

#[test]
fn grid_is_built_row_by_row() {
    let cells = block_grid(2, 3);
    let expected: Vec<GridCell> = vec![
        GridCell { row: 0, col: 0 },
        GridCell { row: 0, col: 1 },
        GridCell { row: 0, col: 2 },
        GridCell { row: 1, col: 0 },
        GridCell { row: 1, col: 1 },
        GridCell { row: 1, col: 2 },
    ];
    assert_eq!(cells, expected);
}

#[test]
fn grid_holds_each_cell_once() {
    let (rows, cols) = (5u32, 8u32);
    let cells = block_grid(rows, cols);
    assert_eq!(cells.len(), 40);
    for r in 0..rows {
        for c in 0..cols {
            let n = cells.iter().filter(|&&x| x == GridCell { row: r, col: c }).count();
            assert_eq!(n, 1);
        }
    }
    for (k, cell) in cells.iter().enumerate() {
        assert_eq!(*cell, GridCell { row: k as u32 / cols, col: k as u32 % cols });
    }
}

#[test]
fn empty_grids() {
    assert!(block_grid(0, 8).is_empty());
    assert!(block_grid(5, 0).is_empty());
}

#[test]
fn no_contact_no_hit() {
    let contacts: Vec<Option<Axis>> = vec![None, None, None];
    assert_eq!(check_collision_block(GameState::Playing, &contacts), None);
    assert_eq!(check_collision_block(GameState::Playing, &Vec::new()), None);
}

#[test]
fn only_the_first_touched_block_is_hit() {
    let contacts = vec![None, Some(Axis::Y), Some(Axis::X), None];
    assert_eq!(
        check_collision_block(GameState::Playing, &contacts),
        Some(BlockHit { index: 1, axis: Axis::Y })
    );
    let contacts = vec![Some(Axis::X), Some(Axis::Y)];
    assert_eq!(
        check_collision_block(GameState::Playing, &contacts),
        Some(BlockHit { index: 0, axis: Axis::X })
    );
    let contacts = vec![None, None, Some(Axis::X)];
    assert_eq!(
        check_collision_block(GameState::Playing, &contacts),
        Some(BlockHit { index: 2, axis: Axis::X })
    );
}

#[test]
fn blocks_are_untouched_outside_a_round() {
    let contacts = vec![Some(Axis::X)];
    for s in [GameState::PreGame, GameState::GameOver, GameState::GameClear] {
        assert_eq!(check_collision_block(s, &contacts), None);
    }
}

#[test]
fn hitting_the_last_block_clears_the_round() {
    let contacts = vec![Some(Axis::Y)];
    let hit = check_collision_block(GameState::Playing, &contacts);
    assert!(hit.is_some());
    let left = contacts.len() - 1;
    assert_eq!(check_clear(GameState::Playing, left), Some(GameState::GameClear));
}

#[test]
fn missing_the_last_block_does_not_clear() {
    let contacts = vec![None];
    let hit = check_collision_block(GameState::Playing, &contacts);
    assert!(hit.is_none());
    assert_eq!(check_clear(GameState::Playing, contacts.len()), None);
}
