use game_of_life::is_alive_next;
use game_of_life::GameOfLife;

/// Builds a board from rows of text art: `•` is a live cell, any other
/// character a dead one. Rows may differ in length.
fn new_game(initial_state: &[&str]) -> GameOfLife {
    GameOfLife::new(
        initial_state
            .iter()
            .map(|row| row.chars().map(|char| char != ' ').collect())
            .collect(),
    )
}

fn assert_next_state(current: &GameOfLife, expected_next: &GameOfLife) {
    assert_eq!(current.next_state(), *expected_next);
}

fn assert_static(game: &GameOfLife) {
    assert_next_state(game, game);
}

#[test]
fn test_empty_board() {
    assert_static(&new_game(&[]));
}

#[test]
fn test_1x1_dead_is_static() {
    assert_static(&new_game(&[" "]));
}

#[test]
fn test_1x1_alive_dies() {
    assert_next_state(&new_game(&["•"]), &new_game(&[" "]));
}

#[test]
fn test_2x2_block_is_static() {
    assert_static(&new_game(&[
        "••",
        "••",
    ]));

    assert_static(&new_game(&[
        "    ",
        " •• ",
        " •• ",
        "    ",
    ]));
}

#[test]
fn test_beehive_is_static() {
    assert_static(&new_game(&[
        "      ",
        "  ••  ",
        " •  • ",
        "  ••  ",
        "      ",
    ]));
}

#[test]
fn test_tub_is_static() {
    assert_static(&new_game(&[
        "     ",
        "  •  ",
        " • • ",
        "  •  ",
        "     ",
    ]));
}

#[test]
fn test_blinker_oscillates() {
    let vertical = new_game(&[
        "     ",
        "  •  ",
        "  •  ",
        "  •  ",
        "     ",
    ]);
    let horizontal = new_game(&[
        "     ",
        "     ",
        " ••• ",
        "     ",
        "     ",
    ]);
    assert_next_state(&vertical, &horizontal);
    assert_next_state(&horizontal, &vertical);
}

#[test]
fn test_beacon_oscillates() {
    let on = new_game(&[
        "      ",
        " ••   ",
        " ••   ",
        "   •• ",
        "   •• ",
    ]);
    let off = new_game(&[
        "      ",
        " ••   ",
        " •    ",
        "    • ",
        "   •• ",
    ]);
    assert_next_state(&on, &off);
    assert_next_state(&off, &on);
}

#[test]
fn test_transition_rule_boundaries() {
    assert_eq!(is_alive_next(true, 2), true);
    assert_eq!(is_alive_next(true, 3), true);
    assert_eq!(is_alive_next(true, 1), false);
    assert_eq!(is_alive_next(false, 3), true);
    assert_eq!(is_alive_next(false, 2), false);
}

#[test]
fn test_all_dead_board_is_static() {
    assert_static(&new_game(&[
        "    ",
        "    ",
        "    ",
    ]));
}

#[test]
fn test_jagged_triangle_block_is_static() {
    assert_static(&new_game(&[
        "••",
        "•",
    ]));
}

#[test]
fn test_empty_rows_stay_empty_and_lone_cell_dies() {
    assert_next_state(
        &new_game(&[
            "",
            "•",
            "",
        ]),
        &new_game(&[
            "",
            " ",
            "",
        ]),
    );
}

#[test]
fn test_dimensions_preserved_on_jagged_board() {
    let board = new_game(&[
        "•",
        "•••  ",
        "",
        " •• ",
    ]);
    let next = board.next_state();
    let state = next.current_state();
    assert_eq!(state.len(), 4);
    assert_eq!(state[0].len(), 1);
    assert_eq!(state[1].len(), 5);
    assert_eq!(state[2].len(), 0);
    assert_eq!(state[3].len(), 4);
}

#[test]
fn test_count_living_neighbors_full_grid() {
    let board = new_game(&[
        "•••",
        "•••",
        "•••",
    ]);
    assert_eq!(board.count_living_neighbors(1, 1), 8);
    assert_eq!(board.count_living_neighbors(0, 0), 3);
    assert_eq!(board.count_living_neighbors(0, 1), 5);
    assert_eq!(board.count_living_neighbors(2, 2), 3);
}

#[test]
fn test_count_living_neighbors_clamps_per_row_on_jagged_grid() {
    let board = new_game(&[
        "•",
        "•••",
        "•",
    ]);
    assert_eq!(board.count_living_neighbors(0, 0), 2);
    assert_eq!(board.count_living_neighbors(1, 1), 4);
    assert_eq!(board.count_living_neighbors(1, 2), 1);
}

#[test]
fn test_far_cell_does_not_change_next_state() {
    let base = new_game(&[
        "     ",
        "  •  ",
        "  •  ",
        "  •  ",
        "     ",
    ]);
    let disturbed = new_game(&[
        "    •",
        "  •  ",
        "  •  ",
        "  •  ",
        "•    ",
    ]);
    let next_base = base.next_state();
    let next_disturbed = disturbed.next_state();
    assert_eq!(
        next_base.current_state()[2][2],
        next_disturbed.current_state()[2][2]
    );
    assert_eq!(
        next_base.current_state()[2][1],
        next_disturbed.current_state()[2][1]
    );
}
