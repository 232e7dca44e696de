use game_of_life::args::GOLMethod;
use game_of_life::boards::gol_board::Board;
use game_of_life::grid;

#[test]
pub fn gol_board_test_state() {
    let init_state = vec![vec![false; 5]; 5];

    let board = Board {
        state: init_state,
        width: 5,
        height: 5,
        method: GOLMethod::Normal,
    };

    let expected_state = vec![vec![false; 5]; 5];

    let next_state = board.next_state();

    assert_eq!(expected_state, next_state.state);
}

#[test]
pub fn gol_board_test_birth_state() {
    let init_state = vec![
        vec![false, false, true],
        vec![false, true, true],
        vec![false, false, false],
    ];

    let board = Board {
        state: init_state,
        width: 3,
        height: 3,
        method: GOLMethod::Normal,
    };

    let expected_state = vec![
        vec![false, true, true],
        vec![false, true, true],
        vec![false, false, false],
    ];

    let next_state = board.next_state();

    assert_eq!(expected_state, next_state.state);
}

#[test]
fn corner_moore_count_caps_at_three() {
    let full = vec![vec![true; 3]; 3];
    assert_eq!(grid::count_moore(&full, 3, 3, 0, 0), 3);
    let single = vec![vec![true; 1]; 1];
    assert_eq!(grid::count_moore(&single, 1, 1, 0, 0), 0);
}

#[test]
fn center_moore_count_is_eight_on_full_grid() {
    let full = vec![vec![true; 3]; 3];
    assert_eq!(grid::count_moore(&full, 3, 3, 1, 1), 8);
}

#[test]
fn neumann_count_reads_distance_two_only() {
    // alive at distance 2 in all four cardinal directions, plus one alive
    // direct neighbor that must not be counted
    let board = Board::load_from_text("00#00\n00000\n###0#\n00000\n00#00").unwrap();
    assert_eq!(grid::count_neumann(&board.state, 5, 5, 2, 2), 4);
    // at the corner every distance-2 position but two is out of bounds
    assert_eq!(grid::count_neumann(&board.state, 5, 5, 0, 2), 1);
}

#[test]
fn neumann_step_births_on_three_distant_neighbors() {
    // the center cell is dead with exactly 3 live cells at distance 2
    let board = Board::load_from_text("00#00\n00000\n#0000\n00000\n00#00").unwrap();
    let next = board.next_state_neumann();
    assert!(next.get(2, 2));
    assert_eq!(next.method, GOLMethod::Normal);
}

#[test]
fn day_and_night_on_full_three_by_three() {
    // corners keep 3 neighbors and survive, edges die on 5, the center
    // survives on 8: exactly the {0,1,2,5} / {3,6,7,8} thresholds
    let board = Board::load_from_text("###\n###\n###").unwrap();
    let next = board.next_state_dan();
    let expected = vec![
        vec![true, false, true],
        vec![false, true, false],
        vec![true, false, true],
    ];
    assert_eq!(expected, next.state);
}

#[test]
fn day_and_night_births_dead_cell_on_six() {
    // the center of a ring of 6 live cells is born under Day and Night
    let board = Board::load_from_text("###\n#0#\n#00").unwrap();
    let next = board.next_state_dan();
    assert!(next.get(1, 1));
}

#[test]
fn variants_keep_the_method_tag() {
    let board = Board::dead_state(4, 4, GOLMethod::Dan);
    assert_eq!(board.next_state().method, GOLMethod::Dan);
    assert_eq!(board.next_state_neumann().method, GOLMethod::Dan);
    assert_eq!(board.next_state_dan().method, GOLMethod::Dan);
}

#[test]
fn loaded_board_uses_default_method() {
    let board = Board::load_from_text("0#\n#0").unwrap();
    assert_eq!(board.method, GOLMethod::Normal);
    assert_eq!(board.render(), "----\n| #|\n|# |\n----");
}
