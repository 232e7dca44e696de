use game_of_life::board::Board;
use game_of_life::GOLError;

#[test]
pub fn board_test_state() {
    let init_state = vec![vec![false; 5]; 5];

    let board = Board {
        state: init_state,
        width: 5,
        height: 5,
    };

    let expected_state = vec![vec![false; 5]; 5];

    let next_state = board.next_state();

    assert_eq!(expected_state, next_state.state);
}

#[test]
pub fn board_test_birth_state() {
    let init_state = vec![
        vec![false, false, true],
        vec![false, true, true],
        vec![false, false, false],
    ];

    let board = Board {
        state: init_state,
        width: 3,
        height: 3,
    };

    let expected_state = vec![
        vec![false, true, true],
        vec![false, true, true],
        vec![false, false, false],
    ];

    let next_state = board.next_state();

    assert_eq!(expected_state, next_state.state);
}

#[test]
fn dimensions_preserved_across_two_ticks() {
    let board = Board::load_from_text("0#0#\n#0#0\n0#0#").unwrap();
    let twice = board.next_state().next_state();
    assert_eq!(twice.dimensions(), board.dimensions());
    assert_eq!(twice.dimensions(), (4, 3));
}

#[test]
fn dead_state_is_all_dead() {
    let board = Board::dead_state(4, 3);
    assert_eq!(board.dimensions(), (4, 3));
    for y in 0..3 {
        for x in 0..4 {
            assert!(!board.get(x, y));
        }
    }
}

#[test]
fn random_state_has_requested_dimensions() {
    let board = Board::random_state(7, 2);
    assert_eq!(board.dimensions(), (7, 2));
    let stepped = board.next_state();
    assert_eq!(stepped.dimensions(), (7, 2));
}

#[test]
fn render_reproduces_loaded_pattern() {
    let board = Board::load_from_text("0#\n#0").unwrap();
    assert_eq!(board.render(), "----\n| #|\n|# |\n----");
}

#[test]
fn render_of_dead_board() {
    let board = Board::dead_state(2, 1);
    assert_eq!(board.render(), "----\n|  |\n----");
}

#[test]
fn load_rejects_empty_text() {
    match Board::load_from_text("") {
        Err(e) => assert_eq!(e, GOLError::InvalidDimension),
        Ok(_) => panic!("an empty text must not parse"),
    }
}

#[test]
fn load_rejects_empty_first_line() {
    match Board::load_from_text("\n##") {
        Err(e) => assert_eq!(e, GOLError::InvalidDimension),
        Ok(_) => panic!("an empty first line must not parse"),
    }
}

#[test]
fn load_rejects_jagged_lines() {
    match Board::load_from_text("##\n###") {
        Err(e) => assert_eq!(e, GOLError::InvalidFile),
        Ok(_) => panic!("unequal line lengths must not parse"),
    }
}

#[test]
fn load_ignores_trailing_newline() {
    let board = Board::load_from_text("##\n00\n").unwrap();
    assert_eq!(board.dimensions(), (2, 2));
    assert!(board.get(0, 0) && board.get(1, 0));
    assert!(!board.get(0, 1) && !board.get(1, 1));
}

#[test]
fn any_character_but_zero_is_alive() {
    let board = Board::load_from_text("0az\n# 1").unwrap();
    assert!(!board.get(0, 0));
    assert!(board.get(1, 0));
    assert!(board.get(2, 0));
    assert!(board.get(0, 1));
    assert!(board.get(1, 1));
    assert!(board.get(2, 1));
}
