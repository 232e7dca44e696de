use game_of_life::boards::ant_board::{Board, Direction};

#[test]
fn first_tick_turns_right_paints_and_moves() {
    // all-white 5x5, ant centered facing up: after one tick the starting
    // cell is black and the ant faces right one cell to the right
    let board = Board::create_board(5, 5);
    assert_eq!(board.ant, (2, 2, Direction::Up));
    assert!(!board.state[2][2]);

    let next = board.update();
    assert_eq!(next.ant, (3, 2, Direction::Right));
    assert!(next.state[2][2]);
    for y in 0..5 {
        for x in 0..5 {
            if !(x == 2 && y == 2) {
                assert!(!next.state[y][x]);
            }
        }
    }
}

#[test]
fn first_tick_wraps_at_the_right_edge() {
    let board = Board::create_board(1, 1);
    assert_eq!(board.ant, (0, 0, Direction::Up));
    let next = board.update();
    assert_eq!(next.ant, (0, 0, Direction::Right));
    assert!(next.state[0][0]);
}

#[test]
fn black_cell_turns_left_and_unpaints() {
    // the first four ticks walk a small clockwise square over white cells;
    // the fifth stands on the now-black starting cell, turns left, unpaints
    let b0 = Board::create_board(5, 5);
    let b1 = b0.update();
    assert_eq!(b1.ant.2, Direction::Right);
    let b2 = b1.update();
    assert_eq!(b2.ant, (3, 3, Direction::Down));
    let b3 = b2.update();
    assert_eq!(b3.ant, (2, 3, Direction::Left));
    let b4 = b3.update();
    assert_eq!(b4.ant, (2, 2, Direction::Up));
    // the four visited cells are black, the starting cell among them
    assert!(b4.state[2][2] && b4.state[2][3] && b4.state[3][3] && b4.state[3][2]);
    // the fifth tick stands on the black starting cell: turn left, unpaint
    let b5 = b4.update();
    assert_eq!(b5.ant, (1, 2, Direction::Left));
    assert!(!b5.state[2][2]);
}

#[test]
fn rotate_right_cycles_all_headings() {
    let mut d = Direction::Up;
    d.rotate_right();
    assert_eq!(d, Direction::Right);
    d.rotate_right();
    assert_eq!(d, Direction::Down);
    d.rotate_right();
    assert_eq!(d, Direction::Left);
    d.rotate_right();
    assert_eq!(d, Direction::Up);
}

#[test]
fn rotate_left_reverses_the_cycle() {
    let mut d = Direction::Up;
    d.rotate_left();
    assert_eq!(d, Direction::Left);
    d.rotate_left();
    assert_eq!(d, Direction::Down);
    d.rotate_left();
    assert_eq!(d, Direction::Right);
    d.rotate_left();
    assert_eq!(d, Direction::Up);
}

#[test]
fn ant_render_marks_the_ant_cell() {
    let board = Board::create_board(3, 2);
    assert_eq!(board.ant, (1, 1, Direction::Up));
    assert_eq!(board.render(), "-----\n|   |\n| X |\n-----");
    let next = board.update();
    // the ant moved right; its old cell is black
    assert_eq!(next.render(), "-----\n|   |\n| #X|\n-----");
}
