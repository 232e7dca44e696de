use game_of_life::args::{Ant, Cli, File, GOLMethod, Random, SubCommands};
use game_of_life::boards::ant_board;
use game_of_life::boards::gol_board;
use game_of_life::boards::Boards;
use game_of_life::commands;
use game_of_life::game::Game;
use game_of_life::ui::{check_size, process_key, update, Key, Return};
use game_of_life::GOLError;

#[test]
fn quit_keys_end_the_session() {
    assert_eq!(process_key(Key::Ctrl('c')), Return::Exit);
    assert_eq!(process_key(Key::Char('q')), Return::Exit);
}

#[test]
fn other_keys_are_ignored() {
    assert_eq!(process_key(Key::Char('a')), Return::Continue);
    assert_eq!(process_key(Key::Ctrl('q')), Return::Continue);
    assert_eq!(process_key(Key::Other), Return::Continue);
}

#[test]
fn update_steps_a_gol_board_by_its_method() {
    // a horizontal blinker flips to a vertical one under the Normal rule
    let board = gol_board::Board::load_from_text("000\n###\n000").unwrap();
    let mut game = Game {
        board: Boards::GolBoard(board),
    };
    assert_eq!(update(&mut game), Return::Continue);
    match &game.board {
        Boards::GolBoard(b) => {
            let expected = vec![
                vec![false, true, false],
                vec![false, true, false],
                vec![false, true, false],
            ];
            assert_eq!(expected, b.state);
        }
        Boards::AntBoard(_) => panic!("the board family must not change"),
    }
}

#[test]
fn update_steps_an_ant_board() {
    let mut game = Game {
        board: Boards::AntBoard(ant_board::Board::create_board(5, 5)),
    };
    assert_eq!(update(&mut game), Return::Continue);
    match &game.board {
        Boards::AntBoard(b) => {
            assert_eq!(b.ant, (3, 2, ant_board::Direction::Right));
            assert!(b.state[2][2]);
        }
        Boards::GolBoard(_) => panic!("the board family must not change"),
    }
}

#[test]
fn check_size_needs_board_plus_margin() {
    let game = Game {
        board: Boards::GolBoard(gol_board::Board::dead_state(4, 3, GOLMethod::Normal)),
    };
    assert_eq!(check_size(9, 8, &game), Ok(()));
    assert_eq!(check_size(8, 8, &game), Err(GOLError::DisplaySizeTooSmall));
    assert_eq!(check_size(9, 7, &game), Err(GOLError::DisplaySizeTooSmall));
}

#[test]
fn run_builds_a_random_board() {
    let cli = Cli {
        command: SubCommands::Random(Random {
            width: 6,
            height: 4,
            method: GOLMethod::Dan,
            sleep_time: 200,
        }),
    };
    match commands::run(&cli, None) {
        Ok(Boards::GolBoard(b)) => {
            assert_eq!(b.dimensions(), (6, 4));
            assert_eq!(b.method, GOLMethod::Dan);
        }
        _ => panic!("a random run must yield a game-of-life board"),
    }
}

#[test]
fn run_loads_a_board_from_text() {
    let cli = Cli {
        command: SubCommands::File(File {
            filepath: String::from("pattern.txt"),
            method: GOLMethod::Normal,
            sleep_time: 200,
        }),
    };
    match commands::run(&cli, Some("0#\n#0")) {
        Ok(Boards::GolBoard(b)) => {
            assert_eq!(b.dimensions(), (2, 2));
            assert!(!b.get(0, 0) && b.get(1, 0) && b.get(0, 1) && !b.get(1, 1));
        }
        _ => panic!("a well-formed text must yield a board"),
    }
}

#[test]
fn run_without_file_text_is_an_invalid_file() {
    let cli = Cli {
        command: SubCommands::File(File {
            filepath: String::from("missing.txt"),
            method: GOLMethod::Normal,
            sleep_time: 200,
        }),
    };
    match commands::run(&cli, None) {
        Err(e) => assert_eq!(e, GOLError::InvalidFile),
        Ok(_) => panic!("a file that could not be read must not yield a board"),
    }
}

#[test]
fn ant_run_fast_forwards_the_start_ticks() {
    let args = Ant {
        width: 5,
        height: 5,
        interval: 200,
        start: 3,
    };
    let by_command = match commands::ant(&args) {
        Ok(Boards::AntBoard(b)) => b,
        _ => panic!("an ant run must yield an ant board"),
    };
    let by_hand = ant_board::Board::create_board(5, 5).update().update().update();
    assert_eq!(by_command.ant, by_hand.ant);
    assert_eq!(by_command.state, by_hand.state);
}

#[test]
fn ant_run_rejects_a_zero_dimension() {
    let args = Ant {
        width: 0,
        height: 5,
        interval: 200,
        start: 0,
    };
    match commands::ant(&args) {
        Err(e) => assert_eq!(e, GOLError::InvalidDimension),
        Ok(_) => panic!("a zero dimension must not yield a board"),
    }
}

#[test]
fn update_dispatches_on_the_von_neumann_tag() {
    // the center cell has exactly 3 live cells at distance two, so one tick
    // under the Von Neumann method births it
    let board = gol_board::Board {
        state: vec![
            vec![false, false, true, false, false],
            vec![false; 5],
            vec![true, false, false, false, false],
            vec![false; 5],
            vec![false, false, true, false, false],
        ],
        width: 5,
        height: 5,
        method: GOLMethod::VonNeumann,
    };
    let mut game = Game {
        board: Boards::GolBoard(board),
    };
    update(&mut game);
    match &game.board {
        Boards::GolBoard(b) => assert!(b.get(2, 2)),
        Boards::AntBoard(_) => panic!("the board family must not change"),
    }
}

#[test]
fn update_dispatches_on_the_day_and_night_tag() {
    // a fully alive 3x3 under Day and Night keeps corners and center and
    // kills the edges
    let board = gol_board::Board {
        state: vec![vec![true; 3]; 3],
        width: 3,
        height: 3,
        method: GOLMethod::Dan,
    };
    let mut game = Game {
        board: Boards::GolBoard(board),
    };
    update(&mut game);
    match &game.board {
        Boards::GolBoard(b) => {
            let expected = vec![
                vec![true, false, true],
                vec![false, true, false],
                vec![true, false, true],
            ];
            assert_eq!(expected, b.state);
        }
        Boards::AntBoard(_) => panic!("the board family must not change"),
    }
}
