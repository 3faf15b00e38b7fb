use tic_tac_toe::Game;
use tic_tac_toe::bit_patterns::Cell;
use tic_tac_toe::bit_patterns::WinPattern;
use tic_tac_toe::board::Board;
use tic_tac_toe::game::EndState;
use tic_tac_toe::game::parse_replay_choice;
use tic_tac_toe::game::parse_start_player;
use tic_tac_toe::player::Player;

fn all_cells() -> [Cell; 9] {
    [
        Cell::TopLeft,
        Cell::TopCentre,
        Cell::TopRight,
        Cell::CentreLeft,
        Cell::Centre,
        Cell::CentreRight,
        Cell::BottomLeft,
        Cell::BottomCentre,
        Cell::BottomRight,
    ]
}

/// Fills the board with the mixed pattern that completes no line:
/// X O X / X O O / O X O, top row first.
fn fill_draw_board(board: &mut Board) {
    board.set_cell(Player::O, Cell::Centre);
    board.set_cell(Player::X, Cell::TopLeft);
    board.set_cell(Player::O, Cell::TopCentre);
    board.set_cell(Player::X, Cell::BottomCentre);
    board.set_cell(Player::O, Cell::CentreRight);
    board.set_cell(Player::X, Cell::CentreLeft);
    board.set_cell(Player::O, Cell::BottomLeft);
    board.set_cell(Player::X, Cell::TopRight);
    board.set_cell(Player::O, Cell::BottomRight);
}

#[test]
fn first_move_is_owned_by_mover_only() {
    for player in [Player::O, Player::X] {
        let other = match player {
            Player::O => Player::X,
            Player::X => Player::O,
        };
        for cell in all_cells() {
            let mut board = Board::new();
            assert!(!board.is_cell_set(cell));
            board.set_cell(player, cell);
            assert!(board.is_cell_set(cell));
            assert!(board.has_player_set_cell(player, cell));
            assert!(!board.has_player_set_cell(other, cell));
        }
    }
}

#[test]
fn board_fills_only_with_the_ninth_move() {
    let mut board = Board::new();
    assert!(!board.is_every_cell_set());
    let mut player = Player::O;
    for (moves, cell) in all_cells().into_iter().enumerate() {
        assert!(!board.is_every_cell_set(), "not full after {} moves", moves);
        board.set_cell(player, cell);
        player.swap();
    }
    assert!(board.is_every_cell_set());
}

#[test]
fn draw_board_is_full_without_winner() {
    let mut board = Board::new();
    fill_draw_board(&mut board);
    assert!(board.is_every_cell_set());
    assert!(!board.has_player_won());
    assert_eq!(None, board.winning_player());
}

#[test]
fn no_move_sequence_leaves_an_orphan_companion_bit() {
    let mut board = Board::new();
    let moves = [
        (Player::O, Cell::TopLeft),
        (Player::X, Cell::Centre),
        (Player::O, Cell::BottomRight),
        (Player::X, Cell::TopRight),
        (Player::O, Cell::CentreLeft),
    ];
    for (player, cell) in moves {
        board.set_cell(player, cell);
        for slot in 0..9u32 {
            let occupancy = 1u32 << (2 * slot + 1);
            let companion = 1u32 << (2 * slot);
            assert!(
                board.cells & companion == 0 || board.cells & occupancy != 0,
                "slot {} reached the 01 state",
                slot
            );
        }
    }
}

#[test]
fn left_column_game_is_won_by_player_o() {
    let mut board = Board::new();
    board.set_cell(Player::O, Cell::TopLeft);
    board.set_cell(Player::X, Cell::TopCentre);
    board.set_cell(Player::O, Cell::CentreLeft);
    board.set_cell(Player::X, Cell::BottomRight);
    board.set_cell(Player::O, Cell::BottomLeft);
    assert!(board.check_player_has_won(Player::O, WinPattern::LeftColumn));
    assert!(board.has_player_won());
    assert_eq!(Some(Player::O), board.winning_player());
}

#[test]
fn winning_player_reports_x() {
    let mut board = Board::new();
    board.set_cell(Player::X, Cell::TopRight);
    board.set_cell(Player::O, Cell::TopLeft);
    board.set_cell(Player::X, Cell::Centre);
    board.set_cell(Player::O, Cell::TopCentre);
    board.set_cell(Player::X, Cell::BottomLeft);
    assert!(board.has_player_won());
    assert_eq!(Some(Player::X), board.winning_player());
}

#[test]
fn win_pattern_masks_hold_three_cell_masks() {
    let expectations = [
        (WinPattern::TopRow, 0b10_1010_0000_0000_0000u32),
        (WinPattern::CentreRow, 0b00_0000_1010_1000_0000u32),
        (WinPattern::BottomRow, 0b00_0000_0000_0010_1010u32),
        (WinPattern::LeftColumn, 0b10_0000_1000_0010_0000u32),
        (WinPattern::CentreColumn, 0b00_1000_0010_0000_1000u32),
        (WinPattern::RightColumn, 0b00_0010_0000_1000_0010u32),
        (WinPattern::LeftDiagonal, 0b10_0000_0010_0000_0010u32),
        (WinPattern::RightDiagonal, 0b00_0010_0010_0010_0000u32),
    ];
    for (pattern, mask) in expectations {
        assert_eq!(mask, pattern.mask());
        let cells = pattern.cells();
        assert_eq!(mask, cells[0].mask() | cells[1].mask() | cells[2].mask());
    }
}

#[test]
fn win_pattern_flags_project_to_nine_bits() {
    assert_eq!(0b1_1100_0000u16, WinPattern::TopRow.flags());
    assert_eq!(0b1_0010_0100u16, WinPattern::LeftColumn.flags());
    assert_eq!(0b1_0001_0001u16, WinPattern::LeftDiagonal.flags());
}

#[test]
fn labels_name_cells_keypad_style() {
    assert_eq!(Ok(Cell::BottomLeft.mask()), Cell::try_from("1").map(|c| c.mask()));
    assert_eq!(Ok(Cell::Centre.mask()), Cell::try_from("5").map(|c| c.mask()));
    assert_eq!(Ok(Cell::TopLeft.mask()), Cell::try_from("7").map(|c| c.mask()));
    assert_eq!(Ok(Cell::TopRight.mask()), Cell::try_from("9").map(|c| c.mask()));
}

#[test]
fn invalid_labels_are_rejected_with_a_message() {
    let err = Cell::try_from("0").map(|c| c.mask()).unwrap_err();
    assert_eq!("0 is not a valid cell number", &err);
    let err = Cell::try_from("10").map(|c| c.mask()).unwrap_err();
    assert_eq!("10 is not a valid cell number", &err);
    let err = Cell::try_from("").map(|c| c.mask()).unwrap_err();
    assert_eq!(" is not a valid cell number", &err);
}

#[test]
fn start_player_answers_are_parsed() {
    assert_eq!(Some(Player::O), parse_start_player("O"));
    assert_eq!(Some(Player::O), parse_start_player("o"));
    assert_eq!(Some(Player::O), parse_start_player("1"));
    assert_eq!(Some(Player::X), parse_start_player("X"));
    assert_eq!(Some(Player::X), parse_start_player("x"));
    assert_eq!(Some(Player::X), parse_start_player("2"));
    assert_eq!(None, parse_start_player("q"));
    assert_eq!(None, parse_start_player(""));
    assert_eq!(None, parse_start_player("OO"));
}

#[test]
fn replay_answers_are_parsed() {
    assert_eq!(Some(EndState::Replay), parse_replay_choice("y"));
    assert_eq!(Some(EndState::Replay), parse_replay_choice("Y"));
    assert_eq!(Some(EndState::End), parse_replay_choice("n"));
    assert_eq!(Some(EndState::End), parse_replay_choice("N"));
    assert_eq!(None, parse_replay_choice("maybe"));
    assert_eq!(None, parse_replay_choice(""));
}

#[test]
fn players_swap_and_name_themselves() {
    let mut player = Player::O;
    assert_eq!("Player O", player.name().as_str());
    player.swap();
    assert_eq!("Player X", player.name().as_str());
    player.swap();
    assert_eq!("Player O", player.name().as_str());
}

#[test]
fn new_game_starts_with_player_o_and_open_board() {
    let game = Game::new();
    assert_eq!(Player::O, game.current_player);
    assert_eq!(0, game.board.cells);
    assert!(!game.is_over());
}

#[test]
fn game_announces_win_and_draw() {
    let mut game = Game::new();
    game.board.set_cell(Player::O, Cell::TopLeft);
    game.board.set_cell(Player::O, Cell::TopCentre);
    game.board.set_cell(Player::O, Cell::TopRight);
    assert!(game.is_over());
    assert_eq!("Player O has won!", game.end_message().as_str());

    let mut drawn = Game::new();
    fill_draw_board(&mut drawn.board);
    assert!(drawn.is_over());
    assert_eq!("Draw!", drawn.end_message().as_str());
}

#[test]
fn reset_clears_the_session() {
    let mut game = Game::new();
    game.board.set_cell(Player::X, Cell::Centre);
    game.current_player = Player::X;
    game.reset();
    assert_eq!(0, game.board.cells);
    assert_eq!(Player::O, game.current_player);
}

#[test]
fn two_word_board_agrees_with_packed_board() {
    let mut packed = Board::new();
    let mut words = tic_tac_toe::Board::new();
    let moves = [
        (Player::O, Cell::Centre),
        (Player::X, Cell::TopLeft),
        (Player::O, Cell::BottomRight),
        (Player::X, Cell::CentreRight),
        (Player::O, Cell::TopRight),
    ];
    for (player, cell) in moves {
        packed.set_cell(player, cell);
        words.set_cell(player, cell);
        assert_eq!(packed.has_player_won(), words.has_player_won());
        assert_eq!(packed.is_every_cell_set(), words.is_every_cell_set());
        assert_eq!(packed.is_cell_set(cell), words.is_cell_set(cell));
    }
}
