use tetris_core::input::{GameAction, InputSnapshot, TetrominoControls};
use tetris_core::rotations::RotationDirection;
use tetris_core::tetromino::{Coord, Tetromino, TetrominoType};
use tetris_core::universe::{Game, Universe};

fn empty_board(focused: Tetromino, fall_rate: u32) -> Universe {
    Universe::new(10, 24, focused, Vec::new(), fall_rate, Game::default())
}

fn piece_from_cells(cells: &[(u32, u32)]) -> Tetromino {
    let refs: Vec<Coord> = cells.iter().map(|(x, y)| Coord::new(*x, *y)).collect();
    let anchor = refs[0];
    Tetromino::spawn_tetrimno(refs, anchor, TetrominoType::I)
}

fn sorted_cells(t: &Tetromino) -> Vec<(u32, u32)> {
    let mut v: Vec<(u32, u32)> = t.coords().iter().map(|c| (c.x, c.y)).collect();
    v.sort();
    v
}

#[test]
fn four_rotations_restore_every_kind_but_o() {
    let kinds = [
        TetrominoType::I,
        TetrominoType::J,
        TetrominoType::L,
        TetrominoType::S,
        TetrominoType::T,
        TetrominoType::Z,
    ];
    for dir in [GameAction::RotateCw, GameAction::RotateCcw] {
        for kind in kinds {
            let spawn = TetrominoType::generate_tetromino_from_type(kind);
            let expected: Vec<Coord> = spawn.coords().clone();
            let mut u = empty_board(spawn, 12);
            for _ in 0..4 {
                u.apply_action(dir);
            }
            assert_eq!(u.focused_tetromino().coords(), &expected, "{:?}", kind);
            assert_eq!(*u.focused_tetromino().rotation_state().rn(), 0);
        }
    }
}

#[test]
fn o_rotation_keeps_cell_set() {
    for dir in [GameAction::RotateCw, GameAction::RotateCcw] {
        let spawn = TetrominoType::generate_tetromino_from_type(TetrominoType::O);
        let expected = sorted_cells(&spawn);
        let mut u = empty_board(spawn, 12);
        for step in 0..4 {
            u.apply_action(dir);
            assert_eq!(sorted_cells(u.focused_tetromino()), expected, "step {}", step);
        }
    }
}

#[test]
fn wall_kick_slides_piece_off_the_wall() {
    // An I piece rotated to vertical at the left wall, then rotated again:
    // the kick keeps every cell on the board.
    let spawn = TetrominoType::generate_tetromino_from_type(TetrominoType::I);
    let mut u = empty_board(spawn, 12);
    for _ in 0..5 {
        u.apply_action(GameAction::MoveLeft);
    }
    u.apply_action(GameAction::RotateCw);
    for c in u.focused_tetromino().coords() {
        assert!(c.x < 10 && c.y < 24);
    }
}

#[test]
fn left_wall_blocks_left_move() {
    // The piece has a cell in column 0: a left move must do nothing.
    let t = Tetromino::spawn_tetrimno(
        vec![Coord::new(1, 0), Coord::new(0, 0), Coord::new(1, 1), Coord::new(2, 0)],
        Coord::new(1, 10),
        TetrominoType::T,
    );
    assert!(!t.within_boundary(Tetromino::get_dxdy(tetris_core::tetromino::Direction::Left), 10, 24));
    let before: Vec<Coord> = t.coords().clone();
    let mut u = empty_board(t, 12);
    u.apply_action(GameAction::MoveLeft);
    assert_eq!(u.focused_tetromino().coords(), &before);
    // A right move from the same spot works.
    u.apply_action(GameAction::MoveRight);
    let shifted: Vec<Coord> = before.iter().map(|c| Coord::new(c.x + 1, c.y)).collect();
    assert_eq!(u.focused_tetromino().coords(), &shifted);
}

#[test]
fn tick_applies_one_fall_step() {
    // A T piece spawned at (5, 22); one cadence tick drops it one row.
    let spawn = TetrominoType::generate_tetromino_from_type(TetrominoType::T);
    let mut u = empty_board(spawn, 1);
    u.tick(&InputSnapshot::none());
    let expected = vec![
        Coord { x: 5, y: 21 },
        Coord { x: 4, y: 21 },
        Coord { x: 5, y: 22 },
        Coord { x: 6, y: 21 },
    ];
    assert_eq!(u.focused_tetromino().coords(), &expected);
}

#[test]
fn gravity_runs_every_twelfth_tick() {
    let spawn = TetrominoType::generate_tetromino_from_type(TetrominoType::T);
    let start = spawn.coords().clone();
    let mut u = empty_board(spawn, 12);
    for _ in 0..11 {
        u.tick(&InputSnapshot::none());
        assert_eq!(u.focused_tetromino().coords(), &start);
    }
    u.tick(&InputSnapshot::none());
    let dropped: Vec<Coord> = start.iter().map(|c| Coord::new(c.x, c.y - 1)).collect();
    assert_eq!(u.focused_tetromino().coords(), &dropped);
}

#[test]
fn tick_counter_wraps_at_sixty() {
    let spawn = TetrominoType::generate_tetromino_from_type(TetrominoType::T);
    // A cadence of 61 never divides the counter values 1..=60, so the
    // piece stays put while the counter runs a full cycle.
    let mut u = empty_board(spawn, 61);
    for t in 1..60 {
        u.tick(&InputSnapshot::none());
        assert_eq!(*u.ticks(), t);
    }
    u.tick(&InputSnapshot::none());
    assert_eq!(*u.ticks(), 0);
}

#[test]
fn line_clear_compacts_rows_and_counts() {
    // Row 0 fully occupied by one settled piece; two extra cells above it.
    let full_row = piece_from_cells(&[
        (0, 0), (1, 0), (2, 0), (3, 0), (4, 0), (5, 0), (6, 0), (7, 0), (8, 0), (9, 0),
    ]);
    let above = piece_from_cells(&[(3, 1), (3, 2)]);
    let focused = TetrominoType::generate_tetromino_from_type(TetrominoType::T);
    let mut u = Universe::new(10, 24, focused, vec![full_row, above], 12, Game::default());

    u.clear_full_rows();

    // The full row vanished with its piece; the cells above dropped by one.
    assert_eq!(u.stagnant_tetrominos().len(), 1);
    assert_eq!(sorted_cells(&u.stagnant_tetrominos()[0]), vec![(3, 0), (3, 1)]);
    assert_eq!(u.game().lines_cleared(), 1);
}

#[test]
fn double_line_clear() {
    // Rows 0 and 1 fully occupied; a survivor at (0, 2) must drop by two.
    let row0 = piece_from_cells(&[
        (0, 0), (1, 0), (2, 0), (3, 0), (4, 0), (5, 0), (6, 0), (7, 0), (8, 0), (9, 0),
    ]);
    let row1 = piece_from_cells(&[
        (0, 1), (1, 1), (2, 1), (3, 1), (4, 1), (5, 1), (6, 1), (7, 1), (8, 1), (9, 1),
    ]);
    let survivor = piece_from_cells(&[(0, 2), (1, 3)]);
    let focused = TetrominoType::generate_tetromino_from_type(TetrominoType::T);
    let mut u = Universe::new(10, 24, focused, vec![row0, row1, survivor], 12, Game::default());

    u.clear_full_rows();

    assert_eq!(u.stagnant_tetrominos().len(), 1);
    assert_eq!(sorted_cells(&u.stagnant_tetrominos()[0]), vec![(0, 0), (1, 1)]);
    assert_eq!(u.game().lines_cleared(), 2);
}

#[test]
fn clear_on_partial_rows_changes_nothing() {
    let partial = piece_from_cells(&[(0, 0), (1, 0), (2, 0)]);
    let focused = TetrominoType::generate_tetromino_from_type(TetrominoType::T);
    let mut u = Universe::new(10, 24, focused, vec![partial], 12, Game::default());
    u.clear_full_rows();
    assert_eq!(u.stagnant_tetrominos().len(), 1);
    assert_eq!(sorted_cells(&u.stagnant_tetrominos()[0]), vec![(0, 0), (1, 0), (2, 0)]);
    assert_eq!(u.game().lines_cleared(), 0);
}

#[test]
fn hard_drop_settles_at_the_floor() {
    let spawn = TetrominoType::generate_tetromino_from_type(TetrominoType::T);
    let mut u = empty_board(spawn, 12);
    u.apply_action(GameAction::HardDrop);
    assert_eq!(u.stagnant_tetrominos().len(), 1);
    assert_eq!(
        sorted_cells(&u.stagnant_tetrominos()[0]),
        vec![(4, 0), (5, 0), (5, 1), (6, 0)]
    );
    // A fresh piece took the focus.
    assert!(u.focused_tetromino().coords().contains(&Coord { x: 5, y: 22 }));
}

#[test]
fn blocked_spawn_is_game_over_until_restart() {
    // Every kind spawns over (5, 22); a settled cell there blocks any
    // fresh piece. The focused piece sits on the floor and settles on the
    // first cadence tick.
    let blocker = piece_from_cells(&[(5, 22)]);
    let focused = Tetromino::spawn_tetrimno(
        vec![Coord::new(1, 0), Coord::new(0, 0), Coord::new(1, 1), Coord::new(2, 0)],
        Coord::new(5, 0),
        TetrominoType::T,
    );
    let mut u = Universe::new(10, 24, focused, vec![blocker], 1, Game::default());

    u.tick(&InputSnapshot::none());
    assert!(!*u.game().running());
    assert_eq!(u.stagnant_tetrominos().len(), 2);

    // Further ticks without a restart change nothing.
    let frozen: Vec<Vec<(u32, u32)>> =
        u.stagnant_tetrominos().iter().map(sorted_cells).collect();
    for _ in 0..5 {
        u.tick(&InputSnapshot::none());
        assert!(!*u.game().running());
        let now: Vec<Vec<(u32, u32)>> =
            u.stagnant_tetrominos().iter().map(sorted_cells).collect();
        assert_eq!(now, frozen);
    }

    // The restart signal clears the board and resumes play.
    let mut restart = InputSnapshot::none();
    restart.restart_down = true;
    u.tick(&restart);
    assert!(*u.game().running());
    assert!(u.stagnant_tetrominos().is_empty());
    assert_eq!(*u.ticks(), 0);
}

#[test]
fn single_press_emits_one_action() {
    let mut controls = TetrominoControls::new();
    let mut snap = InputSnapshot::none();
    snap.left_pressed = true;
    snap.left_down = true;
    controls.tick(&snap);
    assert_eq!(controls.get_queue(), vec![GameAction::MoveLeft]);
    controls.clear_queue();

    // Released: nothing more is emitted.
    for _ in 0..20 {
        controls.tick(&InputSnapshot::none());
        assert!(controls.get_queue().is_empty());
    }
}

#[test]
fn held_key_repeats_after_delay() {
    // Left (delay 8, rate 4): the press fires at tick 0; holding fires
    // again at ticks 11, 17, 23, ... (delay, then the repeat cadence).
    let mut controls = TetrominoControls::new();
    let mut press = InputSnapshot::none();
    press.left_pressed = true;
    press.left_down = true;
    let mut hold = InputSnapshot::none();
    hold.left_down = true;

    controls.tick(&press);
    assert_eq!(controls.get_queue(), vec![GameAction::MoveLeft]);
    controls.clear_queue();

    let mut fired_at: Vec<u32> = Vec::new();
    for t in 1..=30 {
        controls.tick(&hold);
        if !controls.get_queue().is_empty() {
            fired_at.push(t);
            controls.clear_queue();
        }
    }
    assert_eq!(fired_at, vec![11, 17, 23, 29]);
}

#[test]
fn soft_drop_repeats_without_delay() {
    // Soft drop (delay 0, rate 4): after the press at tick 0, the repeat
    // arms immediately and fires at ticks 6, 12, 18, ...
    let mut controls = TetrominoControls::new();
    let mut press = InputSnapshot::none();
    press.soft_drop_pressed = true;
    press.soft_drop_down = true;
    let mut hold = InputSnapshot::none();
    hold.soft_drop_down = true;

    controls.tick(&press);
    assert_eq!(controls.get_queue(), vec![GameAction::SoftDrop]);
    controls.clear_queue();

    let mut fired_at: Vec<u32> = Vec::new();
    for t in 1..=20 {
        controls.tick(&hold);
        if !controls.get_queue().is_empty() {
            fired_at.push(t);
            controls.clear_queue();
        }
    }
    assert_eq!(fired_at, vec![6, 12, 18]);
}

#[test]
fn tick_consumes_pressed_key_and_clears_queue() {
    // A pressed left key moves the piece during the same tick, and the
    // queue does not replay on later ticks.
    let spawn = TetrominoType::generate_tetromino_from_type(TetrominoType::T);
    let start = spawn.coords().clone();
    let mut u = empty_board(spawn, 61);
    let mut snap = InputSnapshot::none();
    snap.left_pressed = true;
    snap.left_down = true;
    u.tick(&snap);
    let shifted: Vec<Coord> = start.iter().map(|c| Coord::new(c.x - 1, c.y)).collect();
    assert_eq!(u.focused_tetromino().coords(), &shifted);
    u.tick(&InputSnapshot::none());
    assert_eq!(u.focused_tetromino().coords(), &shifted);
}

#[test]
fn rotation_direction_flip() {
    assert_eq!(
        RotationDirection::flip(RotationDirection::Clockwise),
        RotationDirection::CounterClockwise
    );
    assert_eq!(
        RotationDirection::flip(RotationDirection::CounterClockwise),
        RotationDirection::Clockwise
    );
}

#[test]
fn game_record_pause_and_resume() {
    let mut g = Game::default();
    assert!(*g.running());
    assert_eq!(*g.ticks(), 0);
    assert_eq!(g.lines_cleared(), 0);
    assert_eq!(g.level(), 0);
    g.pause();
    assert!(!*g.running());
    g.resume();
    assert!(*g.running());
}

#[test]
fn default_universe_is_standard_board() {
    let u = Universe::default();
    assert_eq!(u.width(), 10);
    assert_eq!(u.height(), 24);
    assert!(u.stagnant_tetrominos().is_empty());
    assert!(*u.game().running());
    assert_eq!(u.focused_tetromino().coords().len(), 4);
}

#[test]
fn tick_clears_full_row() {
    // Settled cells fully occupy row 0, with a settled piece above; one
    // tick's clear-and-compact pass removes the row and drops the rest.
    let full_row = piece_from_cells(&[
        (0, 0), (1, 0), (2, 0), (3, 0), (4, 0), (5, 0), (6, 0), (7, 0), (8, 0), (9, 0),
    ]);
    let above = piece_from_cells(&[(3, 1), (3, 2)]);
    let focused = TetrominoType::generate_tetromino_from_type(TetrominoType::T);
    let focused_cells = focused.coords().clone();
    let mut u = Universe::new(10, 24, focused, vec![full_row, above], 12, Game::default());

    u.tick(&InputSnapshot::none());

    assert_eq!(u.stagnant_tetrominos().len(), 1);
    assert_eq!(sorted_cells(&u.stagnant_tetrominos()[0]), vec![(3, 0), (3, 1)]);
    assert_eq!(u.game().lines_cleared(), 1);
    // No settled cell is left on the cleared row's old footprint but the
    // dropped survivor, and the focused piece is untouched.
    assert_eq!(u.focused_tetromino().coords(), &focused_cells);
}

#[test]
fn settling_piece_completes_a_row() {
    // Row 0 lacks exactly the three cells the falling T provides; when it
    // settles, the row completes and clears in the same tick.
    let gap_row = piece_from_cells(&[(0, 0), (1, 0), (2, 0), (3, 0), (7, 0), (8, 0), (9, 0)]);
    let focused = Tetromino::spawn_tetrimno(
        vec![Coord::new(1, 0), Coord::new(0, 0), Coord::new(1, 1), Coord::new(2, 0)],
        Coord::new(5, 0),
        TetrominoType::T,
    );
    let mut u = Universe::new(10, 24, focused, vec![gap_row], 1, Game::default());

    u.tick(&InputSnapshot::none());

    // The T settled into the gap: row 0 cleared, only the T's (5, 1) cell
    // survives, dropped to (5, 0).
    assert_eq!(u.game().lines_cleared(), 1);
    assert_eq!(u.stagnant_tetrominos().len(), 1);
    assert_eq!(sorted_cells(&u.stagnant_tetrominos()[0]), vec![(5, 0)]);
    assert!(*u.game().running());
}

#[test]
fn wall_block_through_tick() {
    // A pressed left key is processed by the tick but the wall blocks it.
    let t = Tetromino::spawn_tetrimno(
        vec![Coord::new(1, 0), Coord::new(0, 0), Coord::new(1, 1), Coord::new(2, 0)],
        Coord::new(1, 10),
        TetrominoType::T,
    );
    let before = t.coords().clone();
    let mut u = empty_board(t, 61);
    let mut snap = InputSnapshot::none();
    snap.left_pressed = true;
    snap.left_down = true;
    u.tick(&snap);
    assert_eq!(u.focused_tetromino().coords(), &before);
}

#[test]
fn lines_cleared_sticks_at_the_cap() {
    let full_row = piece_from_cells(&[
        (0, 0), (1, 0), (2, 0), (3, 0), (4, 0), (5, 0), (6, 0), (7, 0), (8, 0), (9, 0),
    ]);
    let focused = TetrominoType::generate_tetromino_from_type(TetrominoType::T);
    let game = Game { ticks: 0, running: true, lines_cleared: u32::MAX, level: 0 };
    let mut u = Universe::new(10, 24, focused, vec![full_row], 12, game);
    u.clear_full_rows();
    assert!(u.stagnant_tetrominos().is_empty());
    assert_eq!(u.game().lines_cleared(), u32::MAX);
}
