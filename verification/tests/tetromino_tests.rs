use tetris_core::tetromino::{Coord, Direction, Tetromino, TetrominoType};
use tetris_core::universe::Universe;

fn t_piece(spawn: Coord) -> Tetromino {
    Tetromino::spawn_tetrimno(
        vec![
            Coord::new(0, 0),
            Coord::new(1, 1),
            Coord::new(1, 0),
            Coord::new(2, 0),
        ],
        spawn,
        TetrominoType::T,
    )
}

#[test]
fn test_move_down() {
    let mut tetromino = Tetromino::spawn_tetrimno(
        vec![
            Coord::new(1, 0),
            Coord::new(0, 0),
            Coord::new(1, 1),
            Coord::new(2, 0),
        ],
        Coord::new(5, 22),
        TetrominoType::T,
    );
    tetromino.move_by(Tetromino::get_dxdy(Direction::Down));

    let right_real_coords = vec![
        Coord { x: 5, y: 21 },
        Coord { x: 4, y: 21 },
        Coord { x: 5, y: 22 },
        Coord { x: 6, y: 21 },
    ];

    for idx in (0..4).into_iter() {
        assert_eq!(right_real_coords.get(idx), tetromino.coords().get(idx))
    }
}

#[test]
fn test_move_down_3() {
    let mut tetromino = t_piece(Coord::new(5, 22));
    tetromino.move_by(Tetromino::get_dxdy(Direction::Left));
    tetromino.move_by(Tetromino::get_dxdy(Direction::Left));
    tetromino.move_by(Tetromino::get_dxdy(Direction::Left));

    let right_real_coords = vec![
        Coord { x: 2, y: 22 },
        Coord { x: 3, y: 23 },
        Coord { x: 3, y: 22 },
        Coord { x: 4, y: 22 },
    ];

    for idx in (0..4).into_iter() {
        assert_eq!(right_real_coords.get(idx), tetromino.coords().get(idx))
    }
}

#[test]
fn test_increment_arr() {
    let mut arr = vec![0_u32; 5];
    let test = vec![0, 1, 1, 1, 1];
    Universe::change_arr_from_idx(&mut arr, 1, 1);
    assert_eq!(arr, test);
}

#[test]
fn test_t_tetrimino_spawn() {
    let tetrimino = t_piece(Coord::new(5, 22));
    let right_real_coords = vec![
        Coord { x: 5, y: 22 },
        Coord { x: 6, y: 23 },
        Coord { x: 6, y: 22 },
        Coord { x: 7, y: 22 },
    ];
    for idx in (0..4).into_iter() {
        assert_eq!(right_real_coords.get(idx), tetrimino.coords().get(idx))
    }
}

#[test]
fn tetriminos_test_boundary_positive() {
    let tetrimino = t_piece(Coord::new(5, 10));
    assert!(tetrimino.within_boundary(Tetromino::get_dxdy(Direction::Down), 10, 24));
}

#[test]
fn tetriminos_test_boundary_negative() {
    let tetrimino = t_piece(Coord::new(5, 0));
    // The pivot cell sits on the floor, so a downward move leaves the board.
    assert!(!tetrimino.within_boundary(Tetromino::get_dxdy(Direction::Down), 10, 24));
}

#[test]
fn test_t_tetromino_spawn() {
    let tetromino = t_piece(Coord::new(5, 22));
    let right_real_coords = vec![
        Coord { x: 5, y: 22 },
        Coord { x: 6, y: 23 },
        Coord { x: 6, y: 22 },
        Coord { x: 7, y: 22 },
    ];
    for idx in (0..4).into_iter() {
        assert_eq!(right_real_coords.get(idx), tetromino.coords().get(idx))
    }
}

#[test]
fn tetrominos_test_boundary_positive() {
    let tetromino = t_piece(Coord::new(5, 10));
    assert!(tetromino.within_boundary(Tetromino::get_dxdy(Direction::Down), 10, 24));
}

#[test]
fn tetrominos_test_boundary_negative() {
    let tetromino = t_piece(Coord::new(5, 0));
    assert!(!tetromino.within_boundary(Tetromino::get_dxdy(Direction::Down), 10, 24));
}

#[test]
fn spawn_shapes_of_every_kind() {
    let cases: Vec<(TetrominoType, [(u32, u32); 4])> = vec![
        (TetrominoType::I, [(5, 22), (4, 22), (6, 22), (7, 22)]),
        (TetrominoType::J, [(5, 22), (4, 22), (6, 22), (4, 23)]),
        (TetrominoType::L, [(5, 22), (4, 22), (6, 22), (6, 23)]),
        (TetrominoType::O, [(5, 22), (6, 22), (5, 23), (6, 23)]),
        (TetrominoType::S, [(5, 22), (4, 22), (5, 23), (6, 23)]),
        (TetrominoType::T, [(5, 22), (4, 22), (5, 23), (6, 22)]),
        (TetrominoType::Z, [(5, 22), (6, 22), (4, 23), (5, 23)]),
    ];
    for (kind, cells) in cases {
        let t = TetrominoType::generate_tetromino_from_type(kind);
        assert_eq!(t.coords().len(), 4);
        for (i, (x, y)) in cells.iter().enumerate() {
            assert_eq!(t.coords()[i], Coord { x: *x, y: *y });
        }
        assert_eq!(*t.rotation_state().rn(), 0);
    }
}

#[test]
fn random_piece_is_a_fresh_spawn() {
    // Every kind's spawn shape contains the anchor cell and has 4 cells.
    for _ in 0..50 {
        let t = TetrominoType::generate_tetromino_rand();
        assert_eq!(t.coords().len(), 4);
        assert!(t.coords().contains(&Coord { x: 5, y: 22 }));
        assert_eq!(*t.rotation_state().rn(), 0);
    }
}

#[test]
fn boundary_at_each_wall() {
    // Pivot at the left wall: a left move leaves the board.
    let t = t_piece(Coord::new(0, 10));
    assert!(!t.within_boundary(Tetromino::get_dxdy(Direction::Left), 10, 24));
    assert!(t.within_boundary(Tetromino::get_dxdy(Direction::Right), 10, 24));
    // A cell in the rightmost column: a right move leaves the board.
    let t = t_piece(Coord::new(7, 10));
    assert!(!t.within_boundary(Tetromino::get_dxdy(Direction::Right), 10, 24));
    assert!(t.within_boundary(Tetromino::get_dxdy(Direction::Left), 10, 24));
    // A cell in the top row: an upward move leaves the board.
    let t = t_piece(Coord::new(5, 22));
    assert!(!t.within_boundary(Tetromino::get_dxdy(Direction::Up), 10, 24));
    assert!(t.within_boundary(Tetromino::get_dxdy(Direction::Down), 10, 24));
}

#[test]
fn collision_exactly_on_intersection() {
    let a = t_piece(Coord::new(5, 10));
    let clear = t_piece(Coord::new(5, 14));
    let blocking = t_piece(Coord::new(5, 12));
    // Disjoint after the displacement: no collision.
    assert!(!Tetromino::will_collide(&a, &clear, 0, 1));
    // a's (6, 11) cell moved up meets blocking's (6, 12) cell.
    assert!(Tetromino::will_collide(&a, &blocking, 0, 1));
    assert!(!Tetromino::will_collide(&a, &blocking, 0, 0));

    let settled = vec![clear.clone(), blocking.clone()];
    assert!(Tetromino::will_collide_all(&a, &settled, [0, 1]));
    let settled_clear = vec![clear];
    assert!(!Tetromino::will_collide_all(&a, &settled_clear, [0, 1]));
    assert!(!Tetromino::will_collide_all(&a, &Vec::new(), [0, 1]));
}

#[test]
fn reversed_coord_y_formula() {
    assert_eq!(Tetromino::reversed_coord_y(900, 2, 45), 810);
    assert_eq!(Tetromino::reversed_coord_y(900, 0, 45), 900);
}

#[test]
fn circular_num_steps_modularly() {
    let mut c = tetris_core::tetromino::CircularNum::default();
    assert_eq!(*c.rn(), 0);
    assert_eq!(c.get_increment(1), 1);
    assert_eq!(c.get_increment(-1), 3);
    c.increment(1);
    assert_eq!(*c.rn(), 1);
    c.increment(-1);
    c.increment(-1);
    assert_eq!(*c.rn(), 3);
    c.increment(1);
    assert_eq!(*c.rn(), 0);
}
