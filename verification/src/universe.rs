//! Board and game state: the focused piece, the settled pieces, the tick
//! counters, the run/game-over status, and the per-tick step that drives
//! falling, rotation with wall kicks, line clearing and gravity compaction.

use vstd::prelude::*;
use crate::tetromino::{
    all_cells_within, cells_moved, collides_with_any, kind_of_index, models_of, spawn_model,
    CircularNum, Coord, Direction, Tetromino, TetrominoType, TetrominoView,
};
use crate::rotations::{
    all_pairs_within, kick_between, kick_offset_at, n_kick_rows, n_kick_rows_of, pairs_collide_any,
    pairs_hit_settled, pairs_to_cells, pairs_within_bounds, rotated_cells, rotation_step,
    shifted_pairs, wide_pairs, RotationDirection,
};
use crate::input::{
    emitted, key_wf, stepped_keys, ControlsView, GameAction, InputSnapshot, TetrominoControls,
};

verus! {

/// The game record: internal tick counter, run status, and score counters.
/// `running == false` marks game over; only a restart resumes it.
#[derive(Debug, Clone, Copy, PartialEq, Eq, Structural)]
pub struct Game {
    pub ticks: u32,
    pub running: bool,
    pub lines_cleared: u32,
    pub level: u32,
}

impl Game {
    /// Get a reference to the game's run status.
    pub fn running(&self) -> (r: &bool)
        ensures
            *r == self.running,
    {
        &self.running
    }

    /// Get a reference to the game's tick counter.
    pub fn ticks(&self) -> (r: &u32)
        ensures
            *r == self.ticks,
    {
        &self.ticks
    }

    /// Get a mutable reference to the game's tick counter.
    pub fn ticks_mut(&mut self) -> (r: &mut u32)
        ensures
            *r == old(self).ticks,
            *final(self) == (Game { ticks: *final(r), ..*old(self) }),
    {
        &mut self.ticks
    }

    /// The number of lines cleared so far.
    pub fn lines_cleared(&self) -> (r: u32)
        ensures
            r == self.lines_cleared,
    {
        self.lines_cleared
    }

    /// The current level counter.
    pub fn level(&self) -> (r: u32)
        ensures
            r == self.level,
    {
        self.level
    }

    /// Marks the game as stopped (game over).
    pub fn pause(&mut self)
        ensures
            *final(self) == (Game { running: false, ..*old(self) }),
    {
        self.running = false;
    }

    /// Marks the game as running again.
    pub fn resume(&mut self)
        ensures
            *final(self) == (Game { running: true, ..*old(self) }),
    {
        self.running = true;
    }
}

impl Default for Game {
    fn default() -> (g: Game)
        ensures
            g == (Game { ticks: 0, running: true, lines_cleared: 0, level: 0 }),
    {
        Game { ticks: 0, running: true, lines_cleared: 0, level: 0 }
    }
}

/// The board: the player-controlled piece, the settled pieces, the input
/// machine, the board dimensions, the fall cadence, and the game record.
pub struct Universe {
    pub(crate) focused_tetromino: Tetromino,
    pub(crate) stagnant_tetrominos: Vec<Tetromino>,
    pub(crate) tetromino_controls: TetrominoControls,
    pub(crate) w: u32,
    pub(crate) h: u32,
    pub(crate) fall_rate: u32,
    pub(crate) game: Game,
}

/// The mathematical model of the whole board state.
#[verifier::ext_equal]
pub ghost struct UniverseView {
    pub focused: TetrominoView,
    pub stagnant: Seq<TetrominoView>,
    pub controls: ControlsView,
    pub w: u32,
    pub h: u32,
    pub fall_rate: u32,
    pub game: Game,
}

/// Well-formedness of a board state: sane dimensions and cadence, a
/// four-cell focused piece with a valid rotation counter, every cell on
/// the board, and a well-formed key bank.
pub open(crate) spec fn view_wf(v: UniverseView) -> bool {
    &&& 8 <= v.w <= 1000
    &&& 24 <= v.h <= 1000
    &&& 1 <= v.fall_rate
    &&& v.game.ticks < 60
    &&& v.focused.cells.len() == 4
    &&& v.focused.rot.wf()
    &&& all_cells_within(v.focused.cells, 0, 0, v.w as int, v.h as int)
    &&& forall|k: int| 0 <= k < v.stagnant.len()
        ==> all_cells_within((#[trigger] v.stagnant[k]).cells, 0, 0, v.w as int, v.h as int)
    &&& forall|i: int| 0 <= i < v.controls.keys.len() ==> key_wf(#[trigger] v.controls.keys[i])
}

impl Universe {
    pub open(crate) spec fn model(self) -> UniverseView {
        UniverseView {
            focused: self.focused_tetromino.model(),
            stagnant: models_of(self.stagnant_tetrominos@),
            controls: self.tetromino_controls.model(),
            w: self.w,
            h: self.h,
            fall_rate: self.fall_rate,
            game: self.game,
        }
    }

    pub open(crate) spec fn wf(self) -> bool {
        view_wf(self.model())
    }

    /// Builds a board with a fresh key bank. The piece and every settled
    /// cell must already lie on the board.
    pub fn new(
        w: u32,
        h: u32,
        focused_tetromino: Tetromino,
        stagnant_tetrominos: Vec<Tetromino>,
        fall_rate: u32,
        game: Game,
    ) -> (r: Universe)
        requires
            8 <= w <= 1000,
            24 <= h <= 1000,
            1 <= fall_rate,
            game.ticks < 60,
            focused_tetromino.cells_spec().len() == 4,
            focused_tetromino.rot_spec().wf(),
            all_cells_within(focused_tetromino.cells_spec(), 0, 0, w as int, h as int),
            forall|k: int| 0 <= k < stagnant_tetrominos@.len()
                ==> all_cells_within((#[trigger] stagnant_tetrominos@[k]).cells_spec(), 0, 0,
                    w as int, h as int),
        ensures
            r.wf(),
            r.model().focused == focused_tetromino.model(),
            r.model().stagnant == models_of(stagnant_tetrominos@),
            r.model().w == w,
            r.model().h == h,
            r.model().fall_rate == fall_rate,
            r.model().game == game,
            r.model().controls.queue == Seq::<GameAction>::empty(),
    {
        let tetromino_controls = TetrominoControls::new();
        let r = Universe {
            focused_tetromino,
            stagnant_tetrominos,
            tetromino_controls,
            w,
            h,
            fall_rate,
            game,
        };
        proof {
            assert forall|k: int| 0 <= k < r.model().stagnant.len()
                implies all_cells_within((#[trigger] r.model().stagnant[k]).cells, 0, 0,
                    r.w as int, r.h as int) by {
                assert(r.model().stagnant[k] == r.stagnant_tetrominos@[k].model());
            }
        }
        r
    }

    /// Get a reference to the focused piece.
    pub fn focused_tetromino(&self) -> (r: &Tetromino)
        ensures
            r.model() == self.model().focused,
    {
        &self.focused_tetromino
    }

    /// Get a reference to the settled pieces.
    pub fn stagnant_tetrominos(&self) -> (r: &Vec<Tetromino>)
        ensures
            models_of(r@) == self.model().stagnant,
    {
        &self.stagnant_tetrominos
    }

    /// Get a reference to the game record.
    pub fn game(&self) -> (r: &Game)
        ensures
            *r == self.model().game,
    {
        &self.game
    }

    /// Get a reference to the board's tick counter.
    pub fn ticks(&self) -> (r: &u32)
        ensures
            *r == self.model().game.ticks,
    {
        &self.game.ticks
    }

    /// The board width in cells.
    pub fn width(&self) -> (r: u32)
        ensures
            r == self.model().w,
    {
        self.w
    }

    /// The board height in cells, spawn buffer rows included.
    pub fn height(&self) -> (r: u32)
        ensures
            r == self.model().h,
    {
        self.h
    }

    /// Adds `diff` to every entry of `arr` at or above index `idx`.
    pub fn change_arr_from_idx(arr: &mut Vec<u32>, idx: u32, diff: u32)
        requires
            forall|i: int| idx <= i < old(arr)@.len() ==> #[trigger] old(arr)@[i] + diff <= u32::MAX,
        ensures
            final(arr)@.len() == old(arr)@.len(),
            forall|i: int| 0 <= i < idx && i < old(arr)@.len()
                ==> #[trigger] final(arr)@[i] == old(arr)@[i],
            forall|i: int| idx <= i < old(arr)@.len()
                ==> #[trigger] final(arr)@[i] == old(arr)@[i] + diff,
    {
        let ghost orig = arr@;
        let mut i: usize = 0;
        while i < arr.len()
            invariant
                i <= orig.len(),
                arr@.len() == orig.len(),
                forall|j: int| idx <= j < orig.len() ==> #[trigger] orig[j] + diff <= u32::MAX,
                forall|j: int| 0 <= j < i && j < idx ==> #[trigger] arr@[j] == orig[j],
                forall|j: int| idx <= j < i ==> #[trigger] arr@[j] == orig[j] + diff,
                forall|j: int| i <= j < orig.len() ==> #[trigger] arr@[j] == orig[j],
            decreases orig.len() - i,
        {
            if i >= idx as usize {
                let v = arr[i];
                arr.set(i, v + diff);
            }
            i = i + 1;
        }
    }
}

impl Default for Universe {
    /// A standard board: 10 columns, 20 visible rows plus 4 spawn buffer
    /// rows, a random first piece, and a fall step every 12 ticks.
    fn default() -> (r: Universe)
        ensures
            r.wf(),
            r.model().w == 10,
            r.model().h == 24,
            r.model().fall_rate == 12,
            r.model().stagnant == Seq::<TetrominoView>::empty(),
            r.model().game == (Game { ticks: 0, running: true, lines_cleared: 0, level: 0 }),
            exists|k: int| 0 <= k < 7 && r.model().focused == spawn_model(#[trigger] kind_of_index(k)),
    {
        let focused = TetrominoType::generate_tetromino_rand();
        proof {
            let k = choose|k: int| 0 <= k < 7 && focused.model() == spawn_model(kind_of_index(k));
            lemma_spawn_in_bounds(kind_of_index(k), 10, 24);
        }
        let r = Universe::new(10, 24, focused, Vec::new(), 12, Game::default());
        proof {
            assert(r.model().stagnant =~= Seq::<TetrominoView>::empty());
        }
        r
    }
}

/// The key bank of `post` is the same as that of `pre`, so its
/// well-formedness carries over.
proof fn lemma_controls_wf_carries(pre: UniverseView, post: UniverseView)
    requires
        forall|i: int| 0 <= i < pre.controls.keys.len() ==> key_wf(#[trigger] pre.controls.keys[i]),
        post.controls.keys == pre.controls.keys,
    ensures
        forall|i: int| 0 <= i < post.controls.keys.len() ==> key_wf(#[trigger] post.controls.keys[i]),
{
    assert forall|i: int| 0 <= i < post.controls.keys.len()
        implies key_wf(#[trigger] post.controls.keys[i]) by {
        assert(post.controls.keys[i] == pre.controls.keys[i]);
    }
}

/// A freshly spawned piece of any kind lies on any board at least 8 wide
/// and 24 tall: its cells sit in columns 4 to 7 and rows 22 to 23.
pub proof fn lemma_spawn_in_bounds(t: TetrominoType, w: int, h: int)
    requires
        w >= 8,
        h >= 24,
    ensures
        spawn_model(t).cells.len() == 4,
        all_cells_within(spawn_model(t).cells, 0, 0, w, h),
{
    let cs = spawn_model(t).cells;
    assert forall|i: int| 0 <= i < cs.len()
        implies crate::tetromino::cell_within(#[trigger] cs[i], 0, 0, w, h) by {
        assert(4 <= cs[i].x <= 8 && 22 <= cs[i].y <= 23);
    }
}

} // verus!

verus! {

/// The board dimensions, cadence and key bank are untouched.
pub open(crate) spec fn frame_eq(pre: UniverseView, post: UniverseView) -> bool {
    &&& post.w == pre.w
    &&& post.h == pre.h
    &&& post.fall_rate == pre.fall_rate
    &&& post.controls == pre.controls
}

/// Whether the focused piece can move one cell down: the move stays on the
/// board and hits no settled piece.
pub open(crate) spec fn can_fall(v: UniverseView) -> bool {
    all_cells_within(v.focused.cells, 0, -1, v.w as int, v.h as int)
        && !collides_with_any(v.focused.cells, 0, -1, v.stagnant)
}

/// The focused piece translated by `(dx, dy)`; everything else unchanged.
pub open(crate) spec fn focused_moved(pre: UniverseView, post: UniverseView, dx: int, dy: int) -> bool {
    &&& post.focused.cells == cells_moved(pre.focused.cells, dx, dy)
    &&& post.focused.kind == pre.focused.kind
    &&& post.focused.rot == pre.focused.rot
    &&& post.stagnant == pre.stagnant
    &&& post.game == pre.game
    &&& frame_eq(pre, post)
}

/// The landed piece joins the settled list, a new piece of some kind is
/// spawned at the anchor, and the game stops exactly when the fresh piece
/// already overlaps the settled cells.
pub open(crate) spec fn settles(pre: UniverseView, landed: TetrominoView, post: UniverseView) -> bool {
    &&& post.stagnant == pre.stagnant.push(landed)
    &&& exists|k: int| 0 <= k < 7 && post.focused == spawn_model(#[trigger] kind_of_index(k))
    &&& post.game == (Game {
        running: pre.game.running
            && !collides_with_any(post.focused.cells, 0, 0, post.stagnant),
        ..pre.game
    })
    &&& frame_eq(pre, post)
}

/// One fall step: the focused piece moves a cell down if it legally can;
/// otherwise it settles and a fresh random piece takes its place.
pub open(crate) spec fn fall_rel(pre: UniverseView, post: UniverseView) -> bool {
    if can_fall(pre) {
        focused_moved(pre, post, 0, -1)
    } else {
        settles(pre, pre.focused, post)
    }
}

/// A sideways move, applied only when it stays on the board and hits no
/// settled piece; otherwise nothing changes.
pub open(crate) spec fn guarded_shift_rel(pre: UniverseView, post: UniverseView, dx: int, dy: int) -> bool {
    if all_cells_within(pre.focused.cells, dx, dy, pre.w as int, pre.h as int)
        && !collides_with_any(pre.focused.cells, dx, dy, pre.stagnant) {
        focused_moved(pre, post, dx, dy)
    } else {
        post == pre
    }
}

impl Universe {
    /// One fall step of the focused piece (see `fall_rel`): down one cell
    /// if possible, else the piece settles and a random piece is spawned;
    /// spawning onto an occupied cell stops the game.
    fn fall_focused(&mut self)
        requires
            old(self).wf(),
        ensures
            final(self).wf(),
            fall_rel(old(self).model(), final(self).model()),
            final(self).model().controls == old(self).model().controls,
    {
        let within_boundary = self.focused_tetromino.within_boundary(
            Tetromino::get_dxdy(Direction::Down),
            self.w,
            self.h,
        );
        let mut collision = false;

        if within_boundary {
            collision = Tetromino::will_collide_all(
                &self.focused_tetromino,
                &self.stagnant_tetrominos,
                Tetromino::get_dxdy(Direction::Down),
            );
        }

        if !collision && within_boundary {
            self.focused_tetromino.move_by(Tetromino::get_dxdy(Direction::Down));
            proof {
                let pre = old(self).model();
                let post = self.model();
                assert forall|i: int| 0 <= i < post.focused.cells.len()
                    implies crate::tetromino::cell_within(#[trigger] post.focused.cells[i],
                        0, 0, post.w as int, post.h as int) by {
                    assert(post.focused.cells[i]
                        == crate::tetromino::coord_moved(pre.focused.cells[i], 0, -1));
                    assert(crate::tetromino::cell_within(pre.focused.cells[i], 0, -1,
                        pre.w as int, pre.h as int));
                }
                lemma_controls_wf_carries(pre, post);
            }
        } else {
            // The piece can no longer fall: solidify it and draw a new one.
            let landed = self.focused_tetromino.duplicate();
            self.stagnant_tetrominos.push(landed);
            self.focused_tetromino = TetrominoType::generate_tetromino_rand();
            // A fresh piece colliding straight away means game over.
            if Tetromino::will_collide_all(
                &self.focused_tetromino,
                &self.stagnant_tetrominos,
                [0, 0],
            ) {
                self.game.pause();
            }
            proof {
                let pre = old(self).model();
                let post = self.model();
                assert(post.stagnant =~= pre.stagnant.push(pre.focused));
                let k = choose|k: int| 0 <= k < 7
                    && self.focused_tetromino.model() == spawn_model(#[trigger] kind_of_index(k));
                lemma_spawn_in_bounds(kind_of_index(k), self.w as int, self.h as int);
                assert forall|m: int| 0 <= m < post.stagnant.len()
                    implies all_cells_within((#[trigger] post.stagnant[m]).cells, 0, 0,
                        post.w as int, post.h as int) by {
                    if m < pre.stagnant.len() {
                        assert(post.stagnant[m] == pre.stagnant[m]);
                    } else {
                        assert(post.stagnant[m] == pre.focused);
                    }
                }
                lemma_controls_wf_carries(pre, post);
            }
        }
    }
}

} // verus!

verus! {

/// The rotation index after a step in the given sense.
pub open(crate) spec fn rot_target(v: UniverseView, d: RotationDirection) -> int {
    (v.focused.rot.rn_spec() + rotation_step(d) + 4) % 4
}

/// The wall-kick displacement the resolver tries at a table row: the
/// offset at the current index minus the offset at the target index.
pub open(crate) spec fn kick_of(v: UniverseView, d: RotationDirection, row: int) -> (int, int) {
    kick_between(v.focused.kind, row, v.focused.rot.rn_spec() as int, rot_target(v, d))
}

/// The candidate placement at a table row: the piece rotated about its
/// pivot, displaced by the row's kick.
pub open(crate) spec fn kick_candidate(v: UniverseView, d: RotationDirection, row: int) -> Seq<(int, int)> {
    shifted_pairs(rotated_cells(v.focused.cells, d), kick_of(v, d, row).0, kick_of(v, d, row).1)
}

/// Whether the candidate placement at a table row is legal: on the board
/// and free of the settled cells.
pub open(crate) spec fn kick_passes(v: UniverseView, d: RotationDirection, row: int) -> bool {
    all_pairs_within(kick_candidate(v, d, row), v.w as int, v.h as int)
        && !pairs_collide_any(kick_candidate(v, d, row), v.stagnant)
}

/// Whether `row` is the first table row whose candidate placement is
/// legal (the resolver is first-fit, in table order).
pub open(crate) spec fn first_passing(v: UniverseView, d: RotationDirection, row: int) -> bool {
    &&& 0 <= row < n_kick_rows(v.focused.kind)
    &&& kick_passes(v, d, row)
    &&& forall|q: int| 0 <= q < row ==> !kick_passes(v, d, q)
}

/// The state after committing the rotation at a table row: the rotated,
/// kicked cells, the stepped rotation index, and nothing else changed.
pub open(crate) spec fn rotation_committed(
    pre: UniverseView,
    post: UniverseView,
    d: RotationDirection,
    row: int,
) -> bool {
    &&& post.focused.cells == pairs_to_cells(kick_candidate(pre, d, row))
    &&& post.focused.kind == pre.focused.kind
    &&& post.focused.rot == (CircularNum { rn: rot_target(pre, d) as u32, max: 4 })
    &&& post.stagnant == pre.stagnant
    &&& post.game == pre.game
    &&& frame_eq(pre, post)
}

/// The rotation resolver: the first passing table row is committed; if no
/// row passes, the state is unchanged (the attempted rotation is undone).
pub open(crate) spec fn rotate_rel(pre: UniverseView, post: UniverseView, d: RotationDirection) -> bool {
    &&& ((forall|row: int| 0 <= row < n_kick_rows(pre.focused.kind)
        ==> !(#[trigger] kick_passes(pre, d, row))) ==> post == pre)
    &&& (forall|row: int| #[trigger] first_passing(pre, d, row)
        ==> rotation_committed(pre, post, d, row))
}

impl Universe {
    /// Rotates the focused piece in the given sense through the wall-kick
    /// resolver (see `rotate_rel`): the piece is turned 90 degrees about
    /// its pivot cell, the kind's offset table rows are tried first-fit,
    /// and the first legal kicked placement is committed together with the
    /// stepped rotation index. When no row passes, the piece is left
    /// exactly as it was.
    fn rotate_focused(&mut self, rot_direction: RotationDirection)
        requires
            old(self).wf(),
        ensures
            final(self).wf(),
            rotate_rel(old(self).model(), final(self).model(), rot_direction),
            final(self).model().controls == old(self).model().controls,
    {
        let ghost pre = old(self).model();

        // The rotated cell positions, about the pivot, in wide integers:
        // near a wall an intermediate position may be negative, and it is
        // committed to the unsigned cells only after a kick test passes.
        let cx = self.focused_tetromino.coords[0].x;
        let cy = self.focused_tetromino.coords[0].y;
        let mut rot: Vec<(i64, i64)> = Vec::new();
        let mut i: usize = 0;
        while i < self.focused_tetromino.coords.len()
            invariant
                *self == *old(self),
                pre == old(self).model(),
                old(self).wf(),
                cx == pre.focused.cells[0].x,
                cy == pre.focused.cells[0].y,
                i <= pre.focused.cells.len(),
                rot@.len() == i,
                forall|j: int| 0 <= j < i
                    ==> ((#[trigger] rot@[j]).0 as int, rot@[j].1 as int)
                        == rotated_cells(pre.focused.cells, rot_direction)[j]
                        && -0x3_0000_0000 <= rot@[j].0 <= 0x3_0000_0000
                        && -0x3_0000_0000 <= rot@[j].1 <= 0x3_0000_0000,
            decreases pre.focused.cells.len() - i,
        {
            let c = self.focused_tetromino.coords[i];
            let ox = c.x as i64 - cx as i64;
            let oy = c.y as i64 - cy as i64;
            let fxy: (i64, i64) = match rot_direction {
                RotationDirection::Clockwise => (oy, -ox),
                RotationDirection::CounterClockwise => (-oy, ox),
            };
            rot.push((cx as i64 + fxy.0, cy as i64 + fxy.1));
            i = i + 1;
        }

        let step: i32 = match rot_direction {
            RotationDirection::Clockwise => 1,
            RotationDirection::CounterClockwise => -1,
        };
        let cur: u32 = *self.focused_tetromino.rotation_state.rn();
        let tgt: u32 = self.focused_tetromino.rotation_state.get_increment(step);
        proof {
            assert(cur == pre.focused.rot.rn_spec());
            assert(tgt as int == rot_target(pre, rot_direction));
        }

        let kind = self.focused_tetromino.tetromino_type;
        let nrows = n_kick_rows_of(&kind);
        let mut row: usize = 0;
        while row < nrows
            invariant
                *self == *old(self),
                pre == old(self).model(),
                old(self).wf(),
                nrows == n_kick_rows(pre.focused.kind),
                kind == pre.focused.kind,
                step as int == rotation_step(rot_direction),
                cur == pre.focused.rot.rn_spec(),
                cur < 4,
                tgt as int == rot_target(pre, rot_direction),
                tgt < 4,
                row <= nrows,
                rot@.len() == pre.focused.cells.len(),
                forall|j: int| 0 <= j < rot@.len()
                    ==> ((#[trigger] rot@[j]).0 as int, rot@[j].1 as int)
                        == rotated_cells(pre.focused.cells, rot_direction)[j]
                        && -0x3_0000_0000 <= rot@[j].0 <= 0x3_0000_0000
                        && -0x3_0000_0000 <= rot@[j].1 <= 0x3_0000_0000,
                forall|q: int| 0 <= q < row ==> !kick_passes(pre, rot_direction, q),
            decreases nrows - row,
        {
            let oc = kick_offset_at(&kind, row, cur as usize);
            let ot = kick_offset_at(&kind, row, tgt as usize);
            let kx: i64 = oc.0 as i64 - ot.0 as i64;
            let ky: i64 = oc.1 as i64 - ot.1 as i64;
            proof {
                assert((kx as int, ky as int) == kick_of(pre, rot_direction, row as int));
                assert(wide_pairs(rot@) =~= rotated_cells(pre.focused.cells, rot_direction));
                assert(shifted_pairs(wide_pairs(rot@), kx as int, ky as int)
                    =~= kick_candidate(pre, rot_direction, row as int));
            }
            let ok = pairs_within_bounds(&rot, kx, ky, self.w, self.h)
                && !pairs_hit_settled(&rot, kx, ky, &self.stagnant_tetrominos);
            if ok {
                // Commit: write the kicked placement and step the index.
                let ghost cand = kick_candidate(pre, rot_direction, row as int);
                let mut i2: usize = 0;
                while i2 < self.focused_tetromino.coords.len()
                    invariant
                        pre == old(self).model(),
                        view_wf(pre),
                        step as int == rotation_step(rot_direction),
                        tgt as int == rot_target(pre, rot_direction),
                        self.stagnant_tetrominos@ == old(self).stagnant_tetrominos@,
                        self.tetromino_controls == old(self).tetromino_controls,
                        self.w == old(self).w,
                        self.h == old(self).h,
                        self.fall_rate == old(self).fall_rate,
                        self.game == old(self).game,
                        self.focused_tetromino.tetromino_type == pre.focused.kind,
                        self.focused_tetromino.rotation_state == pre.focused.rot,
                        cand == kick_candidate(pre, rot_direction, row as int),
                        all_pairs_within(cand, pre.w as int, pre.h as int),
                        pre.w == self.w && pre.h == self.h,
                        rot@.len() == pre.focused.cells.len(),
                        self.focused_tetromino.coords@.len() == pre.focused.cells.len(),
                        cand.len() == pre.focused.cells.len(),
                        i2 <= pre.focused.cells.len(),
                        forall|j: int| 0 <= j < rot@.len()
                            ==> ((#[trigger] rot@[j]).0 as int, rot@[j].1 as int)
                                == rotated_cells(pre.focused.cells, rot_direction)[j],
                        (kx as int, ky as int) == kick_of(pre, rot_direction, row as int),
                        forall|j: int| 0 <= j < i2
                            ==> #[trigger] self.focused_tetromino.coords@[j]
                                == pairs_to_cells(cand)[j],
                    decreases pre.focused.cells.len() - i2,
                {
                    let p = rot[i2];
                    proof {
                        assert(cand[i2 as int] == (p.0 + kx, p.1 + ky));
                        assert(0 <= cand[i2 as int].0 < pre.w as int);
                        assert(0 <= cand[i2 as int].1 < pre.h as int);
                    }
                    let nx = (p.0 + kx) as u32;
                    let ny = (p.1 + ky) as u32;
                    self.focused_tetromino.coords.set(i2, Coord { x: nx, y: ny });
                    i2 = i2 + 1;
                }
                self.focused_tetromino.rotation_state.increment(step);
                proof {
                    let post = self.model();
                    assert(post.focused.cells =~= pairs_to_cells(cand));
                    assert(post.focused.rot.rn_spec() == tgt);
                    assert(post.focused.rot == (CircularNum {
                        rn: rot_target(pre, rot_direction) as u32,
                        max: 4,
                    }));
                    assert(rotation_committed(pre, post, rot_direction, row as int));
                    assert(kick_passes(pre, rot_direction, row as int));
                    // The committed row is the unique first-passing row.
                    assert forall|r2: int| #[trigger] first_passing(pre, rot_direction, r2)
                        implies rotation_committed(pre, post, rot_direction, r2) by {
                        if r2 < row as int {
                            assert(!kick_passes(pre, rot_direction, r2));
                        } else if r2 > row as int {
                            assert(!kick_passes(pre, rot_direction, row as int));
                        }
                    }
                    // Well-formedness: the committed cells are on the board.
                    assert forall|j: int| 0 <= j < post.focused.cells.len()
                        implies crate::tetromino::cell_within(#[trigger] post.focused.cells[j],
                            0, 0, post.w as int, post.h as int) by {
                        assert(post.focused.cells[j] == pairs_to_cells(cand)[j]);
                        assert(0 <= cand[j].0 < pre.w as int && 0 <= cand[j].1 < pre.h as int);
                    }
                    lemma_controls_wf_carries(pre, post);
                    assert forall|m: int| 0 <= m < post.stagnant.len()
                        implies all_cells_within((#[trigger] post.stagnant[m]).cells, 0, 0,
                            post.w as int, post.h as int) by {
                        assert(post.stagnant[m] == pre.stagnant[m]);
                    }
                }
                return;
            }
            proof {
                assert(!kick_passes(pre, rot_direction, row as int));
            }
            row = row + 1;
        }
        // No table row passes: the rotation is abandoned and the piece is
        // exactly as it was.
        proof {
            let post = self.model();
            assert(post == pre);
            assert forall|r2: int| #[trigger] first_passing(pre, rot_direction, r2)
                implies rotation_committed(pre, post, rot_direction, r2) by {
                assert(!kick_passes(pre, rot_direction, r2));
            }
        }
    }
}

} // verus!

verus! {

/// Whether the focused piece, already dropped `e` cells, can fall one
/// more: displacing by `(0, -e - 1)` stays on the board and hits nothing.
pub open(crate) spec fn can_fall_from(v: UniverseView, e: int) -> bool {
    all_cells_within(v.focused.cells, 0, -e - 1, v.w as int, v.h as int)
        && !collides_with_any(v.focused.cells, 0, -e - 1, v.stagnant)
}

/// A hard drop: the focused piece moves straight down to the lowest legal
/// position (the first displacement that cannot fall further), settles
/// there, and a fresh random piece is spawned. No drop bonus is scored:
/// only `lines_cleared` counts toward the score in this engine.
pub open(crate) spec fn hard_drop_rel(pre: UniverseView, post: UniverseView) -> bool {
    exists|d: int|
        {
            &&& 0 <= d
            &&& forall|e: int| 0 <= e < d ==> can_fall_from(pre, e)
            &&& !(#[trigger] can_fall_from(pre, d))
            &&& settles(pre, TetrominoView { cells: cells_moved(pre.focused.cells, 0, -d),
                ..pre.focused }, post)
        }
}

impl Universe {
    /// Whether the focused piece can legally move one cell down now.
    fn can_fall_now(&self) -> (r: bool)
        ensures
            r == can_fall(self.model()),
    {
        let dxdy = Tetromino::get_dxdy(Direction::Down);
        self.focused_tetromino.within_boundary(dxdy, self.w, self.h)
            && !Tetromino::will_collide_all(&self.focused_tetromino, &self.stagnant_tetrominos,
                dxdy)
    }

    /// Drops the focused piece to its lowest legal position, then settles
    /// it through the fall step (see `hard_drop_rel`).
    fn hard_drop(&mut self)
        requires
            old(self).wf(),
        ensures
            final(self).wf(),
            hard_drop_rel(old(self).model(), final(self).model()),
            final(self).model().controls == old(self).model().controls,
    {
        let ghost pre = old(self).model();
        let mut d: u32 = 0;
        while self.can_fall_now()
            invariant
                pre == old(self).model(),
                view_wf(pre),
                self.wf(),
                d <= pre.h,
                self.model().focused.cells == cells_moved(pre.focused.cells, 0, -(d as int)),
                self.model().focused.kind == pre.focused.kind,
                self.model().focused.rot == pre.focused.rot,
                self.model().stagnant == pre.stagnant,
                self.model().game == pre.game,
                frame_eq(pre, self.model()),
                forall|e: int| 0 <= e < d ==> can_fall_from(pre, e),
                forall|i: int| 0 <= i < pre.focused.cells.len()
                    ==> (#[trigger] self.model().focused.cells[i]).x == pre.focused.cells[i].x
                        && self.model().focused.cells[i].y == pre.focused.cells[i].y - d,
            decreases pre.h - d,
        {
            let ghost mid = self.model();
            proof {
                // One more legal fall from the current position is one more
                // legal displacement from the starting position.
                assert forall|i: int| 0 <= i < pre.focused.cells.len()
                    implies crate::tetromino::cell_within(#[trigger] pre.focused.cells[i], 0,
                        -(d as int) - 1, pre.w as int, pre.h as int) by {
                    assert(crate::tetromino::cell_within(mid.focused.cells[i], 0, -1,
                        mid.w as int, mid.h as int));
                }
                assert(!collides_with_any(pre.focused.cells, 0, -(d as int) - 1, pre.stagnant))
                    by {
                    if collides_with_any(pre.focused.cells, 0, -(d as int) - 1, pre.stagnant) {
                        let k = choose|k: int| 0 <= k < pre.stagnant.len()
                            && crate::tetromino::cells_overlap(pre.focused.cells, 0,
                                -(d as int) - 1, (#[trigger] pre.stagnant[k]).cells);
                        let (i, j) = choose|i: int, j: int|
                            0 <= i < pre.focused.cells.len()
                                && 0 <= j < pre.stagnant[k].cells.len()
                                && (#[trigger] pre.focused.cells[i]).x + 0
                                    == (#[trigger] pre.stagnant[k].cells[j]).x
                                && pre.focused.cells[i].y + (-(d as int) - 1)
                                    == pre.stagnant[k].cells[j].y;
                        assert(mid.focused.cells[i].x + 0 == pre.stagnant[k].cells[j].x as int
                            && mid.focused.cells[i].y + (-1) == pre.stagnant[k].cells[j].y as int);
                        assert(collides_with_any(mid.focused.cells, 0, -1, mid.stagnant));
                    }
                }
                assert(can_fall_from(pre, d as int));
                // The pivot has room below, so the drop distance stays small.
                assert(pre.focused.cells[0].y - d - 1 >= 0);
                assert(d < pre.h);
            }
            self.focused_tetromino.move_by(Tetromino::get_dxdy(Direction::Down));
            d = d + 1;
            proof {
                assert forall|i: int| 0 <= i < pre.focused.cells.len()
                    implies (#[trigger] self.model().focused.cells[i]).x
                        == pre.focused.cells[i].x
                        && self.model().focused.cells[i].y == pre.focused.cells[i].y - d by {
                    assert(self.model().focused.cells[i]
                        == crate::tetromino::coord_moved(mid.focused.cells[i], 0, -1));
                }
                assert(self.model().focused.cells =~= cells_moved(pre.focused.cells, 0,
                    -(d as int)));
                assert forall|i: int| 0 <= i < self.model().focused.cells.len()
                    implies crate::tetromino::cell_within(#[trigger] self.model().focused.cells[i],
                        0, 0, pre.w as int, pre.h as int) by {
                    assert(crate::tetromino::cell_within(mid.focused.cells[i], 0, -1,
                        mid.w as int, mid.h as int));
                }
                lemma_controls_wf_carries(pre, self.model());
            }
        }
        let ghost mid = self.model();
        proof {
            // The loop stopped: the piece cannot fall from displacement `d`.
            assert(!can_fall(mid));
            assert(!can_fall_from(pre, d as int)) by {
                if can_fall_from(pre, d as int) {
                    assert forall|i: int| 0 <= i < mid.focused.cells.len()
                        implies crate::tetromino::cell_within(#[trigger] mid.focused.cells[i],
                            0, -1, mid.w as int, mid.h as int) by {
                        assert(crate::tetromino::cell_within(pre.focused.cells[i], 0,
                            -(d as int) - 1, pre.w as int, pre.h as int));
                    }
                    assert(!collides_with_any(mid.focused.cells, 0, -1, mid.stagnant)) by {
                        if collides_with_any(mid.focused.cells, 0, -1, mid.stagnant) {
                            let k = choose|k: int| 0 <= k < mid.stagnant.len()
                                && crate::tetromino::cells_overlap(mid.focused.cells, 0, -1,
                                    (#[trigger] mid.stagnant[k]).cells);
                            let (i, j) = choose|i: int, j: int|
                                0 <= i < mid.focused.cells.len()
                                    && 0 <= j < mid.stagnant[k].cells.len()
                                    && (#[trigger] mid.focused.cells[i]).x + 0
                                        == (#[trigger] mid.stagnant[k].cells[j]).x
                                    && mid.focused.cells[i].y + (-1)
                                        == mid.stagnant[k].cells[j].y;
                            assert(pre.focused.cells[i].x + 0
                                == pre.stagnant[k].cells[j].x as int
                                && pre.focused.cells[i].y + (-(d as int) - 1)
                                    == pre.stagnant[k].cells[j].y as int);
                            assert(collides_with_any(pre.focused.cells, 0, -(d as int) - 1,
                                pre.stagnant));
                        }
                    }
                    assert(can_fall(mid));
                }
            }
        }
        self.fall_focused();
        proof {
            let post = self.model();
            // The fall step settled the dropped piece, which is exactly the
            // starting piece displaced by `d`.
            assert(settles(mid, mid.focused, post));
            assert(mid.focused =~= (TetrominoView { cells: cells_moved(pre.focused.cells, 0,
                -(d as int)), ..pre.focused }));
            assert(settles(pre, TetrominoView { cells: cells_moved(pre.focused.cells, 0,
                -(d as int)), ..pre.focused }, post));
            assert(hard_drop_rel(pre, post)) by {
                assert(0 <= d as int && !can_fall_from(pre, d as int));
            }
        }
    }

    /// A guarded sideways move: translates the focused piece only when the
    /// move stays on the board and hits no settled piece.
    fn try_move(&mut self, direction: Direction)
        requires
            old(self).wf(),
        ensures
            final(self).wf(),
            guarded_shift_rel(old(self).model(), final(self).model(),
                crate::tetromino::dir_dxdy(direction).0, crate::tetromino::dir_dxdy(direction).1),
            final(self).model().controls == old(self).model().controls,
    {
        let dxdy = Tetromino::get_dxdy(direction);
        if self.focused_tetromino.within_boundary(dxdy, self.w, self.h)
            && !Tetromino::will_collide_all(&self.focused_tetromino, &self.stagnant_tetrominos,
                dxdy)
        {
            self.focused_tetromino.move_by(dxdy);
            proof {
                let pre = old(self).model();
                let post = self.model();
                assert forall|i: int| 0 <= i < post.focused.cells.len()
                    implies crate::tetromino::cell_within(#[trigger] post.focused.cells[i], 0, 0,
                        post.w as int, post.h as int) by {
                    assert(post.focused.cells[i] == crate::tetromino::coord_moved(
                        pre.focused.cells[i], crate::tetromino::dir_dxdy(direction).0,
                        crate::tetromino::dir_dxdy(direction).1));
                    assert(crate::tetromino::cell_within(pre.focused.cells[i],
                        crate::tetromino::dir_dxdy(direction).0,
                        crate::tetromino::dir_dxdy(direction).1, pre.w as int, pre.h as int));
                }
                lemma_controls_wf_carries(pre, post);
            }
        }
    }
}

/// What one dequeued action does to the board: a guarded sideways move, a
/// fall step, a rotation through the wall-kick resolver, or a hard drop.
/// A queued restart does nothing while the game runs; restarting is
/// handled by the game-over branch of `tick`.
pub open(crate) spec fn action_rel(pre: UniverseView, post: UniverseView, a: GameAction) -> bool {
    match a {
        GameAction::MoveLeft => guarded_shift_rel(pre, post, -1, 0),
        GameAction::MoveRight => guarded_shift_rel(pre, post, 1, 0),
        GameAction::SoftDrop => fall_rel(pre, post),
        GameAction::RotateCcw => rotate_rel(pre, post, RotationDirection::CounterClockwise),
        GameAction::RotateCw => rotate_rel(pre, post, RotationDirection::Clockwise),
        GameAction::HardDrop => hard_drop_rel(pre, post),
        GameAction::Restart => post == pre,
    }
}

impl Universe {
    /// Applies one dequeued action to the board (see `action_rel`),
    /// re-validating boundary and collision at the moment of application.
    pub fn apply_action(&mut self, action: GameAction)
        requires
            old(self).wf(),
        ensures
            final(self).wf(),
            action_rel(old(self).model(), final(self).model(), action),
            final(self).model().controls == old(self).model().controls,
    {
        match action {
            GameAction::MoveLeft => self.try_move(Direction::Left),
            GameAction::MoveRight => self.try_move(Direction::Right),
            GameAction::SoftDrop => self.fall_focused(),
            GameAction::RotateCcw => self.rotate_focused(RotationDirection::CounterClockwise),
            GameAction::RotateCw => self.rotate_focused(RotationDirection::Clockwise),
            GameAction::HardDrop => self.hard_drop(),
            GameAction::Restart => {},
        }
    }
}

} // verus!

verus! {

/// The same board with an empty action queue.
pub open(crate) spec fn queue_cleared(v: UniverseView) -> UniverseView {
    UniverseView {
        controls: ControlsView { keys: v.controls.keys, queue: Seq::empty() },
        ..v
    }
}

/// A chain of intermediate states, one action step between each pair.
pub open(crate) spec fn is_action_chain(chain: Seq<UniverseView>, acts: Seq<GameAction>) -> bool {
    chain.len() == acts.len() + 1
        && forall|i: int| 0 <= i < acts.len()
            ==> action_rel(chain[i], chain[i + 1], #[trigger] acts[i])
}

/// The actions applied in order: some chain of states leads from `pre` to
/// `post`, one action step at a time.
pub open(crate) spec fn applies_actions(
    pre: UniverseView,
    acts: Seq<GameAction>,
    post: UniverseView,
) -> bool {
    exists|chain: Seq<UniverseView>|
        #[trigger] is_action_chain(chain, acts) && chain.first() == pre && chain.last() == post
}

impl Universe {
    /// Drains the queued actions and applies each in order (see
    /// `action_rel`); the queue is empty afterwards.
    pub fn receive_key(&mut self)
        requires
            old(self).wf(),
        ensures
            final(self).wf(),
            final(self).model().controls.queue == Seq::<GameAction>::empty(),
            applies_actions(queue_cleared(old(self).model()), old(self).model().controls.queue,
                final(self).model()),
    {
        let actions = self.tetromino_controls.get_queue();
        self.tetromino_controls.clear_queue();
        let ghost start = self.model();
        let ghost mut chain: Seq<UniverseView> = seq![start];
        proof {
            assert(start =~~= queue_cleared(old(self).model()));
            lemma_controls_wf_carries(old(self).model(), start);
            assert(self.wf());
        }
        let mut i: usize = 0;
        while i < actions.len()
            invariant
                i <= actions@.len(),
                start == queue_cleared(old(self).model()),
                self.wf(),
                self.model().controls == start.controls,
                chain.len() == i + 1,
                chain.first() == start,
                chain.last() == self.model(),
                forall|j: int| 0 <= j < i
                    ==> action_rel(chain[j], chain[j + 1], #[trigger] actions@[j]),
            decreases actions@.len() - i,
        {
            self.apply_action(actions[i]);
            proof {
                chain = chain.push(self.model());
            }
            i = i + 1;
        }
        proof {
            assert(is_action_chain(chain, actions@));
        }
    }
}

} // verus!

verus! {

/// Whether some settled piece has a cell at `(x, y)`.
pub open spec fn cell_occupied(ts: Seq<TetrominoView>, x: int, y: int) -> bool {
    exists|k: int, j: int|
        #![trigger ts[k].cells[j]]
        0 <= k < ts.len() && 0 <= j < ts[k].cells.len() && ts[k].cells[j].x == x
            && ts[k].cells[j].y == y
}

/// A row is complete when every one of its `w` columns is occupied by a
/// settled cell.
pub open spec fn row_full(ts: Seq<TetrominoView>, y: int, w: int) -> bool {
    forall|x: int| 0 <= x < w ==> #[trigger] cell_occupied(ts, x, y)
}

/// The completeness flag of every row of the board.
pub open spec fn full_flags(ts: Seq<TetrominoView>, w: int, h: int) -> Seq<bool>
    recommends
        h >= 0,
{
    Seq::new(h as nat, |y: int| row_full(ts, y, w))
}

/// How many complete rows lie strictly below row `y`.
pub open spec fn count_full(full: Seq<bool>, y: int) -> nat
    decreases y,
{
    if y <= 0 {
        0
    } else {
        count_full(full, y - 1) + (if 0 <= y - 1 < full.len() && full[y - 1] {
            1nat
        } else {
            0nat
        })
    }
}

/// The cells of one piece after the clear-and-compact pass: cells on
/// complete rows are removed, and every other cell drops by the number of
/// complete rows strictly below it.
pub open spec fn surviving_cells(cs: Seq<Coord>, full: Seq<bool>) -> Seq<Coord>
    decreases cs.len(),
{
    if cs.len() == 0 {
        Seq::empty()
    } else {
        let rest = surviving_cells(cs.drop_last(), full);
        let c = cs.last();
        if c.y < full.len() && full[c.y as int] {
            rest
        } else {
            rest.push(Coord { x: c.x, y: (c.y - count_full(full, c.y as int)) as u32 })
        }
    }
}

/// The settled list after the clear-and-compact pass: each piece keeps its
/// surviving cells, and a piece whose cells are all removed is dropped.
pub open spec fn compact_settled(ts: Seq<TetrominoView>, full: Seq<bool>) -> Seq<TetrominoView>
    decreases ts.len(),
{
    if ts.len() == 0 {
        Seq::empty()
    } else {
        let rest = compact_settled(ts.drop_last(), full);
        let cs = surviving_cells(ts.last().cells, full);
        if cs.len() == 0 {
            rest
        } else {
            rest.push(TetrominoView { cells: cs, ..ts.last() })
        }
    }
}

/// Addition into a `u32` counter that sticks at the maximum instead of
/// wrapping.
pub open spec fn sat_add_u32(a: u32, n: nat) -> u32 {
    if a + n <= u32::MAX {
        (a + n) as u32
    } else {
        u32::MAX
    }
}

/// The board after one clear-and-compact pass: complete rows vanish,
/// cells above them drop by the count of cleared rows below, and the
/// cleared-line counter grows by the number of complete rows.
pub open(crate) spec fn cleared(v: UniverseView) -> UniverseView {
    let full = full_flags(v.stagnant, v.w as int, v.h as int);
    UniverseView {
        stagnant: compact_settled(v.stagnant, full),
        game: Game {
            lines_cleared: sat_add_u32(v.game.lines_cleared, count_full(full, v.h as int)),
            ..v.game
        },
        ..v
    }
}

impl Universe {
    /// Whether some settled piece has a cell at `(x, y)`.
    fn is_cell_occupied(ts: &Vec<Tetromino>, x: u32, y: u32) -> (r: bool)
        ensures
            r == cell_occupied(models_of(ts@), x as int, y as int),
    {
        let ghost ms = models_of(ts@);
        let mut k: usize = 0;
        while k < ts.len()
            invariant
                k <= ts@.len(),
                ms == models_of(ts@),
                forall|k2: int, j2: int|
                    #![trigger ms[k2].cells[j2]]
                    0 <= k2 < k && 0 <= j2 < ms[k2].cells.len()
                        ==> !(ms[k2].cells[j2].x == x && ms[k2].cells[j2].y == y),
            decreases ts@.len() - k,
        {
            let piece = &ts[k];
            let mut j: usize = 0;
            while j < piece.coords.len()
                invariant
                    k < ts@.len(),
                    j <= piece.coords@.len(),
                    ms == models_of(ts@),
                    piece.coords@ == ms[k as int].cells,
                    forall|j2: int| 0 <= j2 < j
                        ==> !((#[trigger] ms[k as int].cells[j2]).x == x
                            && ms[k as int].cells[j2].y == y),
                decreases piece.coords@.len() - j,
            {
                let c = piece.coords[j];
                if c.x == x && c.y == y {
                    proof {
                        assert(ms[k as int].cells[j as int].x == x as int
                            && ms[k as int].cells[j as int].y == y as int);
                    }
                    return true;
                }
                j = j + 1;
            }
            k = k + 1;
        }
        false
    }

    /// One clear-and-compact pass (see `cleared`): removes the cells of
    /// every complete row, drops each remaining cell by the number of
    /// complete rows below it, discards pieces left with no cells, and
    /// adds the number of complete rows to the cleared-line counter.
    pub fn clear_full_rows(&mut self)
        requires
            old(self).wf(),
        ensures
            final(self).wf(),
            final(self).model() == cleared(old(self).model()),
    {
        let ghost pre = old(self).model();
        let ghost fullg = full_flags(pre.stagnant, pre.w as int, pre.h as int);

        // Completeness flag of each row.
        let mut full: Vec<bool> = Vec::new();
        let mut y: u32 = 0;
        while y < self.h
            invariant
                *self == *old(self),
                pre == old(self).model(),
                view_wf(pre),
                fullg == full_flags(pre.stagnant, pre.w as int, pre.h as int),
                y <= pre.h,
                full@.len() == y,
                forall|y2: int| 0 <= y2 < y ==> full@[y2] == fullg[y2],
            decreases pre.h - y,
        {
            let mut row_ok = true;
            let mut x: u32 = 0;
            while x < self.w
                invariant
                    *self == *old(self),
                    pre == old(self).model(),
                    view_wf(pre),
                    x <= pre.w,
                    y < pre.h,
                    row_ok == (forall|x2: int| 0 <= x2 < x
                        ==> #[trigger] cell_occupied(pre.stagnant, x2, y as int)),
                decreases pre.w - x,
            {
                if !Universe::is_cell_occupied(&self.stagnant_tetrominos, x, y) {
                    row_ok = false;
                }
                x = x + 1;
            }
            proof {
                assert(row_ok == row_full(pre.stagnant, y as int, pre.w as int));
            }
            full.push(row_ok);
            y = y + 1;
        }
        proof {
            assert(full@ =~= fullg);
        }

        // The number of complete rows strictly below each row.
        let mut below: Vec<u32> = Vec::new();
        let mut cnt: u32 = 0;
        let mut y2: u32 = 0;
        while y2 < self.h
            invariant
                *self == *old(self),
                pre == old(self).model(),
                view_wf(pre),
                full@ == fullg,
                fullg.len() == pre.h,
                y2 <= pre.h,
                below@.len() == y2,
                cnt == count_full(fullg, y2 as int),
                cnt <= y2,
                forall|y3: int| 0 <= y3 < y2
                    ==> #[trigger] below@[y3] == count_full(fullg, y3) && below@[y3] <= y3,
            decreases pre.h - y2,
        {
            below.push(cnt);
            if full[y2 as usize] {
                cnt = cnt + 1;
            }
            y2 = y2 + 1;
        }
        proof {
            assert(cnt == count_full(fullg, pre.h as int));
        }

        // Rebuild the settled list: surviving cells, compacted downward.
        let mut kept_pieces: Vec<Tetromino> = Vec::new();
        let mut i: usize = 0;
        while i < self.stagnant_tetrominos.len()
            invariant
                *self == *old(self),
                pre == old(self).model(),
                view_wf(pre),
                full@ == fullg,
                fullg.len() == pre.h,
                below@.len() == pre.h,
                forall|y3: int| 0 <= y3 < pre.h
                    ==> #[trigger] below@[y3] == count_full(fullg, y3) && below@[y3] <= y3,
                i <= pre.stagnant.len(),
                models_of(kept_pieces@) == compact_settled(pre.stagnant.take(i as int), fullg),
                forall|m: int| 0 <= m < kept_pieces@.len()
                    ==> all_cells_within((#[trigger] kept_pieces@[m]).cells_spec(), 0, 0,
                        pre.w as int, pre.h as int),
            decreases pre.stagnant.len() - i,
        {
            let ghost piece_cells = pre.stagnant[i as int].cells;
            let mut kept: Vec<Coord> = Vec::new();
            let mut j: usize = 0;
            while j < self.stagnant_tetrominos[i].coords.len()
                invariant
                    *self == *old(self),
                    pre == old(self).model(),
                    view_wf(pre),
                    full@ == fullg,
                    fullg.len() == pre.h,
                    below@.len() == pre.h,
                    forall|y3: int| 0 <= y3 < pre.h
                        ==> #[trigger] below@[y3] == count_full(fullg, y3) && below@[y3] <= y3,
                    i < pre.stagnant.len(),
                    piece_cells == pre.stagnant[i as int].cells,
                    self.stagnant_tetrominos@[i as int].cells_spec() == piece_cells,
                    j <= piece_cells.len(),
                    kept@ == surviving_cells(piece_cells.take(j as int), fullg),
                    forall|m: int| 0 <= m < kept@.len()
                        ==> crate::tetromino::cell_within(#[trigger] kept@[m], 0, 0,
                            pre.w as int, pre.h as int),
                decreases piece_cells.len() - j,
            {
                let c = self.stagnant_tetrominos[i].coords[j];
                proof {
                    assert(all_cells_within(pre.stagnant[i as int].cells, 0, 0, pre.w as int,
                        pre.h as int));
                    assert(crate::tetromino::cell_within(piece_cells[j as int], 0, 0,
                        pre.w as int, pre.h as int));
                    assert(piece_cells.take(j + 1).drop_last() =~= piece_cells.take(j as int));
                    assert(piece_cells.take(j + 1).last() == piece_cells[j as int]);
                }
                if !full[c.y as usize] {
                    let ny = c.y - below[c.y as usize];
                    kept.push(Coord { x: c.x, y: ny });
                }
                j = j + 1;
            }
            proof {
                assert(piece_cells.take(piece_cells.len() as int) =~= piece_cells);
                assert(kept@ == surviving_cells(piece_cells, fullg));
                assert(pre.stagnant.take(i + 1).drop_last() =~= pre.stagnant.take(i as int));
                assert(pre.stagnant.take(i + 1).last() == pre.stagnant[i as int]);
            }
            if kept.len() > 0 {
                let kind = self.stagnant_tetrominos[i].tetromino_type;
                let rot = self.stagnant_tetrominos[i].rotation_state;
                let t = Tetromino { coords: kept, tetromino_type: kind, rotation_state: rot };
                kept_pieces.push(t);
                proof {
                    assert(t.model() =~= (TetrominoView {
                        cells: surviving_cells(piece_cells, fullg),
                        ..pre.stagnant[i as int]
                    }));
                    assert(models_of(kept_pieces@) =~= compact_settled(pre.stagnant.take(i + 1),
                        fullg));
                }
            } else {
                proof {
                    assert(models_of(kept_pieces@) =~= compact_settled(pre.stagnant.take(i + 1),
                        fullg));
                }
            }
            i = i + 1;
        }
        proof {
            assert(pre.stagnant.take(pre.stagnant.len() as int) =~= pre.stagnant);
        }
        self.stagnant_tetrominos = kept_pieces;

        // Count the cleared rows toward the score, sticking at the cap.
        if self.game.lines_cleared <= u32::MAX - cnt {
            self.game.lines_cleared = self.game.lines_cleared + cnt;
        } else {
            self.game.lines_cleared = u32::MAX;
        }

        proof {
            let post = self.model();
            assert(post.stagnant == compact_settled(pre.stagnant, fullg));
            assert(post.game == cleared(pre).game);
            assert(post =~~= cleared(pre));
            lemma_controls_wf_carries(pre, post);
            assert forall|m: int| 0 <= m < post.stagnant.len()
                implies all_cells_within((#[trigger] post.stagnant[m]).cells, 0, 0, post.w as int,
                    post.h as int) by {
                assert(post.stagnant[m] == self.stagnant_tetrominos@[m].model());
            }
        }
    }
}

} // verus!

verus! {

/// The tick counter advanced by one.
pub open(crate) spec fn ticked(v: UniverseView) -> UniverseView {
    UniverseView { game: Game { ticks: (v.game.ticks + 1) as u32, ..v.game }, ..v }
}

/// The tick counter wrapped back to zero once it reaches 60.
pub open(crate) spec fn wrap_ticks(v: UniverseView) -> UniverseView {
    if v.game.ticks >= 60 {
        UniverseView { game: Game { ticks: 0, ..v.game }, ..v }
    } else {
        v
    }
}

/// The key bank stepped by one tick of the snapshot, its emitted actions
/// appended to the queue.
pub open(crate) spec fn controls_stepped(v: UniverseView, inp: InputSnapshot) -> UniverseView {
    UniverseView {
        controls: ControlsView {
            keys: stepped_keys(v.controls.keys, inp),
            queue: v.controls.queue + emitted(v.controls.keys, inp),
        },
        ..v
    }
}

/// The gravity step, taken only on the ticks the fall cadence selects.
pub open(crate) spec fn step_fall_rel(due: bool, pre: UniverseView, post: UniverseView) -> bool {
    if due {
        fall_rel(pre, post)
    } else {
        post == pre
    }
}

/// The board after a restart: the settled pieces are dropped, the game
/// runs again, and the tick counter starts over. The focused piece and
/// the score counters are kept.
pub open(crate) spec fn restarted(v: UniverseView) -> UniverseView {
    UniverseView {
        stagnant: Seq::empty(),
        game: Game { running: true, ticks: 0, ..v.game },
        ..v
    }
}

/// One simulation tick.
///
/// While the game is over, every signal but the restart key is ignored.
/// While it runs: the tick counter advances (wrapping at 60), the key
/// bank consumes the snapshot and queues actions, the queued actions are
/// drained and applied in order, the gravity step falls on the cadence
/// ticks, and finally complete rows are cleared and compacted.
pub open(crate) spec fn tick_rel(pre: UniverseView, inp: InputSnapshot, post: UniverseView) -> bool {
    if !pre.game.running {
        post == if inp.restart_down {
            restarted(pre)
        } else {
            pre
        }
    } else {
        exists|s3: UniverseView, s4: UniverseView|
            {
                &&& #[trigger] applies_actions(queue_cleared(pre_action_state(pre, inp)),
                    pre_action_state(pre, inp).controls.queue, s3)
                &&& #[trigger] step_fall_rel(fall_due(pre), s3, s4)
                &&& post == cleared(s4)
            }
    }
}

/// Whether the gravity step runs this tick: the advanced counter is a
/// multiple of the fall cadence.
pub open(crate) spec fn fall_due(pre: UniverseView) -> bool {
    ticked(pre).game.ticks % pre.fall_rate == 0
}

/// The state the queued actions are applied to: counter advanced and
/// wrapped, the key bank stepped with this tick's snapshot.
pub open(crate) spec fn pre_action_state(pre: UniverseView, inp: InputSnapshot) -> UniverseView {
    controls_stepped(wrap_ticks(ticked(pre)), inp)
}

impl Universe {
    /// Advances the simulation by one tick (see `tick_rel`), consuming
    /// this tick's input snapshot.
    pub fn tick(&mut self, input: &InputSnapshot)
        requires
            old(self).wf(),
        ensures
            final(self).wf(),
            tick_rel(old(self).model(), *input, final(self).model()),
    {
        let ghost pre = old(self).model();

        if !*self.game.running() {
            // Game over: only an explicit restart acts.
            if input.restart_down {
                self.stagnant_tetrominos = Vec::new();
                self.game.resume();
                self.game.ticks = 0;
                proof {
                    let post = self.model();
                    assert(post.stagnant =~= Seq::<TetrominoView>::empty());
                    assert(post =~~= restarted(pre));
                    lemma_controls_wf_carries(pre, post);
                }
            }
            return;
        }

        // Advance the tick counter, note whether the gravity step is due,
        // and wrap the counter at 60.
        self.game.ticks = self.game.ticks + 1;
        let due = self.game.ticks % self.fall_rate == 0;
        if self.game.ticks >= 60 {
            self.game.ticks = 0;
        }
        let ghost t2 = self.model();
        proof {
            assert(t2 =~~= wrap_ticks(ticked(pre)));
            lemma_controls_wf_carries(pre, t2);
            assert(self.wf());
        }

        // Feed the snapshot to the key bank and drain the action queue.
        self.tetromino_controls.tick(input);
        let ghost s2 = self.model();
        proof {
            assert(s2 =~~= controls_stepped(t2, *input));
            assert(self.wf());
        }
        self.receive_key();
        let ghost s3 = self.model();

        // The gravity step, on the cadence ticks.
        if due {
            self.fall_focused();
        }
        let ghost s4 = self.model();

        // Clear complete rows and compact the survivors downward.
        self.clear_full_rows();

        proof {
            let post = self.model();
            assert(s2 == pre_action_state(pre, *input));
            assert(due == fall_due(pre));
            assert(applies_actions(queue_cleared(pre_action_state(pre, *input)),
                pre_action_state(pre, *input).controls.queue, s3));
            assert(step_fall_rel(fall_due(pre), s3, s4));
            assert(post == cleared(s4));
            assert(tick_rel(pre, *input, post));
        }
    }
}

} // verus!

verus! {

/// Rotating an O piece through the resolver never changes its cell set,
/// in either sense: whether or not the single kick row passes, the piece
/// covers the same 2-by-2 block of positions afterwards.
pub proof fn lemma_o_rotation_rel_preserves_cells(
    pre: UniverseView,
    post: UniverseView,
    d: RotationDirection,
    ax: int,
    ay: int,
)
    requires
        pre.focused.kind == TetrominoType::O,
        pre.focused.rot.wf(),
        crate::rotations::pairs_of(pre.focused.cells) == crate::rotations::o_block_cells(ax, ay,
            pre.focused.rot.rn_spec() as int),
        rotate_rel(pre, post, d),
    ensures
        crate::rotations::pairs_of(post.focused.cells).to_set()
            == crate::rotations::pairs_of(pre.focused.cells).to_set(),
{
    let rn = pre.focused.rot.rn_spec() as int;
    if kick_passes(pre, d, 0) {
        assert(first_passing(pre, d, 0));
        assert(rotation_committed(pre, post, d, 0));
        assert(rot_target(pre, d) == crate::rotations::next_index(rn, d));
        assert(kick_candidate(pre, d, 0) =~= crate::rotations::free_rot_step(
            crate::rotations::pairs_of(pre.focused.cells), TetrominoType::O, rn, d));
        crate::rotations::lemma_o_rotation_preserves_cells(ax, ay, rn, d);
        crate::rotations::lemma_pairs_to_cells_exact(kick_candidate(pre, d, 0), pre.w as int,
            pre.h as int);
        assert(crate::rotations::pairs_of(post.focused.cells) == kick_candidate(pre, d, 0));
    } else {
        assert(forall|row: int| 0 <= row < n_kick_rows(pre.focused.kind)
            ==> !(#[trigger] kick_passes(pre, d, row)));
        assert(post == pre);
    }
}

/// Four successive rotations in one sense, each committed through the
/// zero-displacement first kick row (as happens on an open board),
/// restore both the cell layout and the rotation index of any piece of a
/// four-state kind (every kind but O).
pub proof fn lemma_four_rotations_restore(
    v0: UniverseView,
    v1: UniverseView,
    v2: UniverseView,
    v3: UniverseView,
    v4: UniverseView,
    d: RotationDirection,
)
    requires
        v0.focused.kind != TetrominoType::O,
        v0.focused.rot.wf(),
        v0.focused.cells.len() >= 1,
        first_passing(v0, d, 0) && rotation_committed(v0, v1, d, 0),
        first_passing(v1, d, 0) && rotation_committed(v1, v2, d, 0),
        first_passing(v2, d, 0) && rotation_committed(v2, v3, d, 0),
        first_passing(v3, d, 0) && rotation_committed(v3, v4, d, 0),
    ensures
        v4.focused.cells == v0.focused.cells,
        v4.focused.rot == v0.focused.rot,
{
    let kind = v0.focused.kind;
    let p0 = crate::rotations::pairs_of(v0.focused.cells);
    let rn0 = v0.focused.rot.rn_spec() as int;
    let i1 = crate::rotations::next_index(rn0, d);
    let i2 = crate::rotations::next_index(i1, d);
    let i3 = crate::rotations::next_index(i2, d);

    assert(rot_target(v0, d) == i1);
    assert(v1.focused.rot.rn_spec() as int == i1 && v1.focused.rot.wf());
    assert(rot_target(v1, d) == i2);
    assert(v2.focused.rot.rn_spec() as int == i2 && v2.focused.rot.wf());
    assert(rot_target(v2, d) == i3);
    assert(v3.focused.rot.rn_spec() as int == i3 && v3.focused.rot.wf());
    assert(rot_target(v3, d) == crate::rotations::next_index(i3, d));
    assert(crate::rotations::next_index(i3, d) == rn0);

    crate::rotations::lemma_pairs_to_cells_exact(kick_candidate(v0, d, 0), v0.w as int, v0.h as int);
    crate::rotations::lemma_pairs_to_cells_exact(kick_candidate(v1, d, 0), v1.w as int, v1.h as int);
    crate::rotations::lemma_pairs_to_cells_exact(kick_candidate(v2, d, 0), v2.w as int, v2.h as int);
    crate::rotations::lemma_pairs_to_cells_exact(kick_candidate(v3, d, 0), v3.w as int, v3.h as int);

    assert(crate::rotations::pairs_of(v1.focused.cells) =~= crate::rotations::free_rot_step(p0,
        kind, rn0, d));
    assert(crate::rotations::pairs_of(v2.focused.cells) =~= crate::rotations::free_rot_step(
        crate::rotations::pairs_of(v1.focused.cells), kind, i1, d));
    assert(crate::rotations::pairs_of(v3.focused.cells) =~= crate::rotations::free_rot_step(
        crate::rotations::pairs_of(v2.focused.cells), kind, i2, d));
    assert(crate::rotations::pairs_of(v4.focused.cells) =~= crate::rotations::free_rot_step(
        crate::rotations::pairs_of(v3.focused.cells), kind, i3, d));

    crate::rotations::lemma_rotation_round_trip(p0, kind, d, rn0);
    assert(crate::rotations::pairs_of(v4.focused.cells) == p0);
    assert(v4.focused.cells =~= v0.focused.cells) by {
        assert forall|i: int| 0 <= i < v0.focused.cells.len()
            implies v4.focused.cells[i] == v0.focused.cells[i] by {
            assert(crate::rotations::pairs_of(v4.focused.cells)[i] == p0[i]);
        }
    }
    assert(v4.focused.rot == v0.focused.rot);
}

} // verus!

verus! {

impl Universe {
    /// Get a mutable reference to the focused piece. A caller that edits
    /// it is responsible for keeping its four cells on the board.
    pub fn focused_tetromino_mut(&mut self) -> (r: &mut Tetromino)
        ensures
            r.model() == old(self).model().focused,
            final(self).model() == (UniverseView {
                focused: final(r).model(),
                ..old(self).model()
            }),
    {
        &mut self.focused_tetromino
    }

    /// Get a mutable reference to the settled pieces. A caller that edits
    /// them is responsible for keeping every cell on the board.
    pub fn stagnant_tetrominos_mut(&mut self) -> (r: &mut Vec<Tetromino>)
        ensures
            models_of(r@) == old(self).model().stagnant,
            final(self).model() == (UniverseView {
                stagnant: models_of(final(r)@),
                ..old(self).model()
            }),
    {
        &mut self.stagnant_tetrominos
    }

    /// Get a mutable reference to the board's tick counter.
    pub fn ticks_mut(&mut self) -> (r: &mut u32)
        ensures
            *r == old(self).model().game.ticks,
            final(self).model() == (UniverseView {
                game: Game { ticks: *final(r), ..old(self).model().game },
                ..old(self).model()
            }),
    {
        &mut self.game.ticks
    }
}

} // verus!
