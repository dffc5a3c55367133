//! Tetromino geometry: grid coordinates, the rotation-state counter, piece
//! kinds with their reference shapes, and the boundary / collision rules.

use vstd::prelude::*;

verus! {

/// A grid-cell address. `x` grows rightward, `y` grows upward from the floor.
#[derive(Debug, Clone, Copy, PartialEq, Eq, Hash, Structural)]
pub struct Coord {
    pub x: u32,
    pub y: u32,
}

impl Coord {
    pub fn new(x: u32, y: u32) -> (c: Coord)
        ensures
            c == (Coord { x, y }),
    {
        Coord { x, y }
    }

    pub fn x(&self) -> (r: &u32)
        ensures
            *r == self.x,
    {
        &self.x
    }

    pub fn mut_x(&mut self) -> (r: &mut u32)
        ensures
            *r == old(self).x,
            *final(self) == (Coord { x: *final(r), y: old(self).y }),
    {
        &mut self.x
    }

    pub fn y(&self) -> (r: &u32)
        ensures
            *r == self.y,
    {
        &self.y
    }

    pub fn mut_y(&mut self) -> (r: &mut u32)
        ensures
            *r == old(self).y,
            *final(self) == (Coord { x: old(self).x, y: *final(r) }),
    {
        &mut self.y
    }
}

impl Default for Coord {
    fn default() -> (c: Coord)
        ensures
            c == (Coord { x: 0, y: 0 }),
    {
        Coord { x: 0, y: 0 }
    }
}

/// A direction of movement on the grid. "Down" decreases `y` because `y`
/// grows upward.
#[derive(Debug, Clone, Copy, PartialEq, Eq, Structural)]
pub enum Direction {
    Down,
    Up,
    Left,
    Right,
}

/// The rotation-state counter: a value in `[0, max)` stepped modularly.
/// Index 0 is the spawn orientation; 1..3 are successive 90-degree states.
#[derive(Debug, Clone, Copy, PartialEq, Eq, Structural)]
pub struct CircularNum {
    pub(crate) rn: u32,
    pub(crate) max: u32,
}

impl CircularNum {
    /// Well-formedness: the modulus is fixed at 4 and the value stays below it.
    pub open(crate) spec fn wf(self) -> bool {
        self.max == 4 && self.rn < 4
    }

    pub open(crate) spec fn rn_spec(self) -> u32 {
        self.rn
    }

    pub open(crate) spec fn max_spec(self) -> u32 {
        self.max
    }

    /// The modular step `(rn + dx + max) % max` that both `get_increment`
    /// and `increment` compute.
    pub open(crate) spec fn stepped(self, dx: int) -> int {
        (self.rn + dx + self.max) % (self.max as int)
    }

    /// Read-only lookahead of the stepped value (used while testing wall
    /// kicks before committing a rotation).
    pub fn get_increment(&self, dx: i32) -> (r: u32)
        requires
            self.wf(),
            -4 <= dx <= 1000,
        ensures
            r == self.stepped(dx as int),
            r < 4,
    {
        ((self.rn as i32 + dx + self.max as i32) % self.max as i32) as u32
    }

    /// Commits the modular step.
    pub fn increment(&mut self, dx: i32)
        requires
            old(self).wf(),
            -4 <= dx <= 1000,
        ensures
            final(self).rn_spec() == old(self).stepped(dx as int),
            final(self).max_spec() == old(self).max_spec(),
            final(self).wf(),
    {
        self.rn = ((self.rn as i32 + dx + self.max as i32) % self.max as i32) as u32;
    }

    pub fn rn(&self) -> (r: &u32)
        ensures
            *r == self.rn_spec(),
    {
        &self.rn
    }
}

impl Default for CircularNum {
    fn default() -> (c: CircularNum)
        ensures
            c.rn_spec() == 0,
            c.max_spec() == 4,
            c.wf(),
    {
        CircularNum { rn: 0, max: 4 }
    }
}

} // verus!

verus! {

/// The seven tetromino kinds.
#[derive(Debug, Clone, Copy, PartialEq, Eq, Hash, Structural)]
pub enum TetrominoType {
    I,
    J,
    L,
    O,
    S,
    T,
    Z,
}

/// A movable group of grid cells with a kind tag and a rotation index.
/// `coords[0]` is the pivot cell that rotations turn about.
#[derive(Debug, Clone)]
pub struct Tetromino {
    pub(crate) coords: Vec<Coord>,
    pub(crate) tetromino_type: TetrominoType,
    pub(crate) rotation_state: CircularNum,
}

/// The mathematical model of a tetromino: its cell sequence, kind, and
/// rotation counter.
#[verifier::ext_equal]
pub ghost struct TetrominoView {
    pub cells: Seq<Coord>,
    pub kind: TetrominoType,
    pub rot: CircularNum,
}

impl Tetromino {
    pub open(crate) spec fn cells_spec(self) -> Seq<Coord> {
        self.coords@
    }

    pub open(crate) spec fn kind_spec(self) -> TetrominoType {
        self.tetromino_type
    }

    pub open(crate) spec fn rot_spec(self) -> CircularNum {
        self.rotation_state
    }

    pub open(crate) spec fn model(self) -> TetrominoView {
        TetrominoView { cells: self.coords@, kind: self.tetromino_type, rot: self.rotation_state }
    }
}

/// The models of every piece in a list, in order.
pub open(crate) spec fn models_of(ts: Seq<Tetromino>) -> Seq<TetrominoView> {
    Seq::new(ts.len(), |i: int| ts[i].model())
}

/// Whether the displaced position `(c.x + dx, c.y + dy)` lies on a
/// `w`-by-`h` board.
pub open spec fn cell_within(c: Coord, dx: int, dy: int, w: int, h: int) -> bool {
    0 <= c.x + dx < w && 0 <= c.y + dy < h
}

/// Whether every cell of `cs`, displaced by `(dx, dy)`, lies on the board.
pub open spec fn all_cells_within(cs: Seq<Coord>, dx: int, dy: int, w: int, h: int) -> bool {
    forall|i: int| 0 <= i < cs.len() ==> cell_within(#[trigger] cs[i], dx, dy, w, h)
}

/// Whether the cell set of `a` displaced by `(dx, dy)` intersects the cell
/// set of `b`.
pub open spec fn cells_overlap(a: Seq<Coord>, dx: int, dy: int, b: Seq<Coord>) -> bool {
    exists|i: int, j: int|
        0 <= i < a.len() && 0 <= j < b.len() && #[trigger] a[i].x + dx == #[trigger] b[j].x
            && a[i].y + dy == b[j].y
}

/// Whether the displaced cells of `a` hit any piece in `ts`.
pub open spec fn collides_with_any(a: Seq<Coord>, dx: int, dy: int, ts: Seq<TetrominoView>) -> bool {
    exists|k: int| 0 <= k < ts.len() && cells_overlap(a, dx, dy, (#[trigger] ts[k]).cells)
}

/// A cell translated by `(dx, dy)`; meaningful when the result stays in the
/// unsigned range.
pub open spec fn coord_moved(c: Coord, dx: int, dy: int) -> Coord {
    Coord { x: (c.x + dx) as u32, y: (c.y + dy) as u32 }
}

/// All cells translated by `(dx, dy)`.
pub open spec fn cells_moved(cs: Seq<Coord>, dx: int, dy: int) -> Seq<Coord> {
    Seq::new(cs.len(), |i: int| coord_moved(cs[i], dx, dy))
}

/// Whether translating by `(dx, dy)` keeps every cell inside the unsigned
/// coordinate range (no wraparound).
pub open spec fn cells_fit(cs: Seq<Coord>, dx: int, dy: int) -> bool {
    forall|i: int| 0 <= i < cs.len()
        ==> 0 <= #[trigger] cs[i].x + dx <= u32::MAX && 0 <= cs[i].y + dy <= u32::MAX
}

/// The unit displacement of each movement direction.
pub open spec fn dir_dxdy(d: Direction) -> (int, int) {
    match d {
        Direction::Down => (0, -1),
        Direction::Up => (0, 1),
        Direction::Left => (-1, 0),
        Direction::Right => (1, 0),
    }
}

impl Tetromino {
    pub fn coords(&self) -> (r: &Vec<Coord>)
        ensures
            r@ == self.cells_spec(),
    {
        &self.coords
    }

    pub fn tetromino_type(&self) -> (r: &TetrominoType)
        ensures
            *r == self.kind_spec(),
    {
        &self.tetromino_type
    }

    pub fn rotation_state(&self) -> (r: &CircularNum)
        ensures
            *r == self.rot_spec(),
    {
        &self.rotation_state
    }

    /// An owned copy with the same model.
    pub fn duplicate(&self) -> (r: Tetromino)
        ensures
            r.model() == self.model(),
    {
        let mut cells: Vec<Coord> = Vec::new();
        let mut i: usize = 0;
        while i < self.coords.len()
            invariant
                i <= self.coords.len(),
                cells@ == self.coords@.take(i as int),
            decreases self.coords.len() - i,
        {
            cells.push(self.coords[i]);
            proof {
                assert(cells@ =~= self.coords@.take(i + 1));
            }
            i = i + 1;
        }
        proof {
            assert(cells@ =~= self.coords@);
        }
        let r = Tetromino {
            coords: cells,
            tetromino_type: self.tetromino_type,
            rotation_state: self.rotation_state,
        };
        proof {
            assert(r.model() =~= self.model());
        }
        r
    }

    /// The unit displacement of a movement direction, as a `[dx, dy]` pair.
    pub fn get_dxdy(direction: Direction) -> (r: [i32; 2])
        ensures
            r[0] == dir_dxdy(direction).0,
            r[1] == dir_dxdy(direction).1,
    {
        match direction {
            Direction::Down => [0, -1],
            Direction::Up => [0, 1],
            Direction::Left => [-1, 0],
            Direction::Right => [1, 0],
        }
    }

    /// True exactly when translating every cell by `dxdy` keeps it on the
    /// `w`-by-`h` board.
    pub fn within_boundary(&self, dx_dy: [i32; 2], w: u32, h: u32) -> (r: bool)
        ensures
            r == all_cells_within(self.cells_spec(), dx_dy[0] as int, dx_dy[1] as int, w as int, h as int),
    {
        let dx = dx_dy[0];
        let dy = dx_dy[1];
        let mut i: usize = 0;
        while i < self.coords.len()
            invariant
                i <= self.coords.len(),
                dx == dx_dy[0],
                dy == dx_dy[1],
                forall|j: int| 0 <= j < i ==> cell_within(#[trigger] self.coords@[j], dx as int, dy as int, w as int, h as int),
            decreases self.coords.len() - i,
        {
            let c = self.coords[i];
            let nx = c.x as i64 + dx as i64;
            let ny = c.y as i64 + dy as i64;
            if !(0 <= nx && nx < w as i64 && 0 <= ny && ny < h as i64) {
                return false;
            }
            i = i + 1;
        }
        true
    }

    /// True exactly when the cell set of `f` displaced by `(dx, dy)` meets
    /// the cell set of `s`.
    pub fn will_collide(f: &Tetromino, s: &Tetromino, dx: i32, dy: i32) -> (r: bool)
        ensures
            r == cells_overlap(f.cells_spec(), dx as int, dy as int, s.cells_spec()),
    {
        let mut i: usize = 0;
        while i < f.coords.len()
            invariant
                i <= f.coords.len(),
                forall|p: int, q: int|
                    0 <= p < i && 0 <= q < s.coords@.len()
                        ==> !(#[trigger] f.coords@[p].x + dx == #[trigger] s.coords@[q].x
                            && f.coords@[p].y + dy == s.coords@[q].y),
            decreases f.coords.len() - i,
        {
            let fc = f.coords[i];
            let fx = fc.x as i64 + dx as i64;
            let fy = fc.y as i64 + dy as i64;
            let mut j: usize = 0;
            while j < s.coords.len()
                invariant
                    i < f.coords.len(),
                    j <= s.coords.len(),
                    fc == f.coords@[i as int],
                    fx == fc.x + dx,
                    fy == fc.y + dy,
                    forall|q: int|
                        0 <= q < j
                            ==> !(f.coords@[i as int].x + dx == #[trigger] s.coords@[q].x
                                && f.coords@[i as int].y + dy == s.coords@[q].y),
                decreases s.coords.len() - j,
            {
                let sc = s.coords[j];
                if fx == sc.x as i64 && fy == sc.y as i64 {
                    return true;
                }
                j = j + 1;
            }
            i = i + 1;
        }
        false
    }

    /// True exactly when the displaced piece hits any piece in the settled
    /// list.
    pub fn will_collide_all(t: &Tetromino, stagnant_tetrominos: &Vec<Tetromino>, dxdy: [i32; 2]) -> (r: bool)
        ensures
            r == collides_with_any(t.cells_spec(), dxdy[0] as int, dxdy[1] as int, models_of(stagnant_tetrominos@)),
    {
        let mut k: usize = 0;
        while k < stagnant_tetrominos.len()
            invariant
                k <= stagnant_tetrominos.len(),
                forall|m: int| 0 <= m < k
                    ==> !cells_overlap(t.cells_spec(), dxdy[0] as int, dxdy[1] as int,
                        (#[trigger] models_of(stagnant_tetrominos@)[m]).cells),
            decreases stagnant_tetrominos.len() - k,
        {
            if Tetromino::will_collide(t, &stagnant_tetrominos[k], dxdy[0], dxdy[1]) {
                proof {
                    assert(models_of(stagnant_tetrominos@)[k as int]
                        == stagnant_tetrominos@[k as int].model());
                }
                return true;
            }
            k = k + 1;
        }
        false
    }

    /// Translates every cell by `dxdy`. No validity check: callers must
    /// establish beforehand that the result stays in the unsigned range
    /// (normally via `within_boundary` and the collision checks).
    pub fn move_by(&mut self, dx_dy: [i32; 2])
        requires
            cells_fit(old(self).cells_spec(), dx_dy[0] as int, dx_dy[1] as int),
        ensures
            final(self).cells_spec() == cells_moved(old(self).cells_spec(), dx_dy[0] as int, dx_dy[1] as int),
            final(self).kind_spec() == old(self).kind_spec(),
            final(self).rot_spec() == old(self).rot_spec(),
    {
        let dx = dx_dy[0];
        let dy = dx_dy[1];
        let ghost orig = self.coords@;
        let ghost kind0 = self.tetromino_type;
        let ghost rot0 = self.rotation_state;
        let mut i: usize = 0;
        while i < self.coords.len()
            invariant
                i <= orig.len(),
                self.coords@.len() == orig.len(),
                self.tetromino_type == kind0,
                self.rotation_state == rot0,
                cells_fit(orig, dx as int, dy as int),
                dx == dx_dy[0],
                dy == dx_dy[1],
                forall|j: int| 0 <= j < i ==> self.coords@[j] == cells_moved(orig, dx as int, dy as int)[j],
                forall|j: int| i <= j < orig.len() ==> self.coords@[j] == orig[j],
            decreases orig.len() - i,
        {
            let c = self.coords[i];
            let nx = (c.x as i64 + dx as i64) as u32;
            let ny = (c.y as i64 + dy as i64) as u32;
            self.coords.set(i, Coord { x: nx, y: ny });
            i = i + 1;
        }
        proof {
            assert(self.coords@ =~= cells_moved(orig, dx as int, dy as int));
        }
    }
}

} // verus!

verus! {

/// The absolute cells a piece is spawned with: each reference coordinate,
/// translated so the first reference coordinate (the pivot) lands on the
/// spawn anchor.
pub open spec fn spawned_cells(refs: Seq<Coord>, spawn: Coord) -> Seq<Coord> {
    Seq::new(refs.len(), |i: int| Coord {
        x: (spawn.x + refs[i].x - refs[0].x) as u32,
        y: (spawn.y + refs[i].y - refs[0].y) as u32,
    })
}

/// The reference shape of each kind; the first entry is the pivot.
pub open spec fn ref_shape(t: TetrominoType) -> Seq<Coord> {
    match t {
        TetrominoType::I => seq![
            Coord { x: 1, y: 0 }, Coord { x: 0, y: 0 }, Coord { x: 2, y: 0 }, Coord { x: 3, y: 0 },
        ],
        TetrominoType::J => seq![
            Coord { x: 1, y: 0 }, Coord { x: 0, y: 0 }, Coord { x: 2, y: 0 }, Coord { x: 0, y: 1 },
        ],
        TetrominoType::L => seq![
            Coord { x: 1, y: 0 }, Coord { x: 0, y: 0 }, Coord { x: 2, y: 0 }, Coord { x: 2, y: 1 },
        ],
        TetrominoType::O => seq![
            Coord { x: 0, y: 0 }, Coord { x: 1, y: 0 }, Coord { x: 0, y: 1 }, Coord { x: 1, y: 1 },
        ],
        TetrominoType::S => seq![
            Coord { x: 1, y: 0 }, Coord { x: 0, y: 0 }, Coord { x: 1, y: 1 }, Coord { x: 2, y: 1 },
        ],
        TetrominoType::T => seq![
            Coord { x: 1, y: 0 }, Coord { x: 0, y: 0 }, Coord { x: 1, y: 1 }, Coord { x: 2, y: 0 },
        ],
        TetrominoType::Z => seq![
            Coord { x: 1, y: 0 }, Coord { x: 2, y: 0 }, Coord { x: 0, y: 1 }, Coord { x: 1, y: 1 },
        ],
    }
}

/// The absolute cells of a freshly spawned piece of each kind, at the fixed
/// spawn anchor `(5, 22)`.
pub open spec fn spawn_cells_of(t: TetrominoType) -> Seq<Coord> {
    spawned_cells(ref_shape(t), Coord { x: 5, y: 22 })
}

/// The kind drawn for each index in `[0, 7)`.
pub open spec fn kind_of_index(k: int) -> TetrominoType {
    if k == 0 { TetrominoType::I }
    else if k == 1 { TetrominoType::J }
    else if k == 2 { TetrominoType::L }
    else if k == 3 { TetrominoType::O }
    else if k == 4 { TetrominoType::S }
    else if k == 5 { TetrominoType::T }
    else { TetrominoType::Z }
}

/// The model of a freshly spawned piece of kind `t`.
pub open(crate) spec fn spawn_model(t: TetrominoType) -> TetrominoView {
    TetrominoView {
        cells: spawn_cells_of(t),
        kind: t,
        rot: CircularNum { rn: 0, max: 4 },
    }
}

impl Tetromino {
    /// Builds a piece from a reference shape and a spawn anchor: every
    /// reference coordinate is translated so that the first one (the pivot)
    /// lands on `spawn_coords`. Callers must ensure the translation stays in
    /// the unsigned range.
    pub fn spawn_tetrimno(
        reference_coords: Vec<Coord>,
        spawn_coords: Coord,
        tetromino_type: TetrominoType,
    ) -> (r: Tetromino)
        requires
            reference_coords@.len() >= 1,
            forall|i: int| 0 <= i < reference_coords@.len()
                ==> 0 <= spawn_coords.x + (#[trigger] reference_coords@[i]).x
                        - reference_coords@[0].x <= u32::MAX
                    && 0 <= spawn_coords.y + reference_coords@[i].y
                        - reference_coords@[0].y <= u32::MAX,
        ensures
            r.cells_spec() == spawned_cells(reference_coords@, spawn_coords),
            r.kind_spec() == tetromino_type,
            r.rot_spec().rn_spec() == 0,
            r.rot_spec().max_spec() == 4,
    {
        let px = reference_coords[0].x;
        let py = reference_coords[0].y;
        let mut coords: Vec<Coord> = Vec::new();
        let mut i: usize = 0;
        while i < reference_coords.len()
            invariant
                i <= reference_coords@.len(),
                reference_coords@.len() >= 1,
                px == reference_coords@[0].x,
                py == reference_coords@[0].y,
                forall|j: int| 0 <= j < reference_coords@.len()
                    ==> 0 <= spawn_coords.x + (#[trigger] reference_coords@[j]).x
                            - reference_coords@[0].x <= u32::MAX
                        && 0 <= spawn_coords.y + reference_coords@[j].y
                            - reference_coords@[0].y <= u32::MAX,
                coords@.len() == i,
                forall|j: int| 0 <= j < i
                    ==> coords@[j] == spawned_cells(reference_coords@, spawn_coords)[j],
            decreases reference_coords@.len() - i,
        {
            let c = reference_coords[i];
            let dx: i64 = c.x as i64 - px as i64;
            let dy: i64 = c.y as i64 - py as i64;
            let nx = (spawn_coords.x as i64 + dx) as u32;
            let ny = (spawn_coords.y as i64 + dy) as u32;
            coords.push(Coord { x: nx, y: ny });
            i = i + 1;
        }
        let r = Tetromino {
            coords,
            tetromino_type,
            rotation_state: CircularNum { rn: 0, max: 4 },
        };
        proof {
            assert(r.cells_spec() =~= spawned_cells(reference_coords@, spawn_coords));
        }
        r
    }
}

/// Relies on `rand::Rng::gen_range` over the half-open range `0..7`: the
/// sampled value is always below 7. Nothing further is assumed of which
/// value comes back.
#[verifier::external_body]
fn random_kind_index() -> (r: u32)
    ensures
        r < 7,
{
    rand::Rng::gen_range(&mut rand::thread_rng(), 0..7u32)
}

impl TetrominoType {
    /// The kind drawn for a piece-selection index.
    pub(crate) fn kind_from_index(ix: u32) -> (r: TetrominoType)
        requires
            ix < 7,
        ensures
            r == kind_of_index(ix as int),
    {
        if ix == 0 { TetrominoType::I }
        else if ix == 1 { TetrominoType::J }
        else if ix == 2 { TetrominoType::L }
        else if ix == 3 { TetrominoType::O }
        else if ix == 4 { TetrominoType::S }
        else if ix == 5 { TetrominoType::T }
        else { TetrominoType::Z }
    }

    /// Spawns a piece of a uniformly random kind at the spawn anchor.
    pub fn generate_tetromino_rand() -> (r: Tetromino)
        ensures
            exists|k: int| 0 <= k < 7 && r.model() == spawn_model(#[trigger] kind_of_index(k)),
    {
        let ix = random_kind_index();
        let r = TetrominoType::generate_tetromino_from_type(TetrominoType::kind_from_index(ix));
        proof {
            assert(r.model() == spawn_model(kind_of_index(ix as int)));
        }
        r
    }

    /// Spawns a piece of the given kind: its reference shape translated so
    /// the pivot lands on the anchor `(5, 22)`.
    pub fn generate_tetromino_from_type(tetromino_type: TetrominoType) -> (r: Tetromino)
        ensures
            r.model() == spawn_model(tetromino_type),
    {
        let refs: Vec<Coord> = match tetromino_type {
            TetrominoType::I => vec![
                Coord::new(1, 0), Coord::new(0, 0), Coord::new(2, 0), Coord::new(3, 0),
            ],
            TetrominoType::J => vec![
                Coord::new(1, 0), Coord::new(0, 0), Coord::new(2, 0), Coord::new(0, 1),
            ],
            TetrominoType::L => vec![
                Coord::new(1, 0), Coord::new(0, 0), Coord::new(2, 0), Coord::new(2, 1),
            ],
            TetrominoType::O => vec![
                Coord::new(0, 0), Coord::new(1, 0), Coord::new(0, 1), Coord::new(1, 1),
            ],
            TetrominoType::S => vec![
                Coord::new(1, 0), Coord::new(0, 0), Coord::new(1, 1), Coord::new(2, 1),
            ],
            TetrominoType::T => vec![
                Coord::new(1, 0), Coord::new(0, 0), Coord::new(1, 1), Coord::new(2, 0),
            ],
            TetrominoType::Z => vec![
                Coord::new(1, 0), Coord::new(2, 0), Coord::new(0, 1), Coord::new(1, 1),
            ],
        };
        proof {
            assert(refs@ =~= ref_shape(tetromino_type));
        }
        let r = Tetromino::spawn_tetrimno(refs, Coord::new(5, 22), tetromino_type);
        proof {
            assert(r.model() =~= spawn_model(tetromino_type));
        }
        r
    }
}

} // verus!

verus! {

impl Tetromino {
    /// Moves every cell one step down. No validity check: callers must
    /// establish beforehand that no cell sits on the floor.
    pub fn move_down(&mut self)
        requires
            cells_fit(old(self).cells_spec(), 0, -1),
        ensures
            final(self).cells_spec() == cells_moved(old(self).cells_spec(), 0, -1),
            final(self).kind_spec() == old(self).kind_spec(),
            final(self).rot_spec() == old(self).rot_spec(),
    {
        self.move_by(Tetromino::get_dxdy(Direction::Down))
    }

    /// Moves every cell one step left. No validity check: callers must
    /// establish beforehand that no cell sits on the left wall.
    pub fn move_left(&mut self)
        requires
            cells_fit(old(self).cells_spec(), -1, 0),
        ensures
            final(self).cells_spec() == cells_moved(old(self).cells_spec(), -1, 0),
            final(self).kind_spec() == old(self).kind_spec(),
            final(self).rot_spec() == old(self).rot_spec(),
    {
        self.move_by(Tetromino::get_dxdy(Direction::Left))
    }

    /// Moves every cell one step right.
    pub fn move_right(&mut self)
        requires
            cells_fit(old(self).cells_spec(), 1, 0),
        ensures
            final(self).cells_spec() == cells_moved(old(self).cells_spec(), 1, 0),
            final(self).kind_spec() == old(self).kind_spec(),
            final(self).rot_spec() == old(self).rot_spec(),
    {
        self.move_by(Tetromino::get_dxdy(Direction::Right))
    }

    /// The pixel row of a grid row: graphics count pixels downward from
    /// the top of the canvas, the grid counts cells upward.
    pub fn reversed_coord_y(canvas_y: u32, coord_y: u32, dy: u32) -> (r: i32)
        requires
            coord_y * dy <= canvas_y,
            canvas_y <= i32::MAX,
        ensures
            r == canvas_y - coord_y * dy,
    {
        (canvas_y - (coord_y * dy)) as i32
    }
}

} // verus!

verus! {

impl Tetromino {
    /// Get a mutable reference to the cell list. A caller that edits it is
    /// responsible for keeping the cells on the board.
    pub fn coords_mut(&mut self) -> (r: &mut Vec<Coord>)
        ensures
            r@ == old(self).cells_spec(),
            final(self).cells_spec() == final(r)@,
            final(self).kind_spec() == old(self).kind_spec(),
            final(self).rot_spec() == old(self).rot_spec(),
    {
        &mut self.coords
    }

    /// Get a mutable reference to the rotation counter.
    pub fn rotation_state_mut(&mut self) -> (r: &mut CircularNum)
        ensures
            *r == old(self).rot_spec(),
            final(self).rot_spec() == *final(r),
            final(self).cells_spec() == old(self).cells_spec(),
            final(self).kind_spec() == old(self).kind_spec(),
    {
        &mut self.rotation_state
    }
}

} // verus!
