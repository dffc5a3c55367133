//! SRS-style rotation: the 90-degree rotation about the pivot cell, the
//! per-kind wall-kick offset tables, and the kick displacement tried for
//! each table row.

use vstd::prelude::*;
use crate::tetromino::{Coord, Tetromino, TetrominoType, TetrominoView};

verus! {

/// The sense of a rotation. Clockwise steps the rotation index by `+1`,
/// counter-clockwise by `-1`.
#[derive(Debug, Clone, Copy, PartialEq, Eq, Structural)]
pub enum RotationDirection {
    Clockwise,
    CounterClockwise,
}

impl RotationDirection {
    /// The opposite sense.
    pub fn flip(direction: RotationDirection) -> (r: RotationDirection)
        ensures
            r == flipped(direction),
    {
        match direction {
            RotationDirection::Clockwise => RotationDirection::CounterClockwise,
            RotationDirection::CounterClockwise => RotationDirection::Clockwise,
        }
    }
}

pub open spec fn flipped(d: RotationDirection) -> RotationDirection {
    match d {
        RotationDirection::Clockwise => RotationDirection::CounterClockwise,
        RotationDirection::CounterClockwise => RotationDirection::Clockwise,
    }
}

/// The rotation-index step of each sense.
pub open spec fn rotation_step(d: RotationDirection) -> int {
    match d {
        RotationDirection::Clockwise => 1,
        RotationDirection::CounterClockwise => -1,
    }
}

/// A cell offset from the pivot, turned 90 degrees: clockwise maps
/// `(x, y)` to `(y, -x)`, counter-clockwise to `(-y, x)` (in y-up
/// coordinates).
pub open spec fn rotated_offset(d: RotationDirection, x: int, y: int) -> (int, int) {
    match d {
        RotationDirection::Clockwise => (y, -x),
        RotationDirection::CounterClockwise => (-y, x),
    }
}

/// Cell positions as unbounded integer pairs.
pub open spec fn pairs_of(cs: Seq<Coord>) -> Seq<(int, int)> {
    Seq::new(cs.len(), |i: int| (cs[i].x as int, cs[i].y as int))
}

/// Every position of `ps` turned 90 degrees about the first position (the
/// pivot, which maps to itself).
pub open spec fn rotated_pairs(ps: Seq<(int, int)>, d: RotationDirection) -> Seq<(int, int)> {
    Seq::new(ps.len(), |i: int| {
        let r = rotated_offset(d, ps[i].0 - ps[0].0, ps[i].1 - ps[0].1);
        (ps[0].0 + r.0, ps[0].1 + r.1)
    })
}

/// The rotated cell positions of a piece, about its pivot cell.
pub open spec fn rotated_cells(cs: Seq<Coord>, d: RotationDirection) -> Seq<(int, int)> {
    rotated_pairs(pairs_of(cs), d)
}

/// Positions translated by `(dx, dy)`.
pub open spec fn shifted_pairs(ps: Seq<(int, int)>, dx: int, dy: int) -> Seq<(int, int)> {
    Seq::new(ps.len(), |i: int| (ps[i].0 + dx, ps[i].1 + dy))
}

/// Whether every position lies on the `w`-by-`h` board.
pub open spec fn all_pairs_within(ps: Seq<(int, int)>, w: int, h: int) -> bool {
    forall|i: int| 0 <= i < ps.len()
        ==> 0 <= (#[trigger] ps[i]).0 < w && 0 <= ps[i].1 < h
}

/// Whether some position coincides with some cell of `b`.
pub open spec fn pairs_overlap_cells(ps: Seq<(int, int)>, b: Seq<Coord>) -> bool {
    exists|i: int, j: int|
        0 <= i < ps.len() && 0 <= j < b.len()
            && (#[trigger] ps[i]).0 == (#[trigger] b[j]).x && ps[i].1 == b[j].y
}

/// Whether some position hits any piece in `ts`.
pub open spec fn pairs_collide_any(ps: Seq<(int, int)>, ts: Seq<TetrominoView>) -> bool {
    exists|k: int| 0 <= k < ts.len() && pairs_overlap_cells(ps, (#[trigger] ts[k]).cells)
}

/// How many wall-kick rows the offset table of a kind has.
pub open spec fn n_kick_rows(t: TetrominoType) -> int {
    match t {
        TetrominoType::O => 1,
        _ => 5,
    }
}

/// The offset table shared by the J, L, S, T and Z kinds.
pub open spec fn jlstz_offset(row: int, idx: int) -> (int, int) {
    if row == 1 {
        if idx == 1 { (1, 0) } else if idx == 3 { (-1, 0) } else { (0, 0) }
    } else if row == 2 {
        if idx == 1 { (1, -1) } else if idx == 3 { (-1, -1) } else { (0, 0) }
    } else if row == 3 {
        if idx == 1 { (0, 2) } else if idx == 3 { (0, 2) } else { (0, 0) }
    } else if row == 4 {
        if idx == 1 { (1, 2) } else if idx == 3 { (-1, 2) } else { (0, 0) }
    } else {
        (0, 0)
    }
}

/// The offset table of the I kind.
pub open spec fn i_offset(row: int, idx: int) -> (int, int) {
    if row == 1 {
        if idx == 0 { (-1, 0) } else if idx == 1 { (0, 0) } else if idx == 2 { (1, 1) } else { (0, 1) }
    } else if row == 2 {
        if idx == 0 { (2, 0) } else if idx == 1 { (0, 0) } else if idx == 2 { (-2, 1) } else { (0, -1) }
    } else if row == 3 {
        if idx == 0 { (-1, 0) } else if idx == 1 { (0, 1) } else if idx == 2 { (1, 0) } else { (0, -1) }
    } else if row == 4 {
        if idx == 0 { (2, 0) } else if idx == 1 { (0, -2) } else if idx == 2 { (-2, 0) } else { (0, 2) }
    } else {
        if idx == 0 { (0, 0) } else if idx == 1 { (-1, 0) } else if idx == 2 { (-1, 1) } else { (0, 1) }
    }
}

/// The single-row offset table of the O kind.
pub open spec fn o_offset(idx: int) -> (int, int) {
    if idx == 0 { (0, 0) } else if idx == 1 { (0, -1) } else if idx == 2 { (-1, -1) } else { (-1, 0) }
}

/// The offset table entry of a kind at `(row, idx)`.
pub open spec fn kick_offset(t: TetrominoType, row: int, idx: int) -> (int, int) {
    match t {
        TetrominoType::I => i_offset(row, idx),
        TetrominoType::O => o_offset(idx),
        _ => jlstz_offset(row, idx),
    }
}

/// The wall-kick displacement tried at a table row, when stepping from
/// rotation index `from` to `to`: the offset at `from` minus the offset at
/// `to` (current minus target).
pub open spec fn kick_between(t: TetrominoType, row: int, from: int, to: int) -> (int, int) {
    (kick_offset(t, row, from).0 - kick_offset(t, row, to).0,
        kick_offset(t, row, from).1 - kick_offset(t, row, to).1)
}

/// The offset table entry of a kind, as machine integers.
pub(crate) fn kick_offset_at(t: &TetrominoType, row: usize, idx: usize) -> (r: (i32, i32))
    requires
        row < n_kick_rows(*t),
        idx < 4,
    ensures
        r.0 == kick_offset(*t, row as int, idx as int).0,
        r.1 == kick_offset(*t, row as int, idx as int).1,
        -2 <= r.0 <= 2,
        -2 <= r.1 <= 2,
{
    match t {
        TetrominoType::I => {
            match row {
                1 => {
                    match idx { 0 => (-1, 0), 1 => (0, 0), 2 => (1, 1), _ => (0, 1) }
                },
                2 => {
                    match idx { 0 => (2, 0), 1 => (0, 0), 2 => (-2, 1), _ => (0, -1) }
                },
                3 => {
                    match idx { 0 => (-1, 0), 1 => (0, 1), 2 => (1, 0), _ => (0, -1) }
                },
                4 => {
                    match idx { 0 => (2, 0), 1 => (0, -2), 2 => (-2, 0), _ => (0, 2) }
                },
                _ => {
                    match idx { 0 => (0, 0), 1 => (-1, 0), 2 => (-1, 1), _ => (0, 1) }
                },
            }
        },
        TetrominoType::O => {
            match idx { 0 => (0, 0), 1 => (0, -1), 2 => (-1, -1), _ => (-1, 0) }
        },
        _ => {
            match row {
                1 => {
                    match idx { 1 => (1, 0), 3 => (-1, 0), _ => (0, 0) }
                },
                2 => {
                    match idx { 1 => (1, -1), 3 => (-1, -1), _ => (0, 0) }
                },
                3 => {
                    match idx { 1 => (0, 2), 3 => (0, 2), _ => (0, 0) }
                },
                4 => {
                    match idx { 1 => (1, 2), 3 => (-1, 2), _ => (0, 0) }
                },
                _ => (0, 0),
            }
        },
    }
}

/// How many wall-kick rows the offset table of a kind has.
pub(crate) fn n_kick_rows_of(t: &TetrominoType) -> (r: usize)
    ensures
        r == n_kick_rows(*t),
{
    match t {
        TetrominoType::O => 1,
        _ => 5,
    }
}

} // verus!

verus! {

/// Integer positions narrowed back to grid cells; meaningful when every
/// position is within the unsigned range (as a passed kick test ensures).
pub open spec fn pairs_to_cells(ps: Seq<(int, int)>) -> Seq<Coord> {
    Seq::new(ps.len(), |i: int| Coord { x: ps[i].0 as u32, y: ps[i].1 as u32 })
}

} // verus!

verus! {

/// Machine-integer positions as unbounded integer pairs.
pub open spec fn wide_pairs(ps: Seq<(i64, i64)>) -> Seq<(int, int)> {
    Seq::new(ps.len(), |i: int| (ps[i].0 as int, ps[i].1 as int))
}

/// True exactly when every position, displaced by the kick `(kx, ky)`,
/// lies on the `w`-by-`h` board.
pub(crate) fn pairs_within_bounds(ps: &Vec<(i64, i64)>, kx: i64, ky: i64, w: u32, h: u32) -> (r: bool)
    requires
        forall|i: int| 0 <= i < ps@.len()
            ==> -0x3_0000_0000 <= (#[trigger] ps@[i]).0 <= 0x3_0000_0000
                && -0x3_0000_0000 <= ps@[i].1 <= 0x3_0000_0000,
        -4 <= kx <= 4,
        -4 <= ky <= 4,
    ensures
        r == all_pairs_within(shifted_pairs(wide_pairs(ps@), kx as int, ky as int), w as int, h as int),
{
    let ghost cand = shifted_pairs(wide_pairs(ps@), kx as int, ky as int);
    let mut i: usize = 0;
    while i < ps.len()
        invariant
            i <= ps@.len(),
            cand == shifted_pairs(wide_pairs(ps@), kx as int, ky as int),
            forall|i2: int| 0 <= i2 < ps@.len()
                ==> -0x3_0000_0000 <= (#[trigger] ps@[i2]).0 <= 0x3_0000_0000
                    && -0x3_0000_0000 <= ps@[i2].1 <= 0x3_0000_0000,
            -4 <= kx <= 4,
            -4 <= ky <= 4,
            forall|j: int| 0 <= j < i
                ==> 0 <= (#[trigger] cand[j]).0 < w && 0 <= cand[j].1 < h,
        decreases ps@.len() - i,
    {
        let p = ps[i];
        let nx = p.0 + kx;
        let ny = p.1 + ky;
        proof {
            assert(cand[i as int].0 == ps@[i as int].0 + kx
                && cand[i as int].1 == ps@[i as int].1 + ky);
        }
        if !(0 <= nx && nx < w as i64 && 0 <= ny && ny < h as i64) {
            return false;
        }
        i = i + 1;
    }
    true
}

/// True exactly when some displaced position coincides with some cell of
/// the piece.
pub(crate) fn pairs_overlap_piece(ps: &Vec<(i64, i64)>, kx: i64, ky: i64, t: &Tetromino) -> (r: bool)
    requires
        forall|i: int| 0 <= i < ps@.len()
            ==> -0x3_0000_0000 <= (#[trigger] ps@[i]).0 <= 0x3_0000_0000
                && -0x3_0000_0000 <= ps@[i].1 <= 0x3_0000_0000,
        -4 <= kx <= 4,
        -4 <= ky <= 4,
    ensures
        r == pairs_overlap_cells(shifted_pairs(wide_pairs(ps@), kx as int, ky as int), t.cells_spec()),
{
    let ghost cand = shifted_pairs(wide_pairs(ps@), kx as int, ky as int);
    let cells = t.coords();
    let mut i: usize = 0;
    while i < ps.len()
        invariant
            i <= ps@.len(),
            cand == shifted_pairs(wide_pairs(ps@), kx as int, ky as int),
            cells@ == t.cells_spec(),
            forall|i2: int| 0 <= i2 < ps@.len()
                ==> -0x3_0000_0000 <= (#[trigger] ps@[i2]).0 <= 0x3_0000_0000
                    && -0x3_0000_0000 <= ps@[i2].1 <= 0x3_0000_0000,
            -4 <= kx <= 4,
            -4 <= ky <= 4,
            forall|p: int, q: int|
                0 <= p < i && 0 <= q < cells@.len()
                    ==> !((#[trigger] cand[p]).0 == (#[trigger] cells@[q]).x
                        && cand[p].1 == cells@[q].y),
        decreases ps@.len() - i,
    {
        let pr = ps[i];
        let nx = pr.0 + kx;
        let ny = pr.1 + ky;
        let mut j: usize = 0;
        while j < cells.len()
            invariant
                i < ps@.len(),
                j <= cells@.len(),
                cand == shifted_pairs(wide_pairs(ps@), kx as int, ky as int),
                cells@ == t.cells_spec(),
                nx == cand[i as int].0,
                ny == cand[i as int].1,
                forall|q: int| 0 <= q < j
                    ==> !(cand[i as int].0 == (#[trigger] cells@[q]).x
                        && cand[i as int].1 == cells@[q].y),
            decreases cells@.len() - j,
        {
            let c = cells[j];
            if nx == c.x as i64 && ny == c.y as i64 {
                return true;
            }
            j = j + 1;
        }
        i = i + 1;
    }
    false
}

/// True exactly when some displaced position hits any piece in the
/// settled list.
pub(crate) fn pairs_hit_settled(ps: &Vec<(i64, i64)>, kx: i64, ky: i64, ts: &Vec<Tetromino>) -> (r: bool)
    requires
        forall|i: int| 0 <= i < ps@.len()
            ==> -0x3_0000_0000 <= (#[trigger] ps@[i]).0 <= 0x3_0000_0000
                && -0x3_0000_0000 <= ps@[i].1 <= 0x3_0000_0000,
        -4 <= kx <= 4,
        -4 <= ky <= 4,
    ensures
        r == pairs_collide_any(shifted_pairs(wide_pairs(ps@), kx as int, ky as int),
            crate::tetromino::models_of(ts@)),
{
    let ghost cand = shifted_pairs(wide_pairs(ps@), kx as int, ky as int);
    let ghost ms = crate::tetromino::models_of(ts@);
    let mut k: usize = 0;
    while k < ts.len()
        invariant
            k <= ts@.len(),
            cand == shifted_pairs(wide_pairs(ps@), kx as int, ky as int),
            ms == crate::tetromino::models_of(ts@),
            forall|i2: int| 0 <= i2 < ps@.len()
                ==> -0x3_0000_0000 <= (#[trigger] ps@[i2]).0 <= 0x3_0000_0000
                    && -0x3_0000_0000 <= ps@[i2].1 <= 0x3_0000_0000,
            -4 <= kx <= 4,
            -4 <= ky <= 4,
            forall|m: int| 0 <= m < k ==> !pairs_overlap_cells(cand, (#[trigger] ms[m]).cells),
        decreases ts@.len() - k,
    {
        if pairs_overlap_piece(ps, kx, ky, &ts[k]) {
            proof {
                assert(ms[k as int] == ts@[k as int].model());
            }
            return true;
        }
        proof {
            assert(ms[k as int] == ts@[k as int].model());
        }
        k = k + 1;
    }
    false
}

} // verus!

verus! {

/// The rotation index that follows `idx` in the given sense.
pub open spec fn next_index(idx: int, d: RotationDirection) -> int {
    (idx + rotation_step(d) + 4) % 4
}

/// The resolver's unobstructed step: the piece rotated about its pivot,
/// displaced by the first table row's kick between the two indices.
pub open spec fn free_rot_step(
    ps: Seq<(int, int)>,
    kind: TetrominoType,
    idx: int,
    d: RotationDirection,
) -> Seq<(int, int)> {
    shifted_pairs(rotated_pairs(ps, d), kick_between(kind, 0, idx, next_index(idx, d)).0,
        kick_between(kind, 0, idx, next_index(idx, d)).1)
}

/// Four successive unobstructed rotations in one sense restore the cell
/// layout of any piece of a four-state kind (every kind but O): the four
/// 90-degree turns compose to the identity, and the first-row kicks of a
/// full index cycle cancel.
pub proof fn lemma_rotation_round_trip(
    ps: Seq<(int, int)>,
    kind: TetrominoType,
    d: RotationDirection,
    idx: int,
)
    requires
        kind != TetrominoType::O,
        0 <= idx < 4,
        ps.len() >= 1,
    ensures
        free_rot_step(free_rot_step(free_rot_step(free_rot_step(ps, kind, idx, d), kind,
            next_index(idx, d), d), kind, next_index(next_index(idx, d), d), d), kind,
            next_index(next_index(next_index(idx, d), d), d), d) == ps,
{
    let i1 = next_index(idx, d);
    let i2 = next_index(i1, d);
    let i3 = next_index(i2, d);
    let s1 = free_rot_step(ps, kind, idx, d);
    let s2 = free_rot_step(s1, kind, i1, d);
    let s3 = free_rot_step(s2, kind, i2, d);
    let s4 = free_rot_step(s3, kind, i3, d);
    assert(s4 =~= ps) by {
        assert forall|i: int| 0 <= i < ps.len() implies s4[i] == ps[i] by {
            assert(s1[0] == (ps[0].0 + kick_between(kind, 0, idx, i1).0,
                ps[0].1 + kick_between(kind, 0, idx, i1).1));
            assert(s2[0] == (s1[0].0 + kick_between(kind, 0, i1, i2).0,
                s1[0].1 + kick_between(kind, 0, i1, i2).1));
            assert(s3[0] == (s2[0].0 + kick_between(kind, 0, i2, i3).0,
                s2[0].1 + kick_between(kind, 0, i2, i3).1));
            assert(s4[0] == (s3[0].0 + kick_between(kind, 0, i3, idx).0,
                s3[0].1 + kick_between(kind, 0, i3, idx).1));
            let ox = ps[i].0 - ps[0].0;
            let oy = ps[i].1 - ps[0].1;
            assert(s1[i].0 - s1[0].0 == rotated_offset(d, ox, oy).0
                && s1[i].1 - s1[0].1 == rotated_offset(d, ox, oy).1);
            assert(s2[i].0 - s2[0].0 == -ox && s2[i].1 - s2[0].1 == -oy);
            assert(s3[i].0 - s3[0].0 == rotated_offset(d, -ox, -oy).0
                && s3[i].1 - s3[0].1 == rotated_offset(d, -ox, -oy).1);
            assert(s4[i].0 - s4[0].0 == ox && s4[i].1 - s4[0].1 == oy);
            assert(s4[0] == ps[0]);
        }
    }
}

} // verus!

verus! {

/// The cell sequence of an O piece at each rotation index: the same
/// 2-by-2 block of positions, with the pivot walking around its corners
/// as the index advances.
pub open spec fn o_block_cells(ax: int, ay: int, idx: int) -> Seq<(int, int)> {
    if idx == 0 {
        seq![(ax, ay), (ax + 1, ay), (ax, ay + 1), (ax + 1, ay + 1)]
    } else if idx == 1 {
        seq![(ax, ay + 1), (ax, ay), (ax + 1, ay + 1), (ax + 1, ay)]
    } else if idx == 2 {
        seq![(ax + 1, ay + 1), (ax, ay + 1), (ax + 1, ay), (ax, ay)]
    } else {
        seq![(ax + 1, ay), (ax + 1, ay + 1), (ax, ay), (ax, ay + 1)]
    }
}

/// Rotating an O piece never changes its cell set, in either sense: the
/// unobstructed step carries each of its four configurations to the next
/// one, which covers exactly the same 2-by-2 block of positions.
pub proof fn lemma_o_rotation_preserves_cells(ax: int, ay: int, idx: int, d: RotationDirection)
    requires
        0 <= idx < 4,
    ensures
        free_rot_step(o_block_cells(ax, ay, idx), TetrominoType::O, idx, d)
            == o_block_cells(ax, ay, next_index(idx, d)),
        o_block_cells(ax, ay, next_index(idx, d)).to_set() == o_block_cells(ax, ay, idx).to_set(),
{
    let pre = o_block_cells(ax, ay, idx);
    let nxt = next_index(idx, d);
    let post = o_block_cells(ax, ay, nxt);
    assert(free_rot_step(pre, TetrominoType::O, idx, d) =~= post) by {
        assert(free_rot_step(pre, TetrominoType::O, idx, d).len() == 4);
        assert(free_rot_step(pre, TetrominoType::O, idx, d)[0] == post[0]);
        assert(free_rot_step(pre, TetrominoType::O, idx, d)[1] == post[1]);
        assert(free_rot_step(pre, TetrominoType::O, idx, d)[2] == post[2]);
        assert(free_rot_step(pre, TetrominoType::O, idx, d)[3] == post[3]);
    }
    assert(post.to_set() =~= pre.to_set()) by {
        assert forall|p: (int, int)| pre.to_set().contains(p) implies post.to_set().contains(p) by {
            let i = choose|i: int| 0 <= i < pre.len() && pre[i] == p;
            assert(exists|j: int| 0 <= j < post.len() && post[j] == p) by {
                if post[0] == p || post[1] == p || post[2] == p || post[3] == p {
                }
            }
        }
        assert forall|p: (int, int)| post.to_set().contains(p) implies pre.to_set().contains(p) by {
            let i = choose|i: int| 0 <= i < post.len() && post[i] == p;
            assert(exists|j: int| 0 <= j < pre.len() && pre[j] == p) by {
                if pre[0] == p || pre[1] == p || pre[2] == p || pre[3] == p {
                }
            }
        }
    }
}

} // verus!

verus! {

/// Narrowing in-board positions to grid cells and widening them again is
/// the identity.
pub proof fn lemma_pairs_to_cells_exact(c: Seq<(int, int)>, w: int, h: int)
    requires
        all_pairs_within(c, w, h),
        w <= u32::MAX,
        h <= u32::MAX,
    ensures
        pairs_of(pairs_to_cells(c)) == c,
{
    assert(pairs_of(pairs_to_cells(c)) =~= c) by {
        assert forall|i: int| 0 <= i < c.len() implies pairs_of(pairs_to_cells(c))[i] == c[i] by {
            assert(0 <= c[i].0 < w && 0 <= c[i].1 < h);
        }
    }
}

} // verus!
