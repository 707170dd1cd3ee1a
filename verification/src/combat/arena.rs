//! The battle grid: positions, squares and distances.

use vstd::prelude::*;

use crate::measure::Squares;

verus! {

/// Size of an arena, in squares.
#[derive(Debug, Clone, Copy, PartialEq, Eq, Structural)]
pub struct Dimensions {
    pub width: Squares,
    pub height: Squares,
}

/// A square on the grid.
#[derive(Debug, Clone, Copy, PartialEq, Eq, Structural)]
pub struct Position {
    pub x: Squares,
    pub y: Squares,
}

impl Dimensions {
    /// Whether `pos` lies on a grid of these dimensions.
    pub open spec fn contains(self, pos: Position) -> bool {
        pos.x.0 < self.width.0 && pos.y.0 < self.height.0
    }

    /// `Some(pos)` when `pos` lies on the grid.
    pub fn check_pos(&self, pos: Position) -> (res: Option<Position>)
        ensures
            res == (if self.contains(pos) { Some(pos) } else { None::<Position> }),
    {
        if pos.x.0 < self.width.0 && pos.y.0 < self.height.0 {
            Some(pos)
        } else {
            None
        }
    }
}

/// The eight compass directions, clockwise from up.
#[derive(Debug, Clone, Copy, PartialEq, Eq, Structural)]
pub enum Direction {
    Up,
    TopRight,
    Right,
    BottomRight,
    Bottom,
    BottomLeft,
    Left,
    TopLeft,
}

/// The grid offset of one step in a direction (`y` grows downwards).
pub open spec fn spec_offset(d: Direction) -> (int, int) {
    match d {
        Direction::Up => (0, -1),
        Direction::TopRight => (1, -1),
        Direction::Right => (1, 0),
        Direction::BottomRight => (1, 1),
        Direction::Bottom => (0, 1),
        Direction::BottomLeft => (-1, 1),
        Direction::Left => (-1, 0),
        Direction::TopLeft => (-1, -1),
    }
}

/// The direction at clockwise index `i` (0 is up).
pub open spec fn spec_direction_at(i: int) -> Direction {
    if i == 0 {
        Direction::Up
    } else if i == 1 {
        Direction::TopRight
    } else if i == 2 {
        Direction::Right
    } else if i == 3 {
        Direction::BottomRight
    } else if i == 4 {
        Direction::Bottom
    } else if i == 5 {
        Direction::BottomLeft
    } else if i == 6 {
        Direction::Left
    } else {
        Direction::TopLeft
    }
}

/// One step from `pos` towards `d`, if it stays within the `u32` grid coordinates.
pub open spec fn spec_step(pos: Position, d: Direction) -> Option<Position> {
    let (dx, dy) = spec_offset(d);
    let x = pos.x.0 + dx;
    let y = pos.y.0 + dy;
    if 0 <= x <= u32::MAX && 0 <= y <= u32::MAX {
        Some(Position { x: Squares(x as u32), y: Squares(y as u32) })
    } else {
        None
    }
}

impl Direction {
    /// The direction at clockwise index `i` (0 is up).
    pub fn at(i: usize) -> (res: Direction)
        requires
            i < 8,
        ensures
            res == spec_direction_at(i as int),
    {
        if i == 0 {
            Direction::Up
        } else if i == 1 {
            Direction::TopRight
        } else if i == 2 {
            Direction::Right
        } else if i == 3 {
            Direction::BottomRight
        } else if i == 4 {
            Direction::Bottom
        } else if i == 5 {
            Direction::BottomLeft
        } else if i == 6 {
            Direction::Left
        } else {
            Direction::TopLeft
        }
    }

    /// The grid offset of one step in this direction.
    pub fn offset(self) -> (res: (i32, i32))
        ensures
            res.0 == spec_offset(self).0,
            res.1 == spec_offset(self).1,
    {
        match self {
            Direction::Up => (0, -1),
            Direction::TopRight => (1, -1),
            Direction::Right => (1, 0),
            Direction::BottomRight => (1, 1),
            Direction::Bottom => (0, 1),
            Direction::BottomLeft => (-1, 1),
            Direction::Left => (-1, 0),
            Direction::TopLeft => (-1, -1),
        }
    }
}

impl Position {
    /// One step from this position towards `rhs`.
    pub fn add(self, rhs: Direction) -> (res: Option<Position>)
        ensures
            res == spec_step(self, rhs),
    {
        let (dx, dy) = rhs.offset();
        match self.x.checked_add_signed(dx) {
            Some(x) => match self.y.checked_add_signed(dy) {
                Some(y) => Some(Position { x, y }),
                None => None,
            },
            None => None,
        }
    }
}

/// Absolute value.
pub open spec fn spec_abs(i: int) -> int {
    if i < 0 { -i } else { i }
}

/// Grid distance where diagonal steps cost one square: the larger of the two axis distances.
pub open spec fn spec_distance(from: Position, to: Position) -> int {
    let dx = spec_abs(to.x.0 - from.x.0);
    let dy = spec_abs(to.y.0 - from.y.0);
    if dx < dy { dy } else { dx }
}

/// Both coordinates fit in an `i32`.
pub open spec fn small_coords(p: Position) -> bool {
    p.x.0 <= i32::MAX && p.y.0 <= i32::MAX
}

/// Grid distance is a metric: zero exactly between equal positions, symmetric, and obeying
/// the triangle inequality.
pub proof fn lemma_distance_is_metric(a: Position, b: Position, c: Position)
    ensures
        spec_distance(a, a) == 0,
        spec_distance(a, b) >= 0,
        spec_distance(a, b) == 0 <==> a == b,
        spec_distance(a, b) == spec_distance(b, a),
        spec_distance(a, c) <= spec_distance(a, b) + spec_distance(b, c),
{
    if spec_distance(a, b) == 0 {
        assert(a.x.0 == b.x.0 && a.y.0 == b.y.0);
        assert(a.x == b.x && a.y == b.y);
    }
}

/// A square of the grid and the creatures standing in it.
#[derive(Debug)]
pub struct Square {
    occupants: Vec<u32>,
}

impl View for Square {
    type V = Seq<u32>;

    /// Ids of the creatures standing here, in arrival order (up to removals).
    closed spec fn view(&self) -> Seq<u32> {
        self.occupants@
    }
}

/// Whether `i` is the index of the first occurrence of `id` in `s`.
pub open spec fn is_first_index(s: Seq<u32>, id: u32, i: int) -> bool {
    0 <= i < s.len() && s[i] == id && forall|j: int| 0 <= j < i ==> s[j] != id
}

/// The index of the first occurrence of `id` in `s`.
pub open spec fn first_index(s: Seq<u32>, id: u32) -> int {
    choose|i: int| is_first_index(s, id, i)
}

/// `s` with its first occurrence of `id` removed by moving the last element into its place.
pub open spec fn spec_swap_remove(s: Seq<u32>, id: u32) -> Seq<u32> {
    if s.contains(id) {
        let i = first_index(s, id);
        s.update(i, s.last()).drop_last()
    } else {
        s
    }
}

/// Adding a creature to a square it is not in, then removing it, leaves the square as it
/// was.
pub proof fn lemma_add_then_remove_occupant(s: Seq<u32>, id: u32)
    requires
        !s.contains(id),
    ensures
        spec_swap_remove(s.push(id), id) == s,
{
    let t = s.push(id);
    assert(t[s.len() as int] == id);
    assert(t.contains(id));
    assert(is_first_index(t, id, s.len() as int)) by {
        assert forall|j: int| 0 <= j < s.len() implies t[j] != id by {
            assert(t[j] == s[j]);
        }
    }
    let k = first_index(t, id);
    assert(k == s.len()) by {
        if k < s.len() {
            assert(t[k] == s[k]);
            assert(s.contains(id));
        }
    }
    assert(t.update(k, t.last()).drop_last() =~= s);
}

impl Square {
    pub fn new() -> (res: Self)
        ensures
            res@ == Seq::<u32>::empty(),
    {
        Square { occupants: Vec::new() }
    }

    /// Whether a living creature stands here; `dead` holds the ids of the dead.
    pub fn is_occupied(&self, dead: &Vec<u32>) -> (res: bool)
        ensures
            res == exists|i: int| 0 <= i < self@.len() && !dead@.contains(#[trigger] self@[i]),
    {
        let mut i: usize = 0;
        while i < self.occupants.len()
            invariant
                i <= self.occupants@.len(),
                forall|j: int| 0 <= j < i ==> dead@.contains(#[trigger] self.occupants@[j]),
            decreases self.occupants@.len() - i,
        {
            let id = self.occupants[i];
            let mut k: usize = 0;
            let mut found = false;
            while k < dead.len()
                invariant
                    k <= dead@.len(),
                    found == exists|j: int| 0 <= j < k && dead@[j] == id,
                decreases dead@.len() - k,
            {
                if dead[k] == id {
                    found = true;
                }
                k = k + 1;
            }
            if !found {
                assert(!dead@.contains(self@[i as int]));
                return true;
            }
            i = i + 1;
        }
        false
    }

    /// Removes the first occurrence of `me`, moving the last occupant into its place.
    pub fn remove_occupant(&mut self, me: u32)
        ensures
            final(self)@ == spec_swap_remove(old(self)@, me),
    {
        let mut i: usize = 0;
        while i < self.occupants.len()
            invariant
                i <= self.occupants@.len(),
                self.occupants@ == old(self).occupants@,
                forall|j: int| 0 <= j < i ==> self.occupants@[j] != me,
            decreases self.occupants@.len() - i,
        {
            if self.occupants[i] == me {
                proof {
                    assert(self@[i as int] == me);
                    assert(self@.contains(me));
                    assert(is_first_index(self@, me, i as int));
                    let k = first_index(self@, me);
                    assert(is_first_index(self@, me, k));
                    assert(k == i) by {
                        if k < i {
                            assert(self.occupants@[k] != me);
                        }
                        if k > i {
                            assert(self@[i as int] != me);
                        }
                    }
                }
                self.occupants.swap_remove(i);
                return;
            }
            i = i + 1;
        }
        assert(!old(self)@.contains(me));
    }

    /// Adds `me` as the newest occupant.
    pub fn add_occupant(&mut self, me: u32)
        ensures
            final(self)@ == old(self)@.push(me),
    {
        self.occupants.push(me);
    }

    /// A copy of this square.
    pub fn duplicate(&self) -> (res: Square)
        ensures
            res@ == self@,
    {
        Square { occupants: self.occupants.clone() }
    }

    /// The creatures standing here.
    pub fn occupants(&self) -> (res: Vec<u32>)
        ensures
            res@ == self@,
    {
        self.occupants.clone()
    }
}

/// The battle grid: a `width` by `height` field of squares stored row by row.
#[derive(Debug)]
pub struct Arena {
    grid: Vec<Square>,
    dimensions: Dimensions,
}

/// Row-major index of `pos` on a grid of dimensions `dims`, when it lies on it.
pub open spec fn spec_flat_index(dims: Dimensions, pos: Position) -> Option<int> {
    if dims.contains(pos) {
        Some(pos.y.0 * dims.width.0 + pos.x.0)
    } else {
        None
    }
}

/// Every square of the grid is addressed by exactly one position.
pub proof fn lemma_flat_index_bijective(dims: Dimensions, p: Position, q: Position)
    requires
        dims.contains(p),
        dims.contains(q),
    ensures
        0 <= spec_flat_index(dims, p)->0 < dims.width.0 * dims.height.0,
        spec_flat_index(dims, p) == spec_flat_index(dims, q) ==> p == q,
{
    let w = dims.width.0 as int;
    let h = dims.height.0 as int;
    let (px, py, qx, qy) = (p.x.0 as int, p.y.0 as int, q.x.0 as int, q.y.0 as int);
    assert(0 <= py * w + px < w * h) by (nonlinear_arith)
        requires 0 <= px < w, 0 <= py < h;
    if py * w + px == qy * w + qx {
        assert(py == qy && px == qx) by (nonlinear_arith)
            requires py * w + px == qy * w + qx, 0 <= px < w, 0 <= qx < w, 0 <= py, 0 <= qy;
        assert(p.x == q.x && p.y == q.y);
    }
}

/// The squares around a point, clockwise from up; `None` where the neighbour is off the grid.
#[derive(Debug)]
pub struct Around {
    pub clockwise: Vec<Option<Position>>,
}

impl Arena {
    /// The grid holds one square per position and fits the `u32` index range.
    pub closed spec fn wf(&self) -> bool {
        &&& self.grid@.len() == self.dimensions.width.0 * self.dimensions.height.0
        &&& self.dimensions.width.0 * self.dimensions.height.0 <= u32::MAX
    }

    /// The dimensions of the grid.
    pub closed spec fn dims(&self) -> Dimensions {
        self.dimensions
    }

    /// The square at `pos`, when `pos` lies on the grid.
    pub closed spec fn square(&self, pos: Position) -> Option<Square> {
        match spec_flat_index(self.dimensions, pos) {
            Some(i) => Some(self.grid@[i]),
            None => None,
        }
    }

    /// An arena of empty squares.
    pub fn new(dimensions: Dimensions) -> (res: Self)
        requires
            dimensions.width.0 * dimensions.height.0 <= u32::MAX,
        ensures
            res.wf(),
            res.dims() == dimensions,
            forall|p: Position| dimensions.contains(p) ==> ((#[trigger] res.square(p)) matches Some(sq) && sq@.len() == 0),
            forall|p: Position| !dimensions.contains(p) ==> (#[trigger] res.square(p)) is None,
    {
        let n: usize = dimensions.width.0 as usize * dimensions.height.0 as usize;
        let mut grid: Vec<Square> = Vec::new();
        let mut i: usize = 0;
        while i < n
            invariant
                i <= n,
                grid@.len() == i,
                forall|j: int| 0 <= j < i ==> (#[trigger] grid@[j])@.len() == 0,
            decreases n - i,
        {
            grid.push(Square::new());
            i = i + 1;
        }
        let res = Arena { grid, dimensions };
        proof {
            assert forall|p: Position| dimensions.contains(p) implies ((#[trigger] res.square(p)) matches Some(sq) && sq@.len() == 0) by {
                lemma_flat_index_bijective(dimensions, p, p);
            }
        }
        res
    }

    /// A small arena for trying things out: 5 by 5 squares.
    pub fn test() -> (res: Self)
        ensures
            res.wf(),
            res.dims() == (Dimensions { width: Squares(5), height: Squares(5) }),
            forall|p: Position| res.dims().contains(p) ==> ((#[trigger] res.square(p)) matches Some(sq) && sq@.len() == 0),
    {
        Arena::new(Dimensions { width: Squares(5), height: Squares(5) })
    }

    /// The dimensions of the grid.
    pub fn dimensions(&self) -> (res: Dimensions)
        ensures
            res == self.dims(),
    {
        self.dimensions
    }

    fn flat_index(&self, pos: Position) -> (res: Option<usize>)
        requires
            self.wf(),
        ensures
            match spec_flat_index(self.dims(), pos) {
                Some(i) => res == Some(i as usize) && i < self.grid@.len(),
                None => res is None,
            },
    {
        match self.dimensions.check_pos(pos) {
            Some(p) => {
                proof {
                    lemma_flat_index_bijective(self.dimensions, p, p);
                    let w = self.dimensions.width.0 as int;
                    let h = self.dimensions.height.0 as int;
                    assert(p.y.0 * w <= p.y.0 * w + p.x.0);
                    assert(p.y.0 * w + p.x.0 < w * h);
                }
                Some((p.y.0 * self.dimensions.width.0 + p.x.0) as usize)
            },
            None => None,
        }
    }

    /// The square at `pos`, when it lies on the grid.
    pub fn at(&self, pos: Position) -> (res: Option<&Square>)
        requires
            self.wf(),
        ensures
            res is Some <==> self.dims().contains(pos),
            match self.square(pos) {
                Some(sq) => res matches Some(r) && *r == sq,
                None => res is None,
            },
    {
        match self.flat_index(pos) {
            Some(i) => Some(&self.grid[i]),
            None => None,
        }
    }

    /// Puts creature `id` in the square at `pos`; nothing changes when `pos` is off the grid.
    pub fn add_occupant(&mut self, pos: Position, id: u32) -> (res: bool)
        requires
            old(self).wf(),
        ensures
            final(self).wf(),
            res == old(self).dims().contains(pos),
            final(self).dims() == old(self).dims(),
            forall|p: Position| p != pos ==> #[trigger] final(self).square(p) == old(self).square(p),
            res ==> final(self).square(pos)->0@ == old(self).square(pos)->0@.push(id),
            !res ==> final(self).square(pos) == old(self).square(pos),
    {
        match self.flat_index(pos) {
            Some(i) => {
                let mut sq = self.grid[i].duplicate();
                sq.add_occupant(id);
                self.grid.set(i, sq);
                proof {
                    assert forall|p: Position| p != pos implies #[trigger] self.square(p) == old(self).square(p) by {
                        if self.dimensions.contains(p) {
                            lemma_flat_index_bijective(self.dimensions, p, pos);
                        }
                    }
                }
                true
            },
            None => false,
        }
    }

    /// Takes creature `id` out of the square at `pos` (its first occurrence there).
    pub fn remove_occupant(&mut self, pos: Position, id: u32) -> (res: bool)
        requires
            old(self).wf(),
        ensures
            final(self).wf(),
            res == old(self).dims().contains(pos),
            final(self).dims() == old(self).dims(),
            forall|p: Position| p != pos ==> #[trigger] final(self).square(p) == old(self).square(p),
            res ==> final(self).square(pos)->0@ == spec_swap_remove(old(self).square(pos)->0@, id),
            !res ==> final(self).square(pos) == old(self).square(pos),
    {
        match self.flat_index(pos) {
            Some(i) => {
                let mut sq = self.grid[i].duplicate();
                sq.remove_occupant(id);
                self.grid.set(i, sq);
                proof {
                    assert forall|p: Position| p != pos implies #[trigger] self.square(p) == old(self).square(p) by {
                        if self.dimensions.contains(p) {
                            lemma_flat_index_bijective(self.dimensions, p, pos);
                        }
                    }
                }
                true
            },
            None => false,
        }
    }

    /// Grid distance between two positions (diagonal steps count as one square).
    pub fn distance(from: Position, to: Position) -> (res: Squares)
        requires
            small_coords(from),
            small_coords(to),
        ensures
            res.0 == spec_distance(from, to),
    {
        let delta_x: i32 = to.x.0 as i32 - from.x.0 as i32;
        let delta_y: i32 = to.y.0 as i32 - from.y.0 as i32;
        let abs_x: i32 = if delta_x < 0 { -delta_x } else { delta_x };
        let abs_y: i32 = if delta_y < 0 { -delta_y } else { delta_y };
        let c: i32 = if abs_x < abs_y { abs_x } else { abs_y };
        // Straight steps left over after moving diagonally `c` times.
        let a: i32 = if delta_x < 0 { -(delta_x + c) } else { delta_x - c };
        let b: i32 = if delta_y < 0 { -(delta_y + c) } else { delta_y - c };
        let distance: i32 = a + b + c;
        Squares(distance as u32)
    }

    /// The neighbouring squares of `pos`, clockwise from up, when `pos` lies on the grid.
    pub fn around(&self, pos: Position) -> (res: Option<Around>)
        requires
            self.wf(),
        ensures
            res is Some <==> self.dims().contains(pos),
            res matches Some(around) ==> {
                &&& around.clockwise@.len() == 8
                &&& forall|i: int| 0 <= i < 8 ==> #[trigger] around.clockwise@[i] == (
                    match spec_step(pos, spec_direction_at(i)) {
                        Some(p) => if self.dims().contains(p) { Some(p) } else { None },
                        None => None,
                    })
            },
    {
        if self.flat_index(pos).is_none() {
            return None;
        }
        let mut clockwise: Vec<Option<Position>> = Vec::new();
        let mut i: usize = 0;
        while i < 8
            invariant
                i <= 8,
                clockwise@.len() == i,
                forall|j: int| 0 <= j < i ==> #[trigger] clockwise@[j] == (
                    match spec_step(pos, spec_direction_at(j)) {
                        Some(p) => if self.dims().contains(p) { Some(p) } else { None },
                        None => None,
                    }),
            decreases 8 - i,
        {
            let next = match pos.add(Direction::at(i)) {
                Some(p) => self.dimensions.check_pos(p),
                None => None,
            };
            clockwise.push(next);
            i = i + 1;
        }
        Some(Around { clockwise })
    }
}

} // verus!
