use vstd::prelude::*;

verus! {

/// One of the four cardinal headings.
#[derive(Clone, Copy, Debug, PartialEq, Eq, Structural)]
pub enum Direction {
    Up,
    Down,
    Left,
    Right,
}

/// The heading that points the other way.
pub open spec fn opposite(d: Direction) -> Direction {
    match d {
        Direction::Up => Direction::Down,
        Direction::Down => Direction::Up,
        Direction::Right => Direction::Left,
        Direction::Left => Direction::Right,
    }
}

/// Column offset of one step in heading `d`.
pub open spec fn dx(d: Direction) -> int {
    match d {
        Direction::Left => -1,
        Direction::Right => 1,
        _ => 0,
    }
}

/// Row offset of one step in heading `d` (rows grow downwards).
pub open spec fn dy(d: Direction) -> int {
    match d {
        Direction::Up => -1,
        Direction::Down => 1,
        _ => 0,
    }
}

impl Direction {
    /// The heading that points the other way.
    pub fn get_opposite(&self) -> (r: Direction)
        ensures
            r == opposite(*self),
    {
        match *self {
            Direction::Up => Direction::Down,
            Direction::Down => Direction::Up,
            Direction::Right => Direction::Left,
            Direction::Left => Direction::Right,
        }
    }
}

/// One grid cell occupied by the snake: column, then row.
#[derive(Clone, Copy, Debug, PartialEq, Eq, Structural)]
pub struct Segment(pub u16, pub u16);

/// The extent of a grid dimension used for wrapping: never below three cells,
/// so that one interior cell lies between the two reserved border cells.
pub open spec fn extent(n: u16) -> int {
    if n < 3 {
        3
    } else {
        n as int
    }
}

/// Wraps a coordinate along a dimension of extent `n`: past the low border it
/// re-enters at `n - 2`, past the high interior edge at `1`.
pub open spec fn wrap(p: int, n: int) -> int {
    if p <= 0 {
        n - 2
    } else if p >= n - 1 {
        1
    } else {
        p
    }
}

/// The cell one step from `s` in heading `d`, wrapped inside the grid `size`.
pub open spec fn step(s: Segment, size: (u16, u16), d: Direction) -> Segment {
    Segment(
        wrap(s.0 + dx(d), extent(size.0)) as u16,
        wrap(s.1 + dy(d), extent(size.1)) as u16,
    )
}

/// `s` lies in the playable interior `[1, width - 2] x [1, height - 2]`.
pub open spec fn in_interior(s: Segment, size: (u16, u16)) -> bool {
    &&& 1 <= s.0 && s.0 + 2 <= size.0
    &&& 1 <= s.1 && s.1 + 2 <= size.1
}

impl Segment {
    /// The segment one step further in heading `dir`, wrapped inside the grid.
    pub fn slither(&self, screen_size: &(u16, u16), dir: &Direction) -> (r: Segment)
        ensures
            r == step(*self, *screen_size, *dir),
    {
        let w: i32 = if screen_size.0 < 3 {
            3
        } else {
            screen_size.0 as i32
        };
        let h: i32 = if screen_size.1 < 3 {
            3
        } else {
            screen_size.1 as i32
        };
        let mut x: i32 = self.0 as i32;
        let mut y: i32 = self.1 as i32;
        match dir {
            Direction::Up => y = y - 1,
            Direction::Right => x = x + 1,
            Direction::Left => x = x - 1,
            Direction::Down => y = y + 1,
        }
        if x <= 0 {
            x = w - 2;
        } else if x >= w - 1 {
            x = 1;
        }
        if y <= 0 {
            y = h - 2;
        } else if y >= h - 1 {
            y = 1;
        }
        Segment(x as u16, y as u16)
    }
}

/// The body after one move: a new head one step ahead, the tail cell dropped.
pub open spec fn advanced(segs: Seq<Segment>, size: (u16, u16), d: Direction) -> Seq<Segment> {
    seq![step(segs[0], size, d)] + segs.drop_last()
}

/// The body after growing: a copy of the head appended at the tail end.
pub open spec fn grown(segs: Seq<Segment>) -> Seq<Segment> {
    segs.push(segs[0])
}

/// The head shares its cell with some other segment.
pub open spec fn collides(segs: Seq<Segment>) -> bool {
    exists|i: int| 1 <= i < segs.len() && #[trigger] segs[i] == segs[0]
}

/// No two segments share a cell.
pub open spec fn distinct(segs: Seq<Segment>) -> bool {
    forall|i: int, j: int| 0 <= i < segs.len() && 0 <= j < segs.len() && i != j ==> #[trigger] segs[i] != #[trigger] segs[j]
}

/// The heading after a change is requested: a reversal is dropped.
pub open spec fn turned(cur: Direction, req: Direction) -> Direction {
    if req == opposite(cur) {
        cur
    } else {
        req
    }
}

/// The snake: its segments head first, and its heading.
pub struct Snake {
    segments: Vec<Segment>,
    dir: Direction,
}

impl Snake {
    /// The segments, head first.
    pub closed spec fn body(&self) -> Seq<Segment> {
        self.segments@
    }

    /// The current heading.
    pub closed spec fn heading(&self) -> Direction {
        self.dir
    }

    /// A snake always has a head.
    pub open spec fn wf(&self) -> bool {
        self.body().len() > 0
    }

    /// A one-segment snake at the centre of the grid, heading up.
    pub fn new(screen_size: &(u16, u16)) -> (r: Snake)
        ensures
            r.wf(),
            r.body() == seq![Segment(screen_size.0 / 2, screen_size.1 / 2)],
            r.heading() == Direction::Up,
    {
        let r = Snake { segments: vec![Segment(screen_size.0 / 2, screen_size.1 / 2)], dir: Direction::Up };
        assert(r.segments@ =~= seq![Segment(screen_size.0 / 2, screen_size.1 / 2)]);
        r
    }

    /// Moves the snake one cell along its heading and tells whether the new
    /// head ran into the rest of the body.
    pub fn tick(&mut self, screen_size: &(u16, u16)) -> (collided: bool)
        requires
            old(self).wf(),
        ensures
            final(self).wf(),
            final(self).body() == advanced(old(self).body(), *screen_size, old(self).heading()),
            final(self).heading() == old(self).heading(),
            collided == collides(final(self).body()),
            final(self).body()[0] == step(old(self).body()[0], *screen_size, old(self).heading()),
            screen_size.0 >= 3 && screen_size.1 >= 3 ==> in_interior(final(self).body()[0], *screen_size),
    {
        let next = self.get_head().slither(screen_size, &self.dir);
        proof {
            lemma_step_in_interior(self.body()[0], *screen_size, self.dir);
        }
        self.segments.insert(0, next);
        self.segments.pop();
        assert(self.segments@ =~= advanced(old(self).body(), *screen_size, old(self).heading()));
        let head = self.segments[0];
        let n: usize = self.segments.len();
        let mut i: usize = 1;
        while i < n
            invariant
                1 <= i <= n,
                n == self.segments@.len(),
                self.segments@ == advanced(old(self).body(), *screen_size, old(self).heading()),
                self.dir == old(self).dir,
                head == self.segments@[0],
                forall|k: int| 1 <= k < i ==> self.segments@[k] != head,
            decreases n - i,
        {
            if self.segments[i] == head {
                return true;
            }
            i = i + 1;
        }
        false
    }

    /// Appends a copy of the head at the tail end; the next move turns it
    /// into a real trailing segment.
    pub fn grow(&mut self)
        requires
            old(self).wf(),
        ensures
            final(self).wf(),
            final(self).body() == grown(old(self).body()),
            final(self).heading() == old(self).heading(),
    {
        let head = *self.get_head();
        self.segments.push(head);
    }

    /// The head segment.
    pub fn get_head(&self) -> (r: &Segment)
        requires
            self.wf(),
        ensures
            *r == self.body()[0],
    {
        &self.segments[0]
    }

    /// The segments, head first.
    pub fn segments(&self) -> (r: &[Segment])
        ensures
            r@ == self.body(),
    {
        self.segments.as_slice()
    }

    /// Takes `dir` as the new heading unless it reverses the current one.
    pub fn change_dir(&mut self, dir: Direction)
        ensures
            final(self).heading() == turned(old(self).heading(), dir),
            final(self).body() == old(self).body(),
    {
        if self.dir.get_opposite() != dir {
            self.dir = dir;
        }
    }
}

/// A step always lands in the interior of a grid of at least three cells each
/// way, whatever the starting cell.
pub proof fn lemma_step_in_interior(s: Segment, size: (u16, u16), d: Direction)
    ensures
        size.0 >= 3 && size.1 >= 3 ==> in_interior(step(s, size, d), size),
        1 <= step(s, size, d).0 <= extent(size.0) - 2,
        1 <= step(s, size, d).1 <= extent(size.1) - 2,
{
}

/// Growing and then moving once leaves the snake one segment longer, and if
/// its cells were all distinct before, they still are unless the move is a
/// collision.
pub proof fn lemma_grow_then_advance(segs: Seq<Segment>, size: (u16, u16), d: Direction)
    requires
        segs.len() > 0,
        distinct(segs),
    ensures
        advanced(grown(segs), size, d).len() == segs.len() + 1,
        !collides(advanced(grown(segs), size, d)) ==> distinct(advanced(grown(segs), size, d)),
{
    let g = grown(segs);
    let t = advanced(g, size, d);
    assert(g.drop_last() =~= segs);
    assert(t =~= seq![step(segs[0], size, d)] + segs);
    if !collides(t) {
        assert forall|i: int, j: int| 0 <= i < t.len() && 0 <= j < t.len() && i != j implies #[trigger] t[i]
            != #[trigger] t[j] by {
            if i == 0 {
                assert(t[j] == segs[j - 1]);
            } else if j == 0 {
                assert(t[i] == segs[i - 1]);
            } else {
                assert(t[i] == segs[i - 1] && t[j] == segs[j - 1]);
            }
        }
    }
}

/// A head in column 1 heading left re-enters at column `width - 2`; a row
/// inside the interior is kept.
pub proof fn lemma_wrap_left(s: Segment, size: (u16, u16))
    requires
        s.0 == 1,
        size.0 >= 3,
        1 <= s.1 && s.1 + 2 <= size.1,
    ensures
        step(s, size, Direction::Left) == Segment((size.0 - 2) as u16, s.1),
{
}

} // verus!
