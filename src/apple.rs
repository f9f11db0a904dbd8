use crate::snake::{grown, Segment, Snake};
use rand::Rng;
use vstd::prelude::*;

verus! {

/// The target the snake chases: a column and a row.
pub struct Apple(u16, u16);

/// `v` lies in `[0, n)`, or is 0 where `n` is 0.
pub open spec fn drawn_below(v: u16, n: u16) -> bool {
    if n == 0 {
        v == 0
    } else {
        v < n
    }
}

/// The segment lies on the cell `p`.
pub open spec fn on_spot(s: Segment, p: (u16, u16)) -> bool {
    s.0 == p.0 && s.1 == p.1
}

/// A position clamped into `[0, width] x [0, height]`.
pub open spec fn clamped(p: (u16, u16), size: (u16, u16)) -> (u16, u16) {
    (
        if p.0 <= size.0 { p.0 } else { size.0 },
        if p.1 <= size.1 { p.1 } else { size.1 },
    )
}

/// Relies on rand's `thread_rng().gen_range(0..n)`: a value in `[0, n)`; it
/// panics on an empty range, which `n > 0` excludes.
#[verifier::external_body]
fn random_below(n: u16) -> (r: u16)
    requires
        n > 0,
    ensures
        r < n,
{
    rand::thread_rng().gen_range(0..n)
}

impl Apple {
    /// The target's position: column, then row.
    pub closed spec fn spot(&self) -> (u16, u16) {
        (self.0, self.1)
    }

    /// The snake's head is on the target.
    pub open spec fn eaten_by(&self, snake: Snake) -> bool {
        on_spot(snake.body()[0], self.spot())
    }

    /// A target at the centre of the grid.
    pub fn new(screen_size: &(u16, u16)) -> (r: Apple)
        ensures
            r.spot() == (screen_size.0 / 2, screen_size.1 / 2),
    {
        Apple(screen_size.0 / 2, screen_size.1 / 2)
    }

    /// The target's position: column, then row.
    pub fn position(&self) -> (r: (u16, u16))
        ensures
            r == self.spot(),
    {
        (self.0, self.1)
    }

    /// Resolves consumption: where the snake's head is on the target the snake
    /// grows and the target moves to a random cell of the grid. The target is
    /// then clamped into the grid.
    pub fn tick(&mut self, screen_size: &(u16, u16), snake: &mut Snake)
        requires
            old(snake).wf(),
        ensures
            final(snake).wf(),
            final(snake).heading() == old(snake).heading(),
            old(self).eaten_by(*old(snake)) ==> {
                &&& final(snake).body() == grown(old(snake).body())
                &&& drawn_below(final(self).spot().0, screen_size.0)
                &&& drawn_below(final(self).spot().1, screen_size.1)
            },
            !old(self).eaten_by(*old(snake)) ==> {
                &&& final(snake).body() == old(snake).body()
                &&& final(self).spot() == clamped(old(self).spot(), *screen_size)
            },
    {
        let head = *snake.get_head();
        let spot: (u16, u16) = if head.0 == self.0 && head.1 == self.1 {
            Self::shuffle(screen_size)
        } else {
            (self.0, self.1)
        };
        self.resolve(screen_size, snake, spot);
    }

    /// Resolves consumption with `relocation` as the cell the target moves to
    /// if it is eaten; the target is then clamped into the grid.
    pub fn resolve(&mut self, screen_size: &(u16, u16), snake: &mut Snake, relocation: (u16, u16))
        requires
            old(snake).wf(),
        ensures
            final(snake).wf(),
            final(snake).heading() == old(snake).heading(),
            old(self).eaten_by(*old(snake)) ==> {
                &&& final(snake).body() == grown(old(snake).body())
                &&& final(self).spot() == clamped(relocation, *screen_size)
            },
            !old(self).eaten_by(*old(snake)) ==> {
                &&& final(snake).body() == old(snake).body()
                &&& final(self).spot() == clamped(old(self).spot(), *screen_size)
            },
    {
        let head = *snake.get_head();
        if head.0 == self.0 && head.1 == self.1 {
            snake.grow();
            self.0 = relocation.0;
            self.1 = relocation.1;
        }
        if self.0 > screen_size.0 {
            self.0 = screen_size.0;
        }
        if self.1 > screen_size.1 {
            self.1 = screen_size.1;
        }
    }

    /// A random cell of the grid, one independent draw per axis.
    fn shuffle(screen_size: &(u16, u16)) -> (r: (u16, u16))
        ensures
            drawn_below(r.0, screen_size.0),
            drawn_below(r.1, screen_size.1),
    {
        let x: u16 = if screen_size.0 == 0 {
            0
        } else {
            random_below(screen_size.0)
        };
        let y: u16 = if screen_size.1 == 0 {
            0
        } else {
            random_below(screen_size.1)
        };
        (x, y)
    }
}

} // verus!
