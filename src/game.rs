use crate::apple::{clamped, drawn_below, on_spot, Apple};
use crate::snake::{advanced, collides, grown, turned, Direction, Segment, Snake};
use vstd::prelude::*;

verus! {

/// Milliseconds that must have passed since the last tick before the next one.
pub const TICK_MILLIS: u128 = 100;

/// A tick is due once strictly more than the tick period has passed.
pub fn tick_due(elapsed_millis: u128) -> (r: bool)
    ensures
        r == (elapsed_millis > TICK_MILLIS),
{
    elapsed_millis > TICK_MILLIS
}

/// What a key press asks of the game.
#[derive(Clone, Copy, Debug, PartialEq, Eq, Structural)]
pub enum Command {
    Move(Direction),
    Quit,
    Ignore,
}

/// The command bound to a character key: `w a s d` move, `q` quits.
pub open spec fn command_of(c: char) -> Command {
    if c == 'w' {
        Command::Move(Direction::Up)
    } else if c == 'a' {
        Command::Move(Direction::Left)
    } else if c == 's' {
        Command::Move(Direction::Down)
    } else if c == 'd' {
        Command::Move(Direction::Right)
    } else if c == 'q' {
        Command::Quit
    } else {
        Command::Ignore
    }
}

/// The command bound to the character key `c`.
pub fn command_for_key(c: char) -> (r: Command)
    ensures
        r == command_of(c),
{
    if c == 'w' {
        Command::Move(Direction::Up)
    } else if c == 'a' {
        Command::Move(Direction::Left)
    } else if c == 's' {
        Command::Move(Direction::Down)
    } else if c == 'd' {
        Command::Move(Direction::Right)
    } else if c == 'q' {
        Command::Quit
    } else {
        Command::Ignore
    }
}

/// Dispatches a character key: a movement key requests a new heading, the
/// quit key ends the game (the result is `true`), any other key does nothing.
pub fn on_key(snake: &mut Snake, c: char) -> (quit: bool)
    ensures
        quit == (command_of(c) == Command::Quit),
        final(snake).body() == old(snake).body(),
        final(snake).heading() == match command_of(c) {
            Command::Move(d) => turned(old(snake).heading(), d),
            _ => old(snake).heading(),
        },
{
    match command_for_key(c) {
        Command::Move(d) => {
            snake.change_dir(d);
            false
        },
        Command::Quit => true,
        Command::Ignore => false,
    }
}

/// One simulation step: the snake moves; unless it ran into itself, the
/// target is then resolved against the new head. The result tells whether
/// the snake collided, which ends the game.
pub fn simulate_tick(snake: &mut Snake, apple: &mut Apple, screen_size: &(u16, u16)) -> (collided: bool)
    requires
        old(snake).wf(),
    ensures
        final(snake).wf(),
        final(snake).heading() == old(snake).heading(),
        collided == collides(advanced(old(snake).body(), *screen_size, old(snake).heading())),
        collided ==> {
            &&& final(snake).body() == advanced(old(snake).body(), *screen_size, old(snake).heading())
            &&& final(apple).spot() == old(apple).spot()
        },
        !collided && on_spot(
            advanced(old(snake).body(), *screen_size, old(snake).heading())[0],
            old(apple).spot(),
        ) ==> {
            &&& final(snake).body() == grown(advanced(old(snake).body(), *screen_size, old(snake).heading()))
            &&& drawn_below(final(apple).spot().0, screen_size.0)
            &&& drawn_below(final(apple).spot().1, screen_size.1)
        },
        !collided && !on_spot(
            advanced(old(snake).body(), *screen_size, old(snake).heading())[0],
            old(apple).spot(),
        ) ==> {
            &&& final(snake).body() == advanced(old(snake).body(), *screen_size, old(snake).heading())
            &&& final(apple).spot() == clamped(old(apple).spot(), *screen_size)
        },
{
    if snake.tick(screen_size) {
        return true;
    }
    apple.tick(screen_size, snake);
    false
}

/// How a cell of a frame is drawn.
#[derive(Clone, Copy, Debug, PartialEq, Eq, Structural)]
pub enum Glyph {
    Target,
    Head,
    Body,
}

/// One drawn cell of a frame: column, row and glyph.
#[derive(Clone, Copy, Debug, PartialEq, Eq, Structural)]
pub struct Cell {
    pub x: u16,
    pub y: u16,
    pub glyph: Glyph,
}

/// The cell that draws segment `s` with glyph `g`.
pub open spec fn cell_of(s: Segment, g: Glyph) -> Cell {
    Cell { x: s.0, y: s.1, glyph: g }
}

/// The cells of a frame in drawing order: the target, then the body segments
/// from the one behind the head to the tail, then the head on top.
pub open spec fn frame_cells(spot: (u16, u16), segs: Seq<Segment>) -> Seq<Cell> {
    seq![Cell { x: spot.0, y: spot.1, glyph: Glyph::Target }]
        + segs.subrange(1, segs.len() as int).map_values(|s: Segment| cell_of(s, Glyph::Body))
        + seq![cell_of(segs[0], Glyph::Head)]
}

/// The cells to draw for one frame, in order.
pub fn frame(apple: &Apple, snake: &Snake) -> (r: Vec<Cell>)
    requires
        snake.wf(),
    ensures
        r@ == frame_cells(apple.spot(), snake.body()),
{
    let segs = snake.segments();
    let spot = apple.position();
    let mut r: Vec<Cell> = Vec::new();
    r.push(Cell { x: spot.0, y: spot.1, glyph: Glyph::Target });
    let mut i: usize = 1;
    while i < segs.len()
        invariant
            1 <= i <= segs@.len(),
            segs@ == snake.body(),
            r@ == seq![Cell { x: spot.0, y: spot.1, glyph: Glyph::Target }]
                + segs@.subrange(1, i as int).map_values(|s: Segment| cell_of(s, Glyph::Body)),
        decreases segs@.len() - i,
    {
        let s = segs[i];
        r.push(Cell { x: s.0, y: s.1, glyph: Glyph::Body });
        proof {
            assert(segs@.subrange(1, i + 1) =~= segs@.subrange(1, i as int).push(s));
        }
        i = i + 1;
    }
    let head = segs[0];
    r.push(Cell { x: head.0, y: head.1, glyph: Glyph::Head });
    r
}

/// The player's answer to the play-again prompt.
#[derive(Clone, Copy, Debug, PartialEq, Eq, Structural)]
pub enum Reply {
    Again,
    Quit,
    Unclear,
}

/// A line starting with `y` asks for another game, one starting with `n`
/// ends the session; anything else asks again.
pub open spec fn reply_of(line: Seq<char>) -> Reply {
    if line.len() > 0 && line[0] == 'y' {
        Reply::Again
    } else if line.len() > 0 && line[0] == 'n' {
        Reply::Quit
    } else {
        Reply::Unclear
    }
}

/// Reads the player's answer to the play-again prompt.
pub fn reply_to(line: &str) -> (r: Reply)
    ensures
        r == reply_of(line@),
{
    if line.unicode_len() == 0 {
        return Reply::Unclear;
    }
    let c = line.get_char(0);
    if c == 'y' {
        Reply::Again
    } else if c == 'n' {
        Reply::Quit
    } else {
        Reply::Unclear
    }
}

/// Where a prompt of `len` cells starts: centred across, three rows above
/// the middle.
pub fn prompt_origin(screen_size: &(u16, u16), len: u16) -> (r: (u16, u16))
    requires
        len <= screen_size.0,
        screen_size.1 / 2 >= 3,
    ensures
        r == (((screen_size.0 - len) / 2) as u16, (screen_size.1 / 2 - 3) as u16),
{
    ((screen_size.0 - len) / 2, screen_size.1 / 2 - 3)
}

} // verus!
