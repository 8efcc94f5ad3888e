use vstd::prelude::*;
use std::collections::VecDeque;
use crate::direction::Direction;

verus! {

/// A cell of the grid: `x` is the column, `y` the row, both counted from 0.
#[derive(Clone, Copy, Debug, PartialEq, Eq, Structural)]
pub struct Point {
    pub x: u16,
    pub y: u16,
}

/// The head's next cell would lie left of column 0 or above row 0.
#[derive(Clone, Copy, Debug, PartialEq, Eq, Structural)]
pub struct OutOfBounds;

/// The number of segments of a snake; it never grows.
pub const SNAKE_LEN: usize = 3;

/// One coordinate moved by `d`, wrapping at the ends of the `u16` range.
pub open spec fn shift(c: u16, d: int) -> u16 {
    ((c + d) % 0x10000) as u16
}

/// Where a head at `head` facing `dir` goes next, or `None` when that would
/// cross column 0 or row 0. No upper bound is checked.
pub open spec fn next_head(head: Point, dir: Direction) -> Option<Point> {
    let (dx, dy) = dir.delta();
    if (head.x == 0 && dx < 0) || (head.y == 0 && dy < 0) {
        None
    } else {
        Some(Point { x: shift(head.x, dx), y: shift(head.y, dy) })
    }
}

/// The body after one move: the new head in front, the tail segment dropped.
pub open spec fn advance(body: Seq<Point>, head: Point) -> Seq<Point> {
    seq![head] + body.drop_last()
}

/// The body that a snake starts with in a room of the given size: a column at
/// the middle, its head at row `room_h - 4` and its tail at row `room_h - 2`.
pub open spec fn initial_body(room_w: u16, room_h: u16) -> Seq<Point> {
    let x = (room_w / 2) as u16;
    seq![
        Point { x, y: (room_h - 4) as u16 },
        Point { x, y: (room_h - 3) as u16 },
        Point { x, y: (room_h - 2) as u16 },
    ]
}

/// A snake: its segments from head to tail, and the way it is heading.
pub struct Snake {
    body: VecDeque<Point>,
    direction: Direction,
}

impl Snake {
    /// The segments, head first.
    pub closed spec fn segments(&self) -> Seq<Point> {
        self.body@
    }

    /// The way the snake is heading.
    pub closed spec fn heading(&self) -> Direction {
        self.direction
    }

    /// The snake always has its fixed number of segments.
    pub open spec fn wf(&self) -> bool {
        self.segments().len() == SNAKE_LEN
    }

    /// The head segment.
    pub open spec fn head_spec(&self) -> Point {
        self.segments()[0]
    }

    /// A snake placed in a room of `room_w` by `room_h` cells, heading up.
    pub fn new(room_w: u16, room_h: u16) -> (s: Snake)
        requires
            room_h >= 4,
        ensures
            s.wf(),
            s.segments() == initial_body(room_w, room_h),
            s.heading() == Direction::Up,
    {
        let room_mid = room_w / 2;
        let mut body: VecDeque<Point> = VecDeque::new();
        body.push_front(Point { x: room_mid, y: room_h - 2 });
        body.push_front(Point { x: room_mid, y: room_h - 3 });
        body.push_front(Point { x: room_mid, y: room_h - 4 });
        assert(body@ =~= initial_body(room_w, room_h));
        Snake { body, direction: Direction::Up }
    }

    /// Sets the heading to `dir`, whatever it was; the body stays.
    pub fn turn(&mut self, dir: Direction)
        ensures
            final(self).segments() == old(self).segments(),
            final(self).heading() == dir,
    {
        self.direction = dir;
    }

    /// Moves the snake one cell in its heading, or leaves it as it is and
    /// fails when the head would leave the grid across column 0 or row 0.
    pub fn step(&mut self) -> (r: Result<(), OutOfBounds>)
        requires
            old(self).wf(),
        ensures
            final(self).wf(),
            final(self).heading() == old(self).heading(),
            r is Ok <==> next_head(old(self).head_spec(), old(self).heading()) is Some,
            r is Ok ==> final(self).segments() == advance(
                old(self).segments(),
                next_head(old(self).head_spec(), old(self).heading())->0,
            ),
            r is Err ==> final(self).segments() == old(self).segments(),
    {
        match self.get_next_point() {
            Some(point) => {
                let removed = self.body.pop_back();
                self.body.push_front(point);
                proof {
                    assert(removed is Some);
                    assert(self.body@ =~= advance(old(self).segments(), point));
                }
                Ok(())
            },
            None => Err(OutOfBounds),
        }
    }

    /// The segments, head first.
    pub fn body(&self) -> (r: Vec<Point>)
        ensures
            r@ == self.segments(),
    {
        let mut r: Vec<Point> = Vec::new();
        let mut i: usize = 0;
        while i < self.body.len()
            invariant
                i <= self.body@.len(),
                r@ == self.body@.subrange(0, i as int),
            decreases self.body@.len() - i,
        {
            r.push(self.body[i]);
            i = i + 1;
            assert(r@ =~= self.body@.subrange(0, i as int));
        }
        assert(r@ =~= self.body@);
        r
    }

    /// The head segment.
    pub fn head(&self) -> (r: Point)
        requires
            self.wf(),
        ensures
            r == self.head_spec(),
    {
        self.body[0]
    }

    /// The way the snake is heading.
    pub fn direction(&self) -> (r: Direction)
        ensures
            r == self.heading(),
    {
        self.direction
    }

    fn get_next_point(&self) -> (r: Option<Point>)
        requires
            self.wf(),
        ensures
            r == next_head(self.head_spec(), self.heading()),
    {
        let head = self.body[0];
        let (dx, dy) = self.direction.get_delta();
        if head.x == 0 && dx < 0 {
            return None;
        }
        if head.y == 0 && dy < 0 {
            return None;
        }
        Some(Point { x: head.x.wrapping_add_signed(dx), y: head.y.wrapping_add_signed(dy) })
    }
}

/// Turning down and then stepping moves the head one row down, whatever the
/// heading was: the step cannot fail, as the top edge is never crossed going
/// down. On a fresh snake, which faces up, that cell is the one its second
/// segment held, as nothing forbids reversing.
pub proof fn lemma_turn_down_then_step(body: Seq<Point>, room_w: u16, room_h: u16)
    requires
        body.len() == SNAKE_LEN,
        room_h >= 4,
    ensures
        next_head(body[0], Direction::Down) == Some(
            Point { x: body[0].x, y: shift(body[0].y, 1) },
        ),
        body[0].y < u16::MAX ==> shift(body[0].y, 1) == body[0].y + 1,
        next_head(initial_body(room_w, room_h)[0], Direction::Down) == Some(
            initial_body(room_w, room_h)[1],
        ),
{
    assert(shift(body[0].x, 0) == body[0].x);
    let h = initial_body(room_w, room_h)[0];
    assert(shift(h.x, 0) == h.x);
}

} // verus!
