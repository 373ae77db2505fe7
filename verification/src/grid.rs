use vstd::prelude::*;

verus! {

/// A cell of the board. The origin is the bottom-left corner: `x` grows to the
/// right and `y` grows upwards.
#[derive(Clone, Copy, Debug, PartialEq, Eq, Structural)]
pub struct Point {
    pub x: u8,
    pub y: u8,
}

/// The four moves a snake can make.
#[derive(Clone, Copy, Debug, PartialEq, Eq, Structural)]
pub enum Direction {
    Left,
    Right,
    Down,
    Up,
}

impl Direction {
    /// The word for this direction in an answer to the engine.
    pub open spec fn wire_name(self) -> Seq<char> {
        match self {
            Direction::Left => "left"@,
            Direction::Right => "right"@,
            Direction::Down => "down"@,
            Direction::Up => "up"@,
        }
    }

    pub fn name(&self) -> (s: &'static str)
        ensures
            s@ == self.wire_name(),
    {
        match self {
            Direction::Left => "left",
            Direction::Right => "right",
            Direction::Down => "down",
            Direction::Up => "up",
        }
    }
}

/// The direction of the single step that leads from `from` to `to`, if one
/// step does: right raises `x`, up raises `y`.
pub open spec fn step_between(from: Point, to: Point) -> Option<Direction> {
    if to.y == from.y && to.x == from.x + 1 {
        Some(Direction::Right)
    } else if to.y == from.y && to.x + 1 == from.x {
        Some(Direction::Left)
    } else if to.x == from.x && to.y == from.y + 1 {
        Some(Direction::Up)
    } else if to.x == from.x && to.y + 1 == from.y {
        Some(Direction::Down)
    } else {
        None
    }
}

/// The direction of the single step that leads from `from` to `to`, if one
/// step does.
pub fn direction_between(from: Point, to: Point) -> (d: Option<Direction>)
    ensures
        d == step_between(from, to),
{
    if to.y == from.y && to.x > from.x && to.x - from.x == 1 {
        Some(Direction::Right)
    } else if to.y == from.y && from.x > to.x && from.x - to.x == 1 {
        Some(Direction::Left)
    } else if to.x == from.x && to.y > from.y && to.y - from.y == 1 {
        Some(Direction::Up)
    } else if to.x == from.x && from.y > to.y && from.y - to.y == 1 {
        Some(Direction::Down)
    } else {
        None
    }
}

/// A point lies on a `width` by `height` board when both coordinates are below
/// the respective dimension.
pub open spec fn within(p: Point, width: nat, height: nat) -> bool {
    p.x < width && p.y < height
}

/// Every point of the sequence lies on the board.
pub open spec fn all_within(points: Seq<Point>, width: nat, height: nat) -> bool {
    forall|i: int| 0 <= i < points.len() ==> within(#[trigger] points[i], width, height)
}

/// The taxicab distance between two points.
pub open spec fn distance(a: Point, b: Point) -> nat {
    (if a.x >= b.x { a.x - b.x } else { b.x - a.x }) as nat
        + (if a.y >= b.y { a.y - b.y } else { b.y - a.y }) as nat
}

/// Whether `point` lies on a board of the given dimensions.
pub fn is_within(point: Point, width: usize, height: usize) -> (r: bool)
    ensures
        r == within(point, width as nat, height as nat),
{
    (point.x as usize) < width && (point.y as usize) < height
}

/// The number of single steps between `a` and `b`.
pub fn manhattan(a: Point, b: Point) -> (d: u16)
    ensures
        d == distance(a, b),
{
    let dx: u8 = if a.x >= b.x { a.x - b.x } else { b.x - a.x };
    let dy: u8 = if a.y >= b.y { a.y - b.y } else { b.y - a.y };
    dx as u16 + dy as u16
}

/// Whether every point of `points` lies on a board of the given dimensions.
pub fn points_within(points: &Vec<Point>, width: usize, height: usize) -> (r: bool)
    ensures
        r == all_within(points@, width as nat, height as nat),
{
    let mut i: usize = 0;
    while i < points.len()
        invariant
            i <= points.len(),
            forall|j: int| 0 <= j < i ==> within(#[trigger] points@[j], width as nat, height as nat),
        decreases points.len() - i,
    {
        if !is_within(points[i], width, height) {
            return false;
        }
        i += 1;
    }
    true
}

} // verus!
