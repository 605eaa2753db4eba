//! The snake: an ordered body, head first, and a committed heading.

use crate::utils::{is_opposite, Direction, Position};
use vstd::prelude::*;

verus! {

/// One step of a coordinate on the 16-bit grid, wrapping at the type's ends.
pub open spec fn step_coord(v: u16, delta: int) -> u16 {
    if delta < 0 {
        if v == 0 { u16::MAX } else { (v - 1) as u16 }
    } else if delta > 0 {
        if v == u16::MAX { 0 } else { (v + 1) as u16 }
    } else {
        v
    }
}

/// Brings a coordinate that left the interior `2..size` back in from the
/// opposite interior edge.
pub open spec fn wrap_coord(v: u16, size: u16) -> u16 {
    if v <= 1 {
        if size == 0 { 0 } else { (size - 1) as u16 }
    } else if v >= size {
        2
    } else {
        v
    }
}

/// The cell that a head at `head` moves to when heading `dir` on a board of
/// `width` by `height` cells.
pub open spec fn next_head_of(head: Position, dir: Direction, width: u16, height: u16) -> Position {
    let dx: int = match dir {
        Direction::Left => -1,
        Direction::Right => 1,
        _ => 0,
    };
    let dy: int = match dir {
        Direction::Up => -1,
        Direction::Down => 1,
        _ => 0,
    };
    Position {
        x: wrap_coord(step_coord(head.x, dx), width),
        y: wrap_coord(step_coord(head.y, dy), height),
    }
}

/// The body after the head moves to `new_head`: the tail cell is dropped
/// unless the snake grows.
pub open spec fn moved_body(body: Seq<Position>, new_head: Position, grow: bool) -> Seq<Position> {
    if grow {
        seq![new_head] + body
    } else {
        seq![new_head] + body.drop_last()
    }
}

/// The heading after asking to turn towards `requested`: a reversal is ignored.
pub open spec fn heading_after(current: Direction, requested: Direction) -> Direction {
    if is_opposite(current, requested) {
        current
    } else {
        requested
    }
}

/// The body a new snake starts with: three cells in a row, head at the
/// board's centre (at least column 3 and row 2), the rest to its right.
pub open spec fn spawn_body(width: u16, height: u16) -> Seq<Position> {
    let cx: int = if width / 2 >= 3 { (width / 2) as int } else { 3 };
    let cy: int = if height / 2 >= 2 { (height / 2) as int } else { 2 };
    seq![
        Position { x: cx as u16, y: cy as u16 },
        Position { x: (cx + 1) as u16, y: cy as u16 },
        Position { x: (cx + 2) as u16, y: cy as u16 },
    ]
}

pub struct Snake {
    pub body: Vec<Position>,
    pub direction: Direction,
}

impl Snake {
    /// The snake has a head.
    pub open spec fn has_head(&self) -> bool {
        self.body@.len() > 0
    }

    pub open spec fn head(&self) -> Position {
        self.body@[0]
    }

    /// Where the head goes on the next step.
    pub open spec fn next_head_spec(&self, width: u16, height: u16) -> Position {
        next_head_of(self.head(), self.direction, width, height)
    }

    /// A three-segment snake heading left, centred on the board.
    pub fn new(width: u16, height: u16) -> (r: Snake)
        ensures
            r.direction == Direction::Left,
            r.body@ == spawn_body(width, height),
    {
        let half_w: u16 = width / 2;
        let half_h: u16 = height / 2;
        let center_x: u16 = if half_w >= 3 { half_w } else { 3 };
        let center_y: u16 = if half_h >= 2 { half_h } else { 2 };
        Snake {
            body: vec![
                Position { x: center_x, y: center_y },
                Position { x: center_x + 1, y: center_y },
                Position { x: center_x + 2, y: center_y },
            ],
            direction: Direction::Left,
        }
    }

    /// The head's next cell for the current heading, wrapping from one
    /// interior edge to the opposite one. Nothing is changed.
    pub fn next_head(&self, width: u16, height: u16) -> (r: Position)
        requires
            self.has_head(),
        ensures
            r == self.next_head_spec(width, height),
    {
        let head = self.body[0];
        let mut x: u16 = head.x;
        let mut y: u16 = head.y;
        match self.direction {
            Direction::Up => y = y.wrapping_sub(1),
            Direction::Down => y = y.wrapping_add(1),
            Direction::Left => x = x.wrapping_sub(1),
            Direction::Right => x = x.wrapping_add(1),
        }
        if x <= 1 {
            x = width.saturating_sub(1);
        } else if x >= width {
            x = 2;
        }
        if y <= 1 {
            y = height.saturating_sub(1);
        } else if y >= height {
            y = 2;
        }
        Position { x, y }
    }

    /// Puts the next head in front; drops the tail cell unless `grow`.
    pub fn move_forward(&mut self, grow: bool, width: u16, height: u16)
        requires
            old(self).has_head(),
        ensures
            final(self).direction == old(self).direction,
            final(self).body@ == moved_body(
                old(self).body@,
                old(self).next_head_spec(width, height),
                grow,
            ),
            final(self).body@.len() == old(self).body@.len() + if grow { 1int } else { 0int },
    {
        let new_head = self.next_head(width, height);
        self.body.insert(0, new_head);
        if !grow {
            self.body.pop();
        }
        proof {
            let nh = old(self).next_head_spec(width, height);
            if grow {
                assert(self.body@ =~= seq![nh] + old(self).body@);
            } else {
                assert(self.body@ =~= seq![nh] + old(self).body@.drop_last());
            }
        }
    }

    /// Turns towards `new_direction` unless that is the exact reverse of the
    /// current heading, in which case nothing changes.
    pub fn change_direction(&mut self, new_direction: Direction)
        ensures
            final(self).direction == heading_after(old(self).direction, new_direction),
            final(self).body == old(self).body,
    {
        let reverse = match (self.direction, new_direction) {
            (Direction::Up, Direction::Down) => true,
            (Direction::Down, Direction::Up) => true,
            (Direction::Left, Direction::Right) => true,
            (Direction::Right, Direction::Left) => true,
            _ => false,
        };
        if !reverse {
            self.direction = new_direction;
        }
    }

    pub fn head_position(&self) -> (r: Position)
        requires
            self.has_head(),
        ensures
            r == self.head(),
    {
        self.body[0]
    }

    /// Whether the head stands on another segment of the body.
    pub fn hits_itself(&self) -> (r: bool)
        requires
            self.has_head(),
        ensures
            r == self.body@.subrange(1, self.body@.len() as int).contains(self.head()),
    {
        let head = self.body[0];
        let mut i: usize = 1;
        while i < self.body.len()
            invariant
                1 <= i <= self.body@.len(),
                head == self.head(),
                forall|j: int| 1 <= j < i ==> self.body@[j] != head,
            decreases self.body@.len() - i,
        {
            if self.body[i] == head {
                assert(self.body@.subrange(1, self.body@.len() as int)[i - 1] == head);
                return true;
            }
            i += 1;
        }
        proof {
            let tail = self.body@.subrange(1, self.body@.len() as int);
            assert forall|k: int| 0 <= k < tail.len() implies tail[k] != head by {
                assert(tail[k] == self.body@[k + 1]);
            }
        }
        false
    }

    /// Whether any segment of the body stands on `pos`.
    pub fn overlaps_with(&self, pos: Position) -> (r: bool)
        ensures
            r == self.body@.contains(pos),
    {
        let mut i: usize = 0;
        while i < self.body.len()
            invariant
                0 <= i <= self.body@.len(),
                forall|j: int| 0 <= j < i ==> self.body@[j] != pos,
            decreases self.body@.len() - i,
        {
            if self.body[i] == pos {
                return true;
            }
            i += 1;
        }
        false
    }
}

/// A turn is taken exactly when the requested direction is not the
/// reverse of the current heading; a reversal leaves the heading as it was.
pub proof fn heading_changes_unless_reversed(current: Direction, requested: Direction)
    ensures
        (heading_after(current, requested) == requested) <==> !is_opposite(current, requested),
        is_opposite(current, requested) ==> heading_after(current, requested) == current,
{
}

} // verus!
