//! The snake: a heading, a length to grow into, and the cells it covers.

use crate::draw::{Block, Paint, Shape};
use std::collections::VecDeque;
use vstd::prelude::*;

verus! {

#[derive(PartialEq, Eq, Structural, Copy, Clone, Debug)]
pub enum Direction {
    Up,
    Down,
    Left,
    Right,
}

impl Direction {
    /// The reverse heading.
    pub open spec fn spec_opposite(&self) -> Direction {
        match self {
            Direction::Up => Direction::Down,
            Direction::Down => Direction::Up,
            Direction::Left => Direction::Right,
            Direction::Right => Direction::Left,
        }
    }

    #[verifier::when_used_as_spec(spec_opposite)]
    pub fn opposite(&self) -> (r: Direction)
        ensures
            r == self.spec_opposite(),
            r != *self,
            r.spec_opposite() == *self,
    {
        match self {
            Direction::Up => Direction::Down,
            Direction::Down => Direction::Up,
            Direction::Left => Direction::Right,
            Direction::Right => Direction::Left,
        }
    }
}

/// The cell one step from `cell` in direction `d`. Up is towards smaller `y`.
/// It is meaningful where `can_step` holds.
pub open spec fn neighbour(cell: Block, d: Direction) -> Block {
    match d {
        Direction::Up => Block { x: cell.x, y: (cell.y - 1) as u32 },
        Direction::Down => Block { x: cell.x, y: (cell.y + 1) as u32 },
        Direction::Left => Block { x: (cell.x - 1) as u32, y: cell.y },
        Direction::Right => Block { x: (cell.x + 1) as u32, y: cell.y },
    }
}

/// Whether the step from `cell` in direction `d` stays within the coordinate type.
pub open spec fn can_step(cell: Block, d: Direction) -> bool {
    match d {
        Direction::Up => cell.y > 0,
        Direction::Down => cell.y < u32::MAX,
        Direction::Left => cell.x > 0,
        Direction::Right => cell.x < u32::MAX,
    }
}

/// What a snake is: its heading, the length it grows towards, and its cells
/// from head to tail.
pub struct SnakeView {
    pub direction: Direction,
    pub target_len: nat,
    pub body: Seq<Block>,
}

impl SnakeView {
    /// A snake always has a head, and never more cells than it is meant to
    /// have (a snake meant to have none still keeps its head).
    pub open spec fn wf(self) -> bool {
        &&& 1 <= self.body.len()
        &&& self.body.len() <= self.target_len || self.body.len() == 1
    }

    /// A new snake: one cell, and a length to grow into.
    pub open spec fn start(head: Block, target_len: nat, direction: Direction) -> SnakeView {
        SnakeView { direction, target_len, body: seq![head] }
    }

    pub open spec fn head(self) -> Block {
        self.body[0]
    }

    /// The heading of the next step: the override if there is one.
    pub open spec fn heading(self, dir: Option<Direction>) -> Direction {
        match dir {
            Some(d) => d,
            None => self.direction,
        }
    }

    pub open spec fn can_advance(self, dir: Option<Direction>) -> bool {
        can_step(self.head(), self.heading(dir))
    }

    pub open spec fn next_head(self, dir: Option<Direction>) -> Block {
        neighbour(self.head(), self.heading(dir))
    }

    /// One move: the heading becomes the override if given, the next head is
    /// put in front, and the last cell leaves if the body has outgrown the
    /// target length.
    pub open spec fn move_fwd(self, dir: Option<Direction>) -> SnakeView {
        let longer = seq![self.next_head(dir)] + self.body;
        SnakeView {
            direction: self.heading(dir),
            target_len: self.target_len,
            body: if longer.len() > self.target_len {
                longer.drop_last()
            } else {
                longer
            },
        }
    }

    /// One move after another, each with its own override, first to last.
    pub open spec fn steps(self, dirs: Seq<Option<Direction>>) -> SnakeView
        decreases dirs.len(),
    {
        if dirs.len() == 0 {
            self
        } else {
            self.steps(dirs.drop_last()).move_fwd(dirs.last())
        }
    }

    pub open spec fn grow(self) -> SnakeView {
        SnakeView { target_len: self.target_len + 1, ..self }
    }

    pub open spec fn set_direction(self, dir: Direction) -> SnakeView {
        SnakeView { direction: dir, ..self }
    }

    /// Whether `block` is a cell of the body other than where the head is.
    pub open spec fn collides_tail(self, block: Block) -> bool {
        exists|i: int|
            0 <= i < self.body.len() && #[trigger] self.body[i] != self.head() && self.body[i]
                == block
    }

    /// The squares to paint, head first.
    pub open spec fn shapes(self) -> Seq<Shape> {
        Seq::new(self.body.len(), |i: int| self.body[i].shape(Paint::Snake))
    }
}

/// Each move adds one cell until the body has its target length, and none
/// after that: `dirs.len()` moves take a body of `n` cells to
/// `min(n + dirs.len(), max(target_len, 1))` cells, whatever the headings.
pub proof fn lemma_steps_length(v: SnakeView, dirs: Seq<Option<Direction>>)
    requires
        v.wf(),
    ensures
        v.steps(dirs).wf(),
        v.steps(dirs).target_len == v.target_len,
        v.steps(dirs).body.len() == if v.body.len() + dirs.len() <= v.target_len {
            v.body.len() + dirs.len()
        } else if v.target_len >= 1 {
            v.target_len
        } else {
            1
        },
    decreases dirs.len(),
{
    if dirs.len() > 0 {
        lemma_steps_length(v, dirs.drop_last());
    }
}

/// A snake that starts as a single cell, meant to reach at least one cell, has
/// `min(n + 1, target_len)` cells after `n` moves in which its target length
/// does not change: it gains a cell per move until it reaches the target
/// length and keeps that length from then on.
pub proof fn law_length_after_moves(v: SnakeView, dirs: Seq<Option<Direction>>)
    requires
        v.body.len() == 1,
        v.target_len >= 1,
    ensures
        v.steps(dirs).body.len() == if dirs.len() + 1 <= v.target_len {
            dirs.len() + 1
        } else {
            v.target_len
        },
{
    lemma_steps_length(v, dirs);
}

/// After `grow`, as many moves as the body is short of the new target length
/// bring it to exactly that length, and at no point on the way is it longer.
pub proof fn law_growth_catches_up(v: SnakeView, dirs: Seq<Option<Direction>>)
    requires
        v.wf(),
        dirs.len() == v.grow().target_len - v.body.len(),
    ensures
        v.grow().steps(dirs).body.len() == v.grow().target_len,
        forall|k: int|
            0 <= k <= dirs.len() ==> (#[trigger] v.grow().steps(dirs.take(k))).body.len()
                <= v.grow().target_len,
{
    lemma_steps_length(v.grow(), dirs);
    assert forall|k: int| 0 <= k <= dirs.len() implies (#[trigger] v.grow().steps(
        dirs.take(k),
    )).body.len() <= v.grow().target_len by {
        lemma_steps_length(v.grow(), dirs.take(k));
    }
}

/// The head never collides with the tail: no cell of the body is both the
/// head's cell and another cell than the head's.
pub proof fn law_head_never_collides(v: SnakeView)
    ensures
        !v.collides_tail(v.head()),
{
}

/// The next head depends on nothing but the head's cell and the heading of
/// the step: two snakes that agree on both have the same next head, so asking
/// twice of an unchanged snake gives the same cell.
pub proof fn law_next_head_is_pure(a: SnakeView, b: SnakeView, dir: Option<Direction>)
    requires
        a.head() == b.head(),
        a.heading(dir) == b.heading(dir),
    ensures
        a.next_head(dir) == b.next_head(dir),
{
}


pub struct Snake {
    direction: Direction,
    len: u32,
    body: VecDeque<Block>,
}

impl View for Snake {
    type V = SnakeView;

    closed spec fn view(&self) -> SnakeView {
        SnakeView { direction: self.direction, target_len: self.len as nat, body: self.body@ }
    }
}

impl Snake {
    /// A snake of one cell at `(head_x, head_y)` that grows to `len` cells as it moves.
    pub fn new(head_x: u32, head_y: u32, len: u32, direction: Direction) -> (s: Snake)
        ensures
            s@ == SnakeView::start(Block { x: head_x, y: head_y }, len as nat, direction),
            s@.wf(),
    {
        let mut body: VecDeque<Block> = VecDeque::new();
        body.push_back(Block::new(head_x, head_y));
        let s = Snake { direction, len, body };
        assert(s@.body =~= seq![Block { x: head_x, y: head_y }]);
        s
    }

    /// The squares to paint for the body, head first.
    pub fn draw(&self) -> (shapes: Vec<Shape>)
        ensures
            shapes@ == self@.shapes(),
    {
        let mut shapes: Vec<Shape> = Vec::new();
        let n: usize = self.body.len();
        let mut i: usize = 0;
        while i < n
            invariant
                n == self.body@.len(),
                i <= n,
                shapes@.len() == i,
                forall|j: int| 0 <= j < i ==> shapes@[j] == self.body@[j].shape(Paint::Snake),
            decreases n - i,
        {
            shapes.push(self.body[i].draw(Paint::Snake));
            i += 1;
        }
        assert(shapes@ =~= self@.shapes());
        shapes
    }

    /// The cells of the body, head first.
    pub fn cells(&self) -> (cells: Vec<Block>)
        ensures
            cells@ == self@.body,
    {
        let mut cells: Vec<Block> = Vec::new();
        let n: usize = self.body.len();
        let mut i: usize = 0;
        while i < n
            invariant
                n == self.body@.len(),
                i <= n,
                cells@.len() == i,
                forall|j: int| 0 <= j < i ==> cells@[j] == self.body@[j],
            decreases n - i,
        {
            cells.push(self.body[i]);
            i += 1;
        }
        assert(cells@ =~= self@.body);
        cells
    }

    /// The length the body grows towards.
    pub fn target_len(&self) -> (len: u32)
        ensures
            len == self@.target_len,
    {
        self.len
    }

    pub fn head(&self) -> (head: &Block)
        requires
            self@.wf(),
        ensures
            *head == self@.head(),
    {
        &self.body[0]
    }

    pub fn move_fwd(&mut self, dir: Option<Direction>)
        requires
            old(self)@.wf(),
            old(self)@.can_advance(dir),
        ensures
            final(self)@ == old(self)@.move_fwd(dir),
            final(self)@.wf(),
    {
        match dir {
            Some(d) => {
                self.direction = d;
            },
            None => (),
        }
        let next = self.next_head(None);
        self.body.push_front(next);
        if self.body.len() > self.len as usize {
            let _ = self.body.pop_back();
        }
        assert(self@.body =~= old(self)@.move_fwd(dir).body);
    }

    pub fn next_head(&self, dir: Option<Direction>) -> (next: Block)
        requires
            self@.wf(),
            self@.can_advance(dir),
        ensures
            next == self@.next_head(dir),
    {
        let mut direction = self.direction;
        if let Some(d) = dir {
            direction = d;
        }
        let head = self.head();
        match direction {
            Direction::Up => Block { x: head.x, y: head.y - 1 },
            Direction::Down => Block { x: head.x, y: head.y + 1 },
            Direction::Left => Block { x: head.x - 1, y: head.y },
            Direction::Right => Block { x: head.x + 1, y: head.y },
        }
    }

    pub fn direction(&self) -> (d: Direction)
        ensures
            d == self@.direction,
    {
        self.direction
    }

    pub fn set_direction(&mut self, dir: Direction)
        ensures
            final(self)@ == old(self)@.set_direction(dir),
            old(self)@.wf() ==> final(self)@.wf(),
    {
        self.direction = dir;
    }

    pub fn grow(&mut self)
        requires
            old(self)@.target_len < u32::MAX,
        ensures
            final(self)@ == old(self)@.grow(),
            old(self)@.wf() ==> final(self)@.wf(),
    {
        self.len += 1;
    }

    pub fn check_collide_tail(&self, block: &Block) -> (hit: bool)
        requires
            self@.wf(),
        ensures
            hit == self@.collides_tail(*block),
            *block == self@.head() ==> !hit,
    {
        let head: Block = *self.head();
        let n: usize = self.body.len();
        let mut i: usize = 0;
        while i < n
            invariant
                n == self.body@.len(),
                i <= n,
                head == self@.head(),
                forall|j: int| 0 <= j < i ==> !(self.body@[j] != head && self.body@[j] == *block),
            decreases n - i,
        {
            let bl: Block = self.body[i];
            if bl != head && bl == *block {
                return true;
            }
            i += 1;
        }
        false
    }
}

} // verus!
