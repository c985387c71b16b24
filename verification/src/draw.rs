//! Grid primitives: cells, rectangles, and the shapes a front end paints.

use vstd::prelude::*;

verus! {

/// Edge length of one grid cell, in pixels.
pub const BLOCK_SIZE: u32 = 40;

/// The four fixed paints of a scene. A front end gives each its colour.
#[derive(PartialEq, Eq, Structural, Copy, Clone, Debug)]
pub enum Paint {
    GameOver,
    Board,
    Food,
    Snake,
}

/// One filled rectangle in pixel space.
#[derive(PartialEq, Eq, Structural, Copy, Clone, Debug)]
pub struct Shape {
    pub paint: Paint,
    pub x: u64,
    pub y: u64,
    pub width: u64,
    pub height: u64,
}

/// The pixel position of grid position `(x, y)`.
pub open spec fn pixel_coord(x: u32, y: u32) -> (u64, u64) {
    ((x * BLOCK_SIZE) as u64, (y * BLOCK_SIZE) as u64)
}

/// Scales a grid position to pixels.
pub fn to_coord(x: u32, y: u32) -> (r: (u64, u64))
    ensures
        r == pixel_coord(x, y),
        r.0 == x * BLOCK_SIZE,
        r.1 == y * BLOCK_SIZE,
{
    let gui_x: u64 = (x as u64) * (BLOCK_SIZE as u64);
    let gui_y: u64 = (y as u64) * (BLOCK_SIZE as u64);
    (gui_x, gui_y)
}

/// A cell of the board, in grid units.
#[derive(PartialEq, Eq, Structural, Copy, Clone, Debug)]
pub struct Block {
    pub x: u32,
    pub y: u32,
}

impl Block {
    /// The square a cell covers on screen, in the given paint.
    pub open spec fn shape(self, paint: Paint) -> Shape {
        Shape {
            paint,
            x: pixel_coord(self.x, self.y).0,
            y: pixel_coord(self.x, self.y).1,
            width: BLOCK_SIZE as u64,
            height: BLOCK_SIZE as u64,
        }
    }

    pub fn new(x: u32, y: u32) -> (b: Block)
        ensures
            b == (Block { x, y }),
    {
        Block { x, y }
    }

    pub fn to_coords(&self) -> (r: (u64, u64))
        ensures
            r == pixel_coord(self.x, self.y),
    {
        to_coord(self.x, self.y)
    }

    /// The shape to paint for this cell: one block-sized square at its pixel position.
    pub fn draw(&self, paint: Paint) -> (s: Shape)
        ensures
            s == self.shape(paint),
    {
        let (gui_x, gui_y) = self.to_coords();
        Shape { paint, x: gui_x, y: gui_y, width: BLOCK_SIZE as u64, height: BLOCK_SIZE as u64 }
    }
}

/// An axis-aligned rectangle in grid units.
#[derive(PartialEq, Eq, Structural, Copy, Clone, Debug)]
pub struct Rectangle {
    pub x: u32,
    pub y: u32,
    pub width: u32,
    pub height: u32,
}

impl Rectangle {
    /// A cell lies in the rectangle when both coordinates are within
    /// `[x, x + width - 1]` and `[y, y + height - 1]`, ends included. A
    /// rectangle of width or height zero therefore holds no cell.
    pub open spec fn holds(self, block: Block) -> bool {
        &&& self.x <= block.x <= self.x + self.width - 1
        &&& self.y <= block.y <= self.y + self.height - 1
    }

    /// The area a rectangle covers on screen, in the given paint.
    pub open spec fn shape(self, paint: Paint) -> Shape {
        Shape {
            paint,
            x: pixel_coord(self.x, self.y).0,
            y: pixel_coord(self.x, self.y).1,
            width: pixel_coord(self.width, self.height).0,
            height: pixel_coord(self.width, self.height).1,
        }
    }

    pub fn new(x: u32, y: u32, width: u32, height: u32) -> (r: Rectangle)
        ensures
            r == (Rectangle { x, y, width, height }),
    {
        Rectangle { x, y, width, height }
    }

    /// The shape to paint for this rectangle: position and size both scaled to pixels.
    pub fn draw(&self, paint: Paint) -> (s: Shape)
        ensures
            s == self.shape(paint),
    {
        let (gui_x, gui_y) = to_coord(self.x, self.y);
        let (gui_w, gui_h) = to_coord(self.width, self.height);
        Shape { paint, x: gui_x, y: gui_y, width: gui_w, height: gui_h }
    }

    pub fn contains(&self, block: &Block) -> (inside: bool)
        ensures
            inside == self.holds(*block),
    {
        let right: u64 = self.x as u64 + self.width as u64;
        let bottom: u64 = self.y as u64 + self.height as u64;
        if block.x < self.x || block.x as u64 >= right || block.y < self.y || block.y as u64
            >= bottom {
            false
        } else {
            true
        }
    }
}

} // verus!
