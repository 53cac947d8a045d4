use vstd::prelude::*;

verus! {

/// A color as red, green and blue intensities.
#[derive(Clone, Copy, Debug, PartialEq, Eq, Structural)]
pub struct Color {
    pub r: u8,
    pub g: u8,
    pub b: u8,
}

/// A glyph to paint in the foreground at a cell.
#[derive(Clone, Copy, Debug, PartialEq, Eq, Structural)]
pub struct Glyph {
    pub x: i32,
    pub y: i32,
    pub ch: char,
    pub color: Color,
}

/// Something that stands on the map: a position, a glyph and its color.
#[derive(Clone, Copy, Debug, PartialEq, Eq, Structural)]
pub struct Object {
    pub x: i32,
    pub y: i32,
    pub glyph: char,
    pub color: Color,
}

impl Object {
    /// The object shifted by `(dx, dy)`, with glyph and color kept.
    pub open spec fn shifted(self, dx: int, dy: int) -> Object {
        Object { x: (self.x + dx) as i32, y: (self.y + dy) as i32, ..self }
    }

    pub fn new(x: i32, y: i32, glyph: char, color: Color) -> (r: Object)
        ensures
            r == (Object { x, y, glyph, color }),
    {
        Object { x, y, glyph, color }
    }

    /// A new object at the position shifted by `(dx, dy)`; `self` is left as it is.
    pub fn move_by(&self, dx: i32, dy: i32) -> (r: Object)
        requires
            i32::MIN <= self.x + dx <= i32::MAX,
            i32::MIN <= self.y + dy <= i32::MAX,
        ensures
            r == self.shifted(dx as int, dy as int),
            r.x == self.x + dx,
            r.y == self.y + dy,
    {
        let new_x = self.x + dx;
        let new_y = self.y + dy;
        Object { x: new_x, y: new_y, glyph: self.glyph, color: self.color }
    }

    /// The glyph that draws this object: its own character and color at its cell.
    pub fn draw(&self) -> (r: Glyph)
        ensures
            r == (Glyph { x: self.x, y: self.y, ch: self.glyph, color: self.color }),
    {
        Glyph { x: self.x, y: self.y, ch: self.glyph, color: self.color }
    }

    /// The cell to blank so that the object no longer shows.
    pub fn clear(&self) -> (r: (i32, i32))
        ensures
            r == (self.x, self.y),
    {
        (self.x, self.y)
    }
}

} // verus!
