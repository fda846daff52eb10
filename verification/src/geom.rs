//! Points and half-open rectangles on the panel's integer grid.

use vstd::prelude::*;

verus! {

/// A position on the panel.
#[derive(Clone, Copy, Debug, PartialEq, Eq, Structural)]
pub struct Point {
    pub x: i32,
    pub y: i32,
}

/// An axis-aligned rectangle with half-open bounds: it covers every position
/// `(x, y)` with `min.x <= x < max.x` and `min.y <= y < max.y`.
#[derive(Clone, Copy, Debug, PartialEq, Eq, Structural)]
pub struct Rectangle {
    pub min: Point,
    pub max: Point,
}

impl Rectangle {
    /// The rectangle does not have its bounds the wrong way round.
    pub open spec fn wf(&self) -> bool {
        self.min.x <= self.max.x && self.min.y <= self.max.y
    }

    /// The position `(x, y)` lies inside the rectangle.
    pub open spec fn covers(&self, x: int, y: int) -> bool {
        self.min.x <= x < self.max.x && self.min.y <= y < self.max.y
    }

    /// Number of columns covered; zero where the bounds are the wrong way round.
    pub open spec fn spec_width(&self) -> int {
        if self.max.x > self.min.x {
            self.max.x - self.min.x
        } else {
            0
        }
    }

    /// Number of rows covered; zero where the bounds are the wrong way round.
    pub open spec fn spec_height(&self) -> int {
        if self.max.y > self.min.y {
            self.max.y - self.min.y
        } else {
            0
        }
    }

    /// `rect` lies fully inside `self`, bounds included.
    pub open spec fn spec_contains(&self, rect: &Rectangle) -> bool {
        &&& rect.min.x >= self.min.x
        &&& rect.max.x <= self.max.x
        &&& rect.min.y >= self.min.y
        &&& rect.max.y <= self.max.y
    }

    /// The two rectangles span the same rows and overlap or share an edge
    /// along the columns.
    pub open spec fn joins_along_x(&self, rect: &Rectangle) -> bool {
        &&& self.min.y == rect.min.y
        &&& self.max.y == rect.max.y
        &&& self.min.x <= rect.max.x
        &&& rect.min.x <= self.max.x
    }

    /// The two rectangles span the same columns and overlap or share an edge
    /// along the rows.
    pub open spec fn joins_along_y(&self, rect: &Rectangle) -> bool {
        &&& self.min.x == rect.min.x
        &&& self.max.x == rect.max.x
        &&& self.min.y <= rect.max.y
        &&& rect.min.y <= self.max.y
    }

    /// `self` continues `rect`: they have the same span on one axis and
    /// overlap or share an edge along the other, so that the two together
    /// fill a rectangle.
    pub open spec fn spec_extends(&self, rect: &Rectangle) -> bool {
        self.joins_along_x(rect) || self.joins_along_y(rect)
    }

    /// The smallest rectangle that contains both.
    pub open spec fn spec_union(&self, rect: &Rectangle) -> Rectangle {
        Rectangle {
            min: Point {
                x: if rect.min.x < self.min.x { rect.min.x } else { self.min.x },
                y: if rect.min.y < self.min.y { rect.min.y } else { self.min.y },
            },
            max: Point {
                x: if rect.max.x > self.max.x { rect.max.x } else { self.max.x },
                y: if rect.max.y > self.max.y { rect.max.y } else { self.max.y },
            },
        }
    }

    /// The rectangle from `(x0, y0)` up to, but without, `(x1, y1)`.
    pub fn new(x0: i32, y0: i32, x1: i32, y1: i32) -> (r: Rectangle)
        ensures
            r == (Rectangle { min: Point { x: x0, y: y0 }, max: Point { x: x1, y: y1 } }),
    {
        Rectangle { min: Point { x: x0, y: y0 }, max: Point { x: x1, y: y1 } }
    }

    /// Number of columns covered.
    pub fn width(&self) -> (w: u32)
        ensures
            w == self.spec_width(),
    {
        if self.max.x > self.min.x {
            let d: i64 = self.max.x as i64 - self.min.x as i64;
            d as u32
        } else {
            0
        }
    }

    /// Number of rows covered.
    pub fn height(&self) -> (h: u32)
        ensures
            h == self.spec_height(),
    {
        if self.max.y > self.min.y {
            let d: i64 = self.max.y as i64 - self.min.y as i64;
            d as u32
        } else {
            0
        }
    }

    /// Whether `rect` lies fully inside `self`.
    pub fn contains(&self, rect: &Rectangle) -> (b: bool)
        ensures
            b == self.spec_contains(rect),
    {
        rect.min.x >= self.min.x && rect.max.x <= self.max.x && rect.min.y >= self.min.y
            && rect.max.y <= self.max.y
    }

    /// Whether `self` continues `rect` along one axis.
    pub fn extends(&self, rect: &Rectangle) -> (b: bool)
        ensures
            b == self.spec_extends(rect),
    {
        let same_rows = self.min.y == rect.min.y && self.max.y == rect.max.y;
        let same_columns = self.min.x == rect.min.x && self.max.x == rect.max.x;
        (same_rows && self.min.x <= rect.max.x && rect.min.x <= self.max.x) || (same_columns
            && self.min.y <= rect.max.y && rect.min.y <= self.max.y)
    }

    /// Grows `self` to the smallest rectangle that contains both.
    pub fn absorb(&mut self, rect: &Rectangle)
        ensures
            *final(self) == old(self).spec_union(rect),
    {
        if rect.min.x < self.min.x {
            self.min.x = rect.min.x;
        }
        if rect.min.y < self.min.y {
            self.min.y = rect.min.y;
        }
        if rect.max.x > self.max.x {
            self.max.x = rect.max.x;
        }
        if rect.max.y > self.max.y {
            self.max.y = rect.max.y;
        }
    }
}

/// Width and height of a panel of the given size after it has been turned
/// to rotation `n`: an even rotation has the longer side as its width, an
/// odd positive one the shorter side.
pub open spec fn spec_rotated_dims(dims: (u32, u32), n: i8) -> (u32, u32) {
    let (width, height) = dims;
    if (width < height && n % 2 == 0) || (width > height && n > 0 && n % 2 == 1) {
        (height, width)
    } else {
        dims
    }
}

/// Width and height of a panel of the given size after it has been turned
/// to rotation `n`.
pub fn rotated_dims(dims: (u32, u32), n: i8) -> (turned: (u32, u32))
    ensures
        turned == spec_rotated_dims(dims, n),
{
    let (width, height) = dims;
    let even = n % 2 == 0;
    let odd = n > 0 && n % 2 == 1;
    if (width < height && even) || (width > height && odd) {
        (height, width)
    } else {
        (width, height)
    }
}

/// Containment is reflexive and transitive.
pub proof fn lemma_contains_order(a: Rectangle, b: Rectangle, c: Rectangle)
    ensures
        a.spec_contains(&a),
        a.spec_contains(&b) && b.spec_contains(&c) ==> a.spec_contains(&c),
        a.spec_contains(&b) && b.spec_contains(&a) ==> a == b,
{
}

/// The union contains both rectangles, and it is the smallest that does.
pub proof fn lemma_union_is_least(a: Rectangle, b: Rectangle, c: Rectangle)
    ensures
        a.spec_union(&b).spec_contains(&a),
        a.spec_union(&b).spec_contains(&b),
        c.spec_contains(&a) && c.spec_contains(&b) ==> c.spec_contains(&a.spec_union(&b)),
        a.wf() && b.wf() ==> a.spec_union(&b).wf(),
{
}

/// Where one rectangle continues the other and both have their bounds the
/// right way round, their union covers no position that neither of them
/// covers.
pub proof fn lemma_union_of_extension_is_exact(a: Rectangle, b: Rectangle, x: int, y: int)
    requires
        a.wf(),
        b.wf(),
        a.spec_extends(&b),
    ensures
        a.spec_union(&b).covers(x, y) <==> a.covers(x, y) || b.covers(x, y),
{
}

} // verus!
