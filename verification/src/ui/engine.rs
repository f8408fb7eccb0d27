use vstd::prelude::*;

verus! {

/// Something that can paint itself into a row-major pixel buffer of
/// `width * height` words.
pub trait Drawable {
    fn draw(&self, buf: &mut Vec<u32>, width: usize, height: usize)
        requires
            old(buf).len() == width * height,
        ensures
            final(buf).len() == old(buf).len(),
    ;
}

/// Something made of parts that paint themselves.
pub trait CompositeDrawable {
    fn components(&self) -> Vec<&dyn Drawable>;
}

/// An offset in pixels, applied to coordinates local to a shape.
#[derive(Copy, Clone)]
pub struct Position {
    pub x: i32,
    pub y: i32,
}

impl Position {
    /// Whether `v` moved by `by` is still a coordinate.
    pub open spec fn fits(v: int, by: int) -> bool {
        0 <= v + by <= usize::MAX
    }

    /// Moves one coordinate, or reports that it left the representable range.
    fn shift(v: usize, by: i32) -> (moved: Option<usize>)
        ensures
            moved == if Self::fits(v as int, by as int) {
                Some((v + by) as usize)
            } else {
                None
            },
    {
        if by >= 0 {
            v.checked_add(by as usize)
        } else {
            let back: usize = (-(by as i64)) as usize;
            if v < back {
                None
            } else {
                Some(v - back)
            }
        }
    }

    /// Translates local coordinates by this offset. A point that would land
    /// left of or above the origin, or beyond the largest coordinate, has no
    /// image.
    pub fn apply(&self, point: (usize, usize)) -> (moved: Option<(usize, usize)>)
        ensures
            moved == if Self::fits(point.0 as int, self.x as int) && Self::fits(
                point.1 as int,
                self.y as int,
            ) {
                Some(((point.0 + self.x) as usize, (point.1 + self.y) as usize))
            } else {
                None
            },
    {
        match Self::shift(point.0, self.x) {
            None => None,
            Some(x) => match Self::shift(point.1, self.y) {
                None => None,
                Some(y) => Some((x, y)),
            },
        }
    }
}

} // verus!
