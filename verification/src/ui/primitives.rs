use vstd::prelude::*;

use crate::ui::engine::{Drawable, Position};
use crate::util::{lemma_row_major, row_major, Color};

verus! {

/// A filled, axis-aligned rectangle.
pub struct Rect {
    pub color: Color,
    pub position: Position,
    pub w: usize,
    pub h: usize,
}

impl Rect {
    /// Whether the rectangle covers pixel `(px, py)`.
    pub open spec fn covers(&self, px: int, py: int) -> bool {
        &&& self.position.x <= px < self.position.x + self.w
        &&& self.position.y <= py < self.position.y + self.h
    }

    /// Whether the drawing loop has already reached pixel `(px, py)` when it
    /// stands at local column `x`, local row `y`.
    spec fn reached(&self, px: int, py: int, x: int, y: int) -> bool {
        self.covers(px, py) && (px - self.position.x < x || (px - self.position.x == x && py
            - self.position.y < y))
    }

    /// What the buffer holds while the loop stands at `(x, y)`.
    spec fn painted(
        &self,
        now: Seq<u32>,
        before: Seq<u32>,
        width: int,
        height: int,
        x: int,
        y: int,
    ) -> bool {
        &&& now.len() == before.len()
        &&& forall|px: int, py: int|
            0 <= px < width && 0 <= py < height ==> #[trigger] now[row_major(width, px, py)]
                == if self.reached(px, py, x, y) {
                self.color.packed() as u32
            } else {
                before[row_major(width, px, py)]
            }
    }
}

impl Drawable for Rect {
    /// Fills every pixel of the buffer that the rectangle covers with its
    /// colour and leaves the others as they were.
    fn draw(&self, buf: &mut Vec<u32>, width: usize, height: usize)
        ensures
            forall|px: int, py: int|
                0 <= px < width && 0 <= py < height ==> #[trigger] final(buf)[row_major(
                    width as int,
                    px,
                    py,
                )] == if self.covers(px, py) {
                    self.color.packed() as u32
                } else {
                    old(buf)[row_major(width as int, px, py)]
                },
    {
        let word: u32 = self.color.as_u32();
        let ghost before: Seq<u32> = buf@;
        let total: usize = buf.len();
        let mut x: usize = 0;
        while x < self.w
            invariant
                x <= self.w,
                word == self.color.packed(),
                before.len() == width * height == total,
                self.painted(buf@, before, width as int, height as int, x as int, 0),
            decreases self.w - x,
        {
            let mut y: usize = 0;
            while y < self.h
                invariant
                    x < self.w,
                    y <= self.h,
                    word == self.color.packed(),
                    before.len() == width * height == total,
                    self.painted(buf@, before, width as int, height as int, x as int, y as int),
                decreases self.h - y,
            {
                let ghost prev: Seq<u32> = buf@;
                let target = self.position.apply((x, y));
                let mut hit: bool = false;
                if let Some((px, py)) = target {
                    if px < width && py < height {
                        proof {
                            lemma_row_major(width as int, height as int, px as int, py as int);
                            assert(width * py == py * width) by (nonlinear_arith);
                        }
                        buf.set(width * py + px, word);
                        hit = true;
                        proof {
                            assert forall|qx: int, qy: int|
                                0 <= qx < width && 0 <= qy < height implies #[trigger] buf@[row_major(
                                width as int,
                                qx,
                                qy,
                            )] == if self.reached(qx, qy, x as int, y + 1) {
                                self.color.packed() as u32
                            } else {
                                before[row_major(width as int, qx, qy)]
                            } by {
                                lemma_row_major(width as int, height as int, qx, qy);
                                assert(prev[row_major(width as int, qx, qy)] == if self.reached(
                                    qx,
                                    qy,
                                    x as int,
                                    y as int,
                                ) {
                                    self.color.packed() as u32
                                } else {
                                    before[row_major(width as int, qx, qy)]
                                });
                            }
                        }
                    }
                }
                proof {
                    if !hit {
                        assert forall|qx: int, qy: int|
                            0 <= qx < width && 0 <= qy < height implies self.reached(
                            qx,
                            qy,
                            x as int,
                            y + 1,
                        ) == self.reached(qx, qy, x as int, y as int) by {}
                        assert forall|qx: int, qy: int|
                            0 <= qx < width && 0 <= qy < height implies #[trigger] buf@[row_major(
                            width as int,
                            qx,
                            qy,
                        )] == if self.reached(qx, qy, x as int, y + 1) {
                            self.color.packed() as u32
                        } else {
                            before[row_major(width as int, qx, qy)]
                        } by {}
                    }
                }
                y += 1;
            }
            proof {
                assert forall|qx: int, qy: int|
                    0 <= qx < width && 0 <= qy < height implies self.reached(
                    qx,
                    qy,
                    x as int,
                    self.h as int,
                ) == self.reached(qx, qy, x + 1, 0) by {}
                assert forall|qx: int, qy: int|
                    0 <= qx < width && 0 <= qy < height implies #[trigger] buf@[row_major(
                    width as int,
                    qx,
                    qy,
                )] == if self.reached(qx, qy, x + 1, 0) {
                    self.color.packed() as u32
                } else {
                    before[row_major(width as int, qx, qy)]
                } by {}
            }
            x += 1;
        }
        proof {
            assert forall|qx: int, qy: int|
                0 <= qx < width && 0 <= qy < height implies self.reached(
                qx,
                qy,
                self.w as int,
                0,
            ) == self.covers(qx, qy) by {}
        }
    }
}

} // verus!
