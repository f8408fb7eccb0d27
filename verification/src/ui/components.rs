use vstd::prelude::*;

use crate::ui::engine::{Drawable, Position};
use crate::ui::primitives::Rect;
use crate::ui::text::Text;
use crate::util::{row_major, Color};

verus! {

/// The colours of a button.
#[derive(Clone, Copy, Debug)]
pub struct ButtonStyle {
    pub bg_color: Color,
    pub bg_color_pressed: Color,
}

/// Whether a button is held down.
#[derive(Clone, Copy, Debug, PartialEq, Eq, Structural)]
pub enum ButtonState {
    Pressed,
    Unpressed,
}

/// A rectangle with a label that can be pressed.
pub struct Button {
    pub position: Position,
    pub label: Text,
    pub w: usize,
    pub h: usize,
    pub state: ButtonState,
    pub style: ButtonStyle,
}

impl Button {
    /// The rectangle that the button fills: its own place and size, in the
    /// colour that its state asks for.
    pub open spec fn spec_current_rect(&self) -> Rect {
        Rect {
            color: match self.state {
                ButtonState::Pressed => self.style.bg_color_pressed,
                ButtonState::Unpressed => self.style.bg_color,
            },
            position: self.position,
            w: self.w,
            h: self.h,
        }
    }

    /// The rectangle that the button fills.
    pub fn current_rect(&self) -> (rect: Rect)
        ensures
            rect == self.spec_current_rect(),
    {
        let color = match self.state {
            ButtonState::Pressed => self.style.bg_color_pressed,
            ButtonState::Unpressed => self.style.bg_color,
        };
        Rect { color, w: self.w, h: self.h, position: self.position }
    }
}

impl Drawable for Button {
    /// Fills the button's rectangle; the label is not drawn.
    fn draw(&self, buf: &mut Vec<u32>, width: usize, height: usize)
        ensures
            forall|px: int, py: int|
                0 <= px < width && 0 <= py < height ==> #[trigger] final(buf)[row_major(
                    width as int,
                    px,
                    py,
                )] == if self.spec_current_rect().covers(px, py) {
                    self.spec_current_rect().color.packed() as u32
                } else {
                    old(buf)[row_major(width as int, px, py)]
                },
    {
        self.current_rect().draw(buf, width, height);
    }
}

} // verus!
