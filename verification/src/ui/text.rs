use vstd::prelude::*;

use crate::fixed::Fixed;
use crate::ui::engine::{Drawable, Position};
use crate::util::Color;

verus! {

/// How a piece of text looks.
#[derive(Clone, Copy, Debug)]
pub struct TextStyle {
    /// Height of the letters in pixels.
    pub px: Fixed,
    pub color: Color,
}

/// The coverage of each pixel of a rendered piece of text, row by row.
pub struct TextBitmap {
    buf: Vec<u8>,
    width: usize,
    height: usize,
}

/// A piece of text at a place.
pub struct Text {
    position: Position,
    contents: String,
    style: TextStyle,
    bitmap: Option<TextBitmap>,
}

impl Text {
    /// Where the text stands.
    pub closed spec fn spec_position(&self) -> Position {
        self.position
    }

    /// What the text says.
    pub closed spec fn spec_contents(&self) -> Seq<char> {
        self.contents@
    }

    /// How the text looks.
    pub closed spec fn spec_style(&self) -> TextStyle {
        self.style
    }

    /// Whether the text has been turned into pixels.
    pub closed spec fn spec_rendered(&self) -> bool {
        self.bitmap is Some
    }

    /// A piece of text that has not been turned into pixels yet.
    pub fn new(position: Position, text: String, style: TextStyle) -> (made: Text)
        ensures
            made.spec_position() == position,
            made.spec_contents() == text@,
            made.spec_style() == style,
            !made.spec_rendered(),
    {
        Text { position, contents: text, style, bitmap: None }
    }
}

impl Drawable for Text {
    /// Leaves the buffer as it is: text is not drawn.
    fn draw(&self, buf: &mut Vec<u32>, width: usize, height: usize)
        ensures
            final(buf)@ == old(buf)@,
    {
    }
}

} // verus!
