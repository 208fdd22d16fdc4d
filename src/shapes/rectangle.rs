//! A box-drawing border.
use crate::shapes::line::{horizontal_text, vertical_text, Line, LineOrientation};
use crate::terminal::{goto, goto_text};
use vstd::prelude::*;

verus! {

pub open spec fn corner_top_left() -> char {
    '\u{250F}'
}

pub open spec fn corner_top_right() -> char {
    '\u{2513}'
}

pub open spec fn corner_bottom_left() -> char {
    '\u{2517}'
}

pub open spec fn corner_bottom_right() -> char {
    '\u{251B}'
}

pub struct Rectangle {
    pub x: u16,
    pub y: u16,
    pub width: u16,
    pub height: u16,
}

impl Rectangle {
    /// A border needs two cells each way, and its far corner must lie on a
    /// one-based position the cursor can reach.
    pub open spec fn drawable(&self) -> bool {
        &&& self.width >= 2
        &&& self.height >= 2
        &&& self.x + self.width - 1 <= u16::MAX
        &&& self.y + self.height - 1 <= u16::MAX
        &&& (self.x != 0 || self.y != 0)
    }

    /// The top edge with its corners, the two sides row by row, then the
    /// bottom edge with its corners.
    pub open spec fn text(&self) -> Seq<char> {
        let x = self.x as nat;
        let y = self.y as nat;
        let inner_w = (self.width - 2) as nat;
        let inner_h = (self.height - 2) as nat;
        let bottom = (y + self.height - 1) as nat;
        goto_text(x, y) + seq![corner_top_left()] + horizontal_text(x + 1, y, inner_w) + seq![
            corner_top_right(),
        ] + vertical_text(x, y + 1, inner_h) + vertical_text(
            (x + self.width - 1) as nat,
            y + 1,
            inner_h,
        ) + goto_text(x, bottom) + seq![corner_bottom_left()] + horizontal_text(
            x + 1,
            bottom,
            inner_w,
        ) + seq![corner_bottom_right()]
    }

    pub fn render(&self) -> (r: String)
        requires
            self.drawable(),
        ensures
            r@ == self.text(),
    {
        let bottom = self.y + (self.height - 1);
        let top_edge = Line {
            orientation: LineOrientation::Horizontal,
            x: self.x + 1,
            y: self.y,
            length: self.width - 2,
        };
        let left_side = Line {
            orientation: LineOrientation::Vertical,
            x: self.x,
            y: self.y + 1,
            length: self.height - 2,
        };
        let right_side = Line {
            orientation: LineOrientation::Vertical,
            x: self.x + (self.width - 1),
            y: self.y + 1,
            length: self.height - 2,
        };
        let bottom_edge = Line {
            orientation: LineOrientation::Horizontal,
            x: self.x + 1,
            y: bottom,
            length: self.width - 2,
        };
        proof {
            reveal_strlit("\u{250F}");
            reveal_strlit("\u{2513}");
            reveal_strlit("\u{2517}");
            reveal_strlit("\u{251B}");
        }
        let mut s = goto(self.x, self.y);
        s.append("\u{250F}");
        s.append(top_edge.render().as_str());
        s.append("\u{2513}");
        s.append(left_side.render().as_str());
        s.append(right_side.render().as_str());
        s.append(goto(self.x, bottom).as_str());
        s.append("\u{2517}");
        s.append(bottom_edge.render().as_str());
        s.append("\u{251B}");
        assert(s@ =~= self.text());
        s
    }
}

} // verus!
