//! A string anchored at a screen position.
use crate::terminal::{goto, goto_text};
use vstd::prelude::*;

verus! {

pub struct Text {
    pub x: u16,
    pub y: u16,
    pub content: String,
}

impl Text {
    /// The cursor move to the anchor followed by the content.
    pub open spec fn text(&self) -> Seq<char> {
        goto_text(self.x as nat, self.y as nat) + self.content@
    }

    pub fn render(&self) -> (r: String)
        requires
            self.x != 0 || self.y != 0,
        ensures
            r@ == self.text(),
    {
        let mut s = goto(self.x, self.y);
        s.append(self.content.as_str());
        s
    }
}

} // verus!
