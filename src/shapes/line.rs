//! Horizontal and vertical runs of a box-drawing glyph.
use crate::terminal::{goto, goto_text};
use vstd::prelude::*;

verus! {

/// The heavy horizontal box-drawing glyph.
pub open spec fn box_horizontal() -> char {
    '\u{2501}'
}

/// The heavy vertical box-drawing glyph.
pub open spec fn box_vertical() -> char {
    '\u{2503}'
}

/// `s` written `n` times in a row.
pub open spec fn repeat_text(s: Seq<char>, n: nat) -> Seq<char>
    decreases n,
{
    if n == 0 {
        seq![]
    } else {
        repeat_text(s, (n - 1) as nat) + s
    }
}

pub proof fn lemma_repeat_len(s: Seq<char>, n: nat)
    ensures
        repeat_text(s, n).len() == s.len() * n,
    decreases n,
{
    if n > 0 {
        let m = (n - 1) as nat;
        lemma_repeat_len(s, m);
        assert(repeat_text(s, n) == repeat_text(s, m) + s);
        assert(s.len() * n == s.len() * m + s.len()) by (nonlinear_arith)
            requires
                n == m + 1,
        ;
    } else {
        assert(s.len() * 0 == 0);
    }
}

/// `n` vertical glyphs in column `x` from row `y` down, each placed by its own
/// cursor move.
pub open spec fn vertical_text(x: nat, y: nat, n: nat) -> Seq<char>
    decreases n,
{
    if n == 0 {
        seq![]
    } else {
        vertical_text(x, y, (n - 1) as nat) + goto_text(x, (y + n - 1) as nat) + seq![box_vertical()]
    }
}

/// `n` horizontal glyphs starting at column `x`, row `y`.
pub open spec fn horizontal_text(x: nat, y: nat, n: nat) -> Seq<char> {
    goto_text(x, y) + repeat_text(seq![box_horizontal()], n)
}

pub enum LineOrientation {
    Horizontal,
    Vertical,
}

pub struct Line {
    pub orientation: LineOrientation,
    pub x: u16,
    pub y: u16,
    pub length: u16,
}

/// Appends `n` copies of `unit` to `s`.
pub(crate) fn push_repeated(s: &mut String, unit: &str, n: u64)
    ensures
        final(s)@ == old(s)@ + repeat_text(unit@, n as nat),
{
    let mut i: u64 = 0;
    while i < n
        invariant
            i <= n,
            s@ == old(s)@ + repeat_text(unit@, i as nat),
        decreases n - i,
    {
        s.append(unit);
        i = i + 1;
        assert(s@ =~= old(s)@ + repeat_text(unit@, i as nat));
    }
}

impl Line {
    /// Whether every cursor move of the line names a real position.
    pub open spec fn drawable(&self) -> bool {
        match self.orientation {
            LineOrientation::Horizontal => self.x != 0 || self.y != 0,
            LineOrientation::Vertical => {
                &&& self.y + self.length <= u16::MAX
                &&& (self.x == 0 && self.length > 0 ==> self.y != 0)
            },
        }
    }

    /// The text that draws the line.
    pub open spec fn text(&self) -> Seq<char> {
        match self.orientation {
            LineOrientation::Horizontal => horizontal_text(
                self.x as nat,
                self.y as nat,
                self.length as nat,
            ),
            LineOrientation::Vertical => vertical_text(
                self.x as nat,
                self.y as nat,
                self.length as nat,
            ),
        }
    }

    pub fn render(&self) -> (r: String)
        requires
            self.drawable(),
        ensures
            r@ == self.text(),
    {
        match self.orientation {
            LineOrientation::Horizontal => {
                let mut s = goto(self.x, self.y);
                proof {
                    reveal_strlit("\u{2501}");
                }
                assert("\u{2501}"@ =~= seq![box_horizontal()]);
                push_repeated(&mut s, "\u{2501}", self.length as u64);
                s
            },
            LineOrientation::Vertical => {
                let mut s = String::new();
                let mut i: u16 = 0;
                while i < self.length
                    invariant
                        self.drawable(),
                        self.orientation == LineOrientation::Vertical,
                        i <= self.length,
                        s@ == vertical_text(self.x as nat, self.y as nat, i as nat),
                    decreases self.length - i,
                {
                    let g = goto(self.x, self.y + i);
                    s.append(g.as_str());
                    proof {
                        reveal_strlit("\u{2503}");
                    }
                    s.append("\u{2503}");
                    i = i + 1;
                    assert(s@ =~= vertical_text(self.x as nat, self.y as nat, i as nat));
                }
                s
            },
        }
    }
}

} // verus!
