//! A numbered list of actions at a fixed screen position.
use crate::terminal::{decimal, decimal_string, goto, goto_text};
use vstd::prelude::*;

verus! {

pub struct Menu {
    pub x: u16,
    pub y: u16,
    options: Vec<String>,
}

/// What a menu is: its screen position and its option lines.
pub struct MenuView {
    pub x: u16,
    pub y: u16,
    pub options: Seq<Seq<char>>,
}

impl View for Menu {
    type V = MenuView;

    closed spec fn view(&self) -> MenuView {
        MenuView { x: self.x, y: self.y, options: self.options@.map_values(|o: String| o@) }
    }
}

/// The option line for `label` when it is number `n`: `n. label`.
pub open spec fn numbered(n: nat, label: Seq<char>) -> Seq<char> {
    decimal(n) + ". "@ + label
}

impl MenuView {
    /// Every line starts on a row the cursor can reach.
    pub open spec fn fits_screen(self) -> bool {
        &&& self.y + self.options.len() <= u16::MAX + 1
        &&& (self.x != 0 || self.y != 0)
    }

    /// The first `n` option lines, each on its own row.
    pub open spec fn lines_text(self, n: nat) -> Seq<char>
        decreases n,
    {
        if n == 0 {
            seq![]
        } else {
            self.lines_text((n - 1) as nat) + goto_text(self.x as nat, (self.y + n - 1) as nat)
                + self.options[n - 1]
        }
    }
}

impl Menu {
    /// A menu at (x, y) with `options` as its lines, as given.
    pub fn new(x: u16, y: u16, options: Vec<String>) -> (r: Menu)
        ensures
            r@ == (MenuView { x, y, options: options@.map_values(|o: String| o@) }),
    {
        Menu { x, y, options }
    }

    pub fn clear_options(&mut self)
        ensures
            final(self)@ == (MenuView { options: seq![], ..old(self)@ }),
    {
        self.options.clear();
        assert(self.options@.map_values(|o: String| o@) =~= seq![]);
    }

    /// Adds `option` as the next numbered line.
    pub fn add_option(&mut self, option: String)
        requires
            old(self)@.options.len() < u64::MAX,
        ensures
            final(self)@ == (MenuView {
                options: old(self)@.options.push(numbered(old(self)@.options.len() + 1, option@)),
                ..old(self)@
            }),
    {
        let mut line = decimal_string(self.options.len() as u64 + 1);
        proof {
            reveal_strlit(". ");
        }
        line.append(". ");
        line.append(option.as_str());
        self.options.push(line);
        assert(self.options@.map_values(|o: String| o@) =~= old(self)@.options.push(
            numbered(old(self)@.options.len() + 1, option@),
        ));
    }

    /// The number of option lines.
    pub fn len(&self) -> (r: usize)
        ensures
            r == self@.options.len(),
    {
        self.options.len()
    }

    /// The option line of index `i`.
    pub fn option(&self, i: usize) -> (r: &str)
        requires
            i < self@.options.len(),
        ensures
            r@ == self@.options[i as int],
    {
        self.options[i].as_str()
    }

    /// Each option line at the menu's column, one row after another.
    pub fn render(&self) -> (r: String)
        requires
            self@.fits_screen(),
        ensures
            r@ == self@.lines_text(self@.options.len()),
    {
        let mut s = String::new();
        let len = self.options.len();
        let mut i: usize = 0;
        while i < len
            invariant
                len == self@.options.len(),
                self@.fits_screen(),
                i <= len,
                s@ == self@.lines_text(i as nat),
            decreases len - i,
        {
            s.append(goto(self.x, self.y + i as u16).as_str());
            assert(self.options@[i as int]@ == self@.options[i as int]);
            s.append(self.options[i].as_str());
            i = i + 1;
            assert(s@ =~= self@.lines_text(i as nat));
        }
        s
    }
}

} // verus!
