//! Businesses: timed production cycles, levels and their panels.
use crate::shapes::line::{lemma_repeat_len, push_repeated, repeat_text};
use crate::shapes::rectangle::Rectangle;
use crate::terminal::{
    decimal, decimal_string, goto, goto_text, left, left_text, money_string, money_text,
    two_digit_string, two_digits,
};
use vstd::prelude::*;

verus! {

/// Cells in a progress bar.
pub const BAR_WIDTH: u64 = 20;

/// Nanoseconds in a second.
pub const NANOS_PER_SECOND: u64 = 1_000_000_000;

/// The bar glyph filled to `i + 1` eighths of a cell, for `i < 8`; the last
/// one is the full cell.
pub open spec fn bar_glyph(i: nat) -> char {
    if i == 0 {
        '\u{258F}'
    } else if i == 1 {
        '\u{258E}'
    } else if i == 2 {
        '\u{258D}'
    } else if i == 3 {
        '\u{258C}'
    } else if i == 4 {
        '\u{258B}'
    } else if i == 5 {
        '\u{258A}'
    } else if i == 6 {
        '\u{2589}'
    } else {
        '\u{2588}'
    }
}

/// The bar for `elapsed` of `cycle`: empty before the cycle has begun, full
/// once it has run its length, and otherwise `floor(20 r)` full cells and the
/// glyph of `floor((20 r - floor(20 r)) * 8)`, where `r = elapsed / cycle`.
pub open spec fn bar_text(elapsed: nat, cycle: nat) -> Seq<char> {
    if elapsed == 0 {
        seq![]
    } else if elapsed >= cycle {
        repeat_text(seq![bar_glyph(7)], BAR_WIDTH as nat)
    } else {
        let eighths = elapsed * (8 * BAR_WIDTH as nat) / cycle;
        repeat_text(seq![bar_glyph(7)], eighths / 8) + seq![bar_glyph(eighths % 8)]
    }
}

/// A count of seconds as `HH:MM:SS`, each part at least two digits.
pub open spec fn timer_text(secs: nat) -> Seq<char> {
    two_digits(secs / 3600) + seq![':'] + two_digits((secs % 3600) / 60) + seq![':'] + two_digits(
        secs % 60,
    )
}

pub enum BusinessSelectDirection {
    Up,
    Right,
    Left,
    Down,
}

/// One production unit. Times are in nanoseconds, money in cents.
pub struct Business {
    pub name: String,
    sale_time: u64,
    sale_progress: u64,
    sale_amount: u32,
    level: u16,
    pub level_up_cost: u64,
}

/// What a business is: its cycle length and the time spent in the current
/// cycle (nanoseconds), its payout at level one and the cost of the next
/// level (cents), and its level.
pub struct BusinessView {
    pub name: Seq<char>,
    pub cycle: nat,
    pub elapsed: nat,
    pub base_payout: nat,
    pub level: nat,
    pub upgrade_cost: nat,
}

impl BusinessView {
    /// The level is at least one and the current cycle has not overrun.
    pub open spec fn wf(self) -> bool {
        &&& self.level >= 1
        &&& self.elapsed <= self.cycle
    }

    /// What one completed cycle pays at the current level.
    pub open spec fn revenue(self) -> nat {
        self.base_payout * self.level
    }

    /// Whether advancing by `d` completes the cycle: strictly past its end.
    pub open spec fn completes(self, d: nat) -> bool {
        self.elapsed + d > self.cycle
    }

    /// The business after advancing by `d`.
    pub open spec fn advanced(self, d: nat) -> BusinessView {
        if self.completes(d) {
            BusinessView { elapsed: 0, ..self }
        } else {
            BusinessView { elapsed: self.elapsed + d, ..self }
        }
    }

    /// Whole seconds left in the current cycle, rounded down.
    pub open spec fn remaining_secs(self) -> nat {
        ((self.cycle - self.elapsed) as nat) / (NANOS_PER_SECOND as nat)
    }

    /// The second line of the panel.
    pub open spec fn level_line(self) -> Seq<char> {
        "Level: "@ + decimal(self.level) + " Revenue: $"@ + money_text(self.revenue() as int)
    }

    /// The progress bar padded with spaces to its full width, in brackets,
    /// followed by the countdown.
    pub open spec fn bar_line(self) -> Seq<char> {
        let bar = bar_text(self.elapsed, self.cycle);
        seq!['['] + bar + repeat_text(seq![' '], (BAR_WIDTH - bar.len()) as nat) + seq![']']
            + timer_text(self.remaining_secs())
    }

    /// The panel: name, level line and bar line, each following line moved
    /// back under the start of the one before.
    pub open spec fn panel_text(self) -> Seq<char> {
        self.name + seq!['\n'] + left_text(self.name.len() % 65536) + self.level_line() + seq!['\n']
            + left_text(self.level_line().len() % 65536) + self.bar_line()
    }
}

impl View for Business {
    type V = BusinessView;

    closed spec fn view(&self) -> BusinessView {
        BusinessView {
            name: self.name@,
            cycle: self.sale_time as nat,
            elapsed: self.sale_progress as nat,
            base_payout: self.sale_amount as nat,
            level: self.level as nat,
            upgrade_cost: self.level_up_cost as nat,
        }
    }
}

/// A bar never takes more than its width.
pub proof fn lemma_bar_len(elapsed: nat, cycle: nat)
    ensures
        bar_text(elapsed, cycle).len() <= BAR_WIDTH,
{
    assert(seq![bar_glyph(7)].len() == 1);
    lemma_repeat_len(seq![bar_glyph(7)], BAR_WIDTH as nat);
    if elapsed != 0 && elapsed < cycle {
        let e = elapsed * 160 / cycle;
        assert(e < 160) by (nonlinear_arith)
            requires
                0 < elapsed < cycle,
                e == elapsed * 160 / cycle,
        {
            assert(elapsed * 160 < cycle * 160);
            assert(e * cycle <= elapsed * 160);
        };
        assert(8 * BAR_WIDTH as nat == 160);
        lemma_repeat_len(seq![bar_glyph(7)], e / 8);
        assert(repeat_text(seq![bar_glyph(7)], e / 8).len() == e / 8);
        assert(bar_text(elapsed, cycle) == repeat_text(seq![bar_glyph(7)], e / 8) + seq![bar_glyph(e % 8)]);
    }
}

/// A business advanced `n` times by `d`.
pub open spec fn advanced_times(v: BusinessView, d: nat, n: nat) -> BusinessView
    decreases n,
{
    if n == 0 {
        v
    } else {
        advanced_times(v, d, (n - 1) as nat).advanced(d)
    }
}

/// Advancing a business from the start of its cycle by `d`, again and again:
/// while `n·d` does not exceed the cycle nothing completes and `n·d` has
/// elapsed; the next advance completes the cycle exactly when `(n + 1)·d`
/// exceeds it strictly, never when it lands on the cycle's end.
pub proof fn lemma_progress_accumulates(v: BusinessView, d: nat, n: nat)
    requires
        v.wf(),
        v.elapsed == 0,
        n * d <= v.cycle,
    ensures
        advanced_times(v, d, n) == (BusinessView { elapsed: n * d, ..v }),
        forall|k: nat| k < n ==> !(#[trigger] advanced_times(v, d, k)).completes(d),
        advanced_times(v, d, n).completes(d) <==> (n + 1) * d > v.cycle,
    decreases n,
{
    assert((n + 1) * d == n * d + d) by (nonlinear_arith);
    if n > 0 {
        let m = (n - 1) as nat;
        assert(m * d <= n * d) by (nonlinear_arith)
            requires
                m < n,
        ;
        lemma_progress_accumulates(v, d, m);
        assert(n * d == m * d + d) by (nonlinear_arith)
            requires
                n == m + 1,
        ;
    } else {
        assert(0 * d == 0);
    }
}

/// The bar glyph of index `i`.
fn bar_glyph_str(i: u64) -> (r: &'static str)
    requires
        i < 8,
    ensures
        r@ == seq![bar_glyph(i as nat)],
{
    proof {
        reveal_strlit("\u{258F}");
        reveal_strlit("\u{258E}");
        reveal_strlit("\u{258D}");
        reveal_strlit("\u{258C}");
        reveal_strlit("\u{258B}");
        reveal_strlit("\u{258A}");
        reveal_strlit("\u{2589}");
        reveal_strlit("\u{2588}");
    }
    if i == 0 {
        "\u{258F}"
    } else if i == 1 {
        "\u{258E}"
    } else if i == 2 {
        "\u{258D}"
    } else if i == 3 {
        "\u{258C}"
    } else if i == 4 {
        "\u{258B}"
    } else if i == 5 {
        "\u{258A}"
    } else if i == 6 {
        "\u{2589}"
    } else {
        "\u{2588}"
    }
}

/// The bar for `elapsed` of `cycle`.
pub fn progress_bar_text(elapsed: u64, cycle: u64) -> (r: String)
    ensures
        r@ == bar_text(elapsed as nat, cycle as nat),
{
    let mut s = String::new();
    if elapsed == 0 {
        return s;
    }
    let full = bar_glyph_str(7);
    if elapsed >= cycle {
        push_repeated(&mut s, full, BAR_WIDTH);
        return s;
    }
    assert(elapsed as u128 * 160 <= u64::MAX as u128 * 160) by (nonlinear_arith);
    let eighths: u128 = (elapsed as u128 * 160) / cycle as u128;
    proof {
        let e = elapsed as int;
        let c = cycle as int;
        assert(eighths as int == e * 160 / c);
        assert(e * 160 / c < 160) by (nonlinear_arith)
            requires
                0 < e < c,
        {
            assert(e * 160 < c * 160);
            assert((e * 160 / c) * c <= e * 160);
        };
    }
    push_repeated(&mut s, full, (eighths / 8) as u64);
    s.append(bar_glyph_str((eighths % 8) as u64));
    s
}

/// A count of seconds as `HH:MM:SS`.
pub fn timer_string(secs: u64) -> (r: String)
    ensures
        r@ == timer_text(secs as nat),
{
    let mut s = two_digit_string(secs / 3600);
    proof {
        reveal_strlit(":");
    }
    s.append(":");
    s.append(two_digit_string((secs % 3600) / 60).as_str());
    s.append(":");
    s.append(two_digit_string(secs % 60).as_str());
    assert(s@ =~= timer_text(secs as nat));
    s
}

impl Business {
    /// A business at level one with no progress in its cycle.
    pub fn new(name: String, init_sale_time: u64, init_sale_amount: u32, level_up_cost: u64) -> (r:
        Business)
        ensures
            r@ == (BusinessView {
                name: name@,
                cycle: init_sale_time as nat,
                elapsed: 0,
                base_payout: init_sale_amount as nat,
                level: 1,
                upgrade_cost: level_up_cost as nat,
            }),
            r@.wf(),
    {
        Business {
            name,
            sale_time: init_sale_time,
            sale_progress: 0,
            sale_amount: init_sale_amount,
            level: 1,
            level_up_cost,
        }
    }

    /// Advances the current cycle by `time`. When that takes it strictly past
    /// the cycle's length, the cycle restarts and its revenue is returned.
    pub fn progress(&mut self, time: u64) -> (r: Option<u64>)
        requires
            old(self)@.wf(),
            old(self)@.elapsed + time <= u64::MAX,
        ensures
            final(self)@ == old(self)@.advanced(time as nat),
            final(self)@.wf(),
            r is Some <==> old(self)@.completes(time as nat),
            r is Some ==> r->0 == old(self)@.revenue(),
    {
        self.sale_progress = self.sale_progress + time;
        if self.sale_progress > self.sale_time {
            self.sale_progress = 0;
            return Some(self.revenue());
        }
        None
    }

    /// Raises the level by one.
    pub fn upgrade(&mut self)
        requires
            old(self)@.wf(),
            old(self)@.level < u16::MAX,
        ensures
            final(self)@ == (BusinessView { level: old(self)@.level + 1, ..old(self)@ }),
            final(self)@.wf(),
    {
        self.level = self.level + 1;
    }

    /// What one completed cycle pays at the current level.
    pub fn revenue(&self) -> (r: u64)
        ensures
            r == self@.revenue(),
    {
        assert(self.sale_amount as nat * self.level as nat <= u32::MAX as nat * u16::MAX as nat)
            by (nonlinear_arith);
        self.sale_amount as u64 * self.level as u64
    }

    /// Cents the next level costs.
    pub fn level_up_cost(&self) -> (r: u64)
        ensures
            r == self@.upgrade_cost,
    {
        self.level_up_cost
    }

    pub fn level(&self) -> (r: u16)
        ensures
            r == self@.level,
    {
        self.level
    }

    /// Nanoseconds spent in the current cycle.
    pub fn sale_progress(&self) -> (r: u64)
        ensures
            r == self@.elapsed,
    {
        self.sale_progress
    }

    /// Nanoseconds a cycle lasts.
    pub fn sale_time(&self) -> (r: u64)
        ensures
            r == self@.cycle,
    {
        self.sale_time
    }

    /// The second line of the panel.
    fn level_line(&self) -> (r: String)
        ensures
            r@ == self@.level_line(),
    {
        let revenue = self.revenue();
        assert(revenue <= u32::MAX as nat * u16::MAX as nat) by (nonlinear_arith)
            requires
                revenue == self.sale_amount as nat * self.level as nat,
        {
            assert(self.sale_amount as nat * self.level as nat <= u32::MAX as nat * self.level as nat);
            assert(u32::MAX as nat * self.level as nat <= u32::MAX as nat * u16::MAX as nat);
        };
        let mut s = String::from_str("Level: ");
        s.append(decimal_string(self.level as u64).as_str());
        s.append(" Revenue: $");
        s.append(money_string(revenue as i64).as_str());
        s
    }

    /// The bar in brackets, padded to its width, then the countdown.
    fn bar_line(&self) -> (r: String)
        requires
            self@.wf(),
        ensures
            r@ == self@.bar_line(),
    {
        let bar = self.progress_bar();
        proof {
            lemma_bar_len(self@.elapsed, self@.cycle);
            reveal_strlit("[");
            reveal_strlit("]");
            reveal_strlit(" ");
        }
        let bar_len = bar.as_str().unicode_len();
        assert(" "@ =~= seq![' ']);
        let mut s = String::from_str("[");
        s.append(bar.as_str());
        push_repeated(&mut s, " ", BAR_WIDTH - bar_len as u64);
        s.append("]");
        let remaining = (self.sale_time - self.sale_progress) / NANOS_PER_SECOND;
        assert(remaining == self@.remaining_secs());
        s.append(timer_string(remaining).as_str());
        assert(s@ =~= self@.bar_line());
        s
    }

    /// The panel: name, level and revenue, progress bar and countdown.
    pub fn render(&self) -> (r: String)
        requires
            self@.wf(),
        ensures
            r@ == self@.panel_text(),
    {
        let level_line = self.level_line();
        let name_len = self.name.as_str().unicode_len();
        let level_len = level_line.as_str().unicode_len();
        proof {
            reveal_strlit("\n");
        }
        let mut s = self.name.clone();
        s.append("\n");
        s.append(left((name_len % 65536) as u16).as_str());
        s.append(level_line.as_str());
        s.append("\n");
        s.append(left((level_len % 65536) as u16).as_str());
        s.append(self.bar_line().as_str());
        assert(s@ =~= self@.panel_text());
        s
    }

    pub fn progress_bar(&self) -> (r: String)
        ensures
            r@ == bar_text(self@.elapsed, self@.cycle),
    {
        progress_bar_text(self.sale_progress, self.sale_time)
    }
}

/// Column pitch of the grid: the right column starts this far right of the left one.
pub const COLUMN_PITCH: u16 = 44;

/// Row pitch of the grid.
pub const ROW_PITCH: u16 = 5;

/// Width of the highlight drawn round the selected panel.
pub const HIGHLIGHT_WIDTH: u16 = 33;

/// Height of the highlight drawn round the selected panel.
pub const HIGHLIGHT_HEIGHT: u16 = 6;

/// Where the selection goes from index `sel` in a grid of `len` cells, two
/// to a row; a move that would leave the grid keeps it where it is.
pub open spec fn select_target(sel: nat, len: nat, direction: BusinessSelectDirection) -> nat {
    match direction {
        BusinessSelectDirection::Up => if sel > 1 {
            (sel - 2) as nat
        } else {
            sel
        },
        BusinessSelectDirection::Right => if sel % 2 == 0 && sel + 1 < len {
            sel + 1
        } else {
            sel
        },
        BusinessSelectDirection::Down => if sel + 2 < len {
            sel + 2
        } else {
            sel
        },
        BusinessSelectDirection::Left => if sel % 2 == 1 {
            (sel - 1) as nat
        } else {
            sel
        },
    }
}

/// The selection after the `moves`, in order, from index `sel`.
pub open spec fn navigate(sel: nat, len: nat, moves: Seq<BusinessSelectDirection>) -> nat
    decreases moves.len(),
{
    if moves.len() == 0 {
        sel
    } else {
        navigate(select_target(sel, len, moves[0]), len, moves.drop_first())
    }
}

/// However many moves are made, in whatever order, from a selection inside
/// a grid of any size, the selection stays inside the grid.
pub proof fn lemma_navigation_in_range(sel: nat, len: nat, moves: Seq<BusinessSelectDirection>)
    requires
        sel < len,
    ensures
        navigate(sel, len, moves) < len,
    decreases moves.len(),
{
    if moves.len() > 0 {
        lemma_navigation_in_range(select_target(sel, len, moves[0]), len, moves.drop_first());
    }
}

/// `n` moves down.
pub open spec fn downs(n: nat) -> Seq<BusinessSelectDirection> {
    Seq::new(n, |i: int| BusinessSelectDirection::Down)
}

/// The moves from the first cell to cell `i`: down to its row, then right
/// when it is in the right column.
pub open spec fn path_to(i: nat) -> Seq<BusinessSelectDirection> {
    if i % 2 == 1 {
        downs(i / 2).push(BusinessSelectDirection::Right)
    } else {
        downs(i / 2)
    }
}

proof fn lemma_downs(row: nat, n: nat, len: nat, rest: Seq<BusinessSelectDirection>)
    requires
        2 * (row + n) < len,
    ensures
        navigate(2 * row, len, downs(n) + rest) == navigate(2 * (row + n), len, rest),
    decreases n,
{
    if n > 0 {
        assert((downs(n) + rest)[0] == BusinessSelectDirection::Down);
        assert((downs(n) + rest).drop_first() =~= downs((n - 1) as nat) + rest);
        assert(select_target(2 * row, len, BusinessSelectDirection::Down) == 2 * (row + 1));
        lemma_downs(row + 1, (n - 1) as nat, len, rest);
    } else {
        assert(downs(0) + rest =~= rest);
    }
}

/// Every cell of a grid of any size is reached from the first cell by
/// moving down to its row and then right to its column.
pub proof fn lemma_every_cell_reachable(i: nat, len: nat)
    requires
        i < len,
    ensures
        navigate(0, len, path_to(i)) == i,
{
    let right: Seq<BusinessSelectDirection> = seq![BusinessSelectDirection::Right];
    if i % 2 == 1 {
        assert(path_to(i) =~= downs(i / 2) + right);
        lemma_downs(0, i / 2, len, right);
        assert(right.drop_first() =~= Seq::<BusinessSelectDirection>::empty());
        let t = select_target(2 * (i / 2), len, right[0]);
        assert(navigate(t, len, right.drop_first()) == t);
        assert(navigate(2 * (i / 2), len, right) == t);
    } else {
        assert(path_to(i) =~= downs(i / 2) + Seq::<BusinessSelectDirection>::empty());
        lemma_downs(0, i / 2, len, Seq::<BusinessSelectDirection>::empty());
    }
}

/// Screen column of the panel of index `i`, for a grid at column `x`.
pub open spec fn cell_x(x: nat, i: nat) -> nat {
    if i % 2 == 0 {
        x + 1
    } else {
        x + 1 + COLUMN_PITCH as nat
    }
}

/// Screen row of the panel of index `i`, for a grid at row `y`.
pub open spec fn cell_y(y: nat, i: nat) -> nat {
    y + (i / 2) * (ROW_PITCH as nat) + 1
}

/// The rectangle that highlights the panel at (cx, cy), one cell outside it.
pub open spec fn highlight(cx: nat, cy: nat) -> Rectangle {
    Rectangle {
        x: (cx - 1) as u16,
        y: (cy - 1) as u16,
        width: HIGHLIGHT_WIDTH,
        height: HIGHLIGHT_HEIGHT,
    }
}

/// What a container is: its screen origin, its businesses in grid order and
/// the selected index.
pub struct ContainerView {
    pub x: u16,
    pub y: u16,
    pub businesses: Seq<BusinessView>,
    pub selected: Option<nat>,
}

impl ContainerView {
    /// At least one business, each well formed, and a selection among them.
    pub open spec fn wf(self) -> bool {
        &&& self.businesses.len() >= 1
        &&& self.selected is Some
        &&& self.selected->0 < self.businesses.len()
        &&& forall|i: int| 0 <= i < self.businesses.len() ==> #[trigger] self.businesses[i].wf()
    }

    /// Every panel and the highlight fall on positions the cursor can reach.
    pub open spec fn fits_screen(self) -> bool {
        &&& self.x + 1 + COLUMN_PITCH + HIGHLIGHT_WIDTH <= u16::MAX
        &&& cell_y(self.y as nat, (self.businesses.len() - 1) as nat) + HIGHLIGHT_HEIGHT <= u16::MAX
        &&& (self.x != 0 || self.y != 0)
    }

    /// The panel of index `i`, with the highlight when it is selected.
    pub open spec fn cell_text(self, i: nat) -> Seq<char> {
        let cx = cell_x(self.x as nat, i);
        let cy = cell_y(self.y as nat, i);
        goto_text(cx, cy) + self.businesses[i as int].panel_text() + if self.selected == Some(i) {
            highlight(cx, cy).text()
        } else {
            seq![]
        }
    }

    /// The first `n` cells of the grid.
    pub open spec fn grid_text(self, n: nat) -> Seq<char>
        decreases n,
    {
        if n == 0 {
            seq![]
        } else {
            self.grid_text((n - 1) as nat) + self.cell_text((n - 1) as nat)
        }
    }
}

/// Businesses laid out in two columns, with one of them selected.
pub struct BusinessContainer {
    pub x: u16,
    pub y: u16,
    businesses: Vec<Business>,
    selected: Option<usize>,
}

impl View for BusinessContainer {
    type V = ContainerView;

    closed spec fn view(&self) -> ContainerView {
        ContainerView {
            x: self.x,
            y: self.y,
            businesses: self.businesses@.map_values(|b: Business| b@),
            selected: match self.selected {
                Some(i) => Some(i as nat),
                None => None,
            },
        }
    }
}

impl BusinessContainer {
    /// A container at (x, y) holding `businesses`, the first one selected.
    pub fn new(x: u16, y: u16, businesses: Vec<Business>) -> (r: BusinessContainer)
        requires
            businesses@.len() >= 1,
            forall|i: int| 0 <= i < businesses@.len() ==> #[trigger] businesses@[i]@.wf(),
        ensures
            r@ == (ContainerView {
                x,
                y,
                businesses: businesses@.map_values(|b: Business| b@),
                selected: Some(0),
            }),
            r@.wf(),
    {
        BusinessContainer { x, y, businesses, selected: Some(0) }
    }

    /// The number of businesses.
    pub fn len(&self) -> (r: usize)
        ensures
            r == self@.businesses.len(),
    {
        self.businesses.len()
    }

    /// The business of index `i`.
    pub fn business(&self, i: usize) -> (r: &Business)
        requires
            i < self@.businesses.len(),
        ensures
            r@ == self@.businesses[i as int],
    {
        &self.businesses[i]
    }

    /// The selected index.
    pub fn selected(&self) -> (r: Option<usize>)
        ensures
            r is Some <==> self@.selected is Some,
            r is Some ==> r->0 == self@.selected->0,
    {
        self.selected
    }

    /// Moves the selection one cell in `direction`, staying put at the edge
    /// of the grid.
    pub fn select_business(&mut self, direction: BusinessSelectDirection)
        requires
            old(self)@.wf(),
        ensures
            final(self)@ == (ContainerView {
                selected: Some(
                    select_target(old(self)@.selected->0, old(self)@.businesses.len(), direction),
                ),
                ..old(self)@
            }),
            final(self)@.wf(),
    {
        let len = self.businesses.len();
        let sel = match self.selected {
            Some(i) => i,
            None => 0,
        };
        let next = match direction {
            BusinessSelectDirection::Up => if sel > 1 {
                sel - 2
            } else {
                sel
            },
            BusinessSelectDirection::Right => if sel % 2 == 0 && sel + 1 < len {
                sel + 1
            } else {
                sel
            },
            BusinessSelectDirection::Down => if sel < len && len - sel > 2 {
                sel + 2
            } else {
                sel
            },
            BusinessSelectDirection::Left => if sel % 2 == 1 {
                sel - 1
            } else {
                sel
            },
        };
        self.selected = Some(next);
        assert(self.businesses@.map_values(|b: Business| b@) =~= old(self)@.businesses);
    }

    /// Advances every business by `time`, in grid order. Entry `i` of the
    /// result is what business `i` paid, if its cycle completed.
    pub fn progress_all(&mut self, time: u64) -> (r: Vec<Option<u64>>)
        requires
            old(self)@.wf(),
            forall|i: int|
                0 <= i < old(self)@.businesses.len() ==> #[trigger] old(self)@.businesses[i].elapsed
                    + time <= u64::MAX,
        ensures
            final(self)@.wf(),
            final(self)@.x == old(self)@.x,
            final(self)@.y == old(self)@.y,
            final(self)@.selected == old(self)@.selected,
            final(self)@.businesses.len() == old(self)@.businesses.len(),
            r@.len() == old(self)@.businesses.len(),
            forall|i: int|
                0 <= i < r@.len() ==> {
                    &&& #[trigger] final(self)@.businesses[i] == old(self)@.businesses[i].advanced(
                        time as nat,
                    )
                    &&& (r@[i] is Some <==> old(self)@.businesses[i].completes(time as nat))
                    &&& (r@[i] is Some ==> r@[i]->0 == old(self)@.businesses[i].revenue())
                },
    {
        let mut payouts: Vec<Option<u64>> = Vec::new();
        let len = self.businesses.len();
        proof {
            assert forall|j: int| 0 <= j < len implies #[trigger] old(self).businesses@[j]@
                == old(self)@.businesses[j] by {}
        }
        let mut i: usize = 0;
        while i < len
            invariant
                len == self.businesses@.len(),
                len == old(self).businesses@.len(),
                i <= len,
                payouts@.len() == i,
                self.x == old(self).x,
                self.y == old(self).y,
                self.selected == old(self).selected,
                forall|j: int| 0 <= j < len ==> #[trigger] old(self).businesses@[j]@.elapsed + time
                    <= u64::MAX,
                forall|j: int| 0 <= j < len ==> #[trigger] old(self).businesses@[j]@.wf(),
                forall|j: int|
                    0 <= j < i ==> {
                        &&& #[trigger] self.businesses@[j]@ == old(self).businesses@[j]@.advanced(
                            time as nat,
                        )
                        &&& (payouts@[j] is Some <==> old(self).businesses@[j]@.completes(
                            time as nat,
                        ))
                        &&& (payouts@[j] is Some ==> payouts@[j]->0
                            == old(self).businesses@[j]@.revenue())
                    },
                forall|j: int| i <= j < len ==> #[trigger] self.businesses@[j] == old(self).businesses@[j],
            decreases len - i,
        {
            proof {
                assert(old(self).businesses@[i as int]@ == old(self)@.businesses[i as int]);
            }
            let paid = self.businesses[i].progress(time);
            payouts.push(paid);
            i = i + 1;
        }
        proof {
            assert forall|j: int| 0 <= j < len implies #[trigger] self@.businesses[j].wf() by {
                assert(self@.businesses[j] == self.businesses@[j]@);
                assert(old(self).businesses@[j]@.wf());
                assert(self.businesses@[j]@ == old(self).businesses@[j]@.advanced(time as nat));
            }
            assert forall|j: int| 0 <= j < len implies #[trigger] self@.businesses[j]
                == old(self)@.businesses[j].advanced(time as nat) by {
                assert(self@.businesses[j] == self.businesses@[j]@);
                assert(old(self).businesses@[j]@ == old(self)@.businesses[j]);
            }
        }
        payouts
    }

    /// The panel of index `i`, with the highlight when it is selected.
    fn render_cell(&self, i: usize) -> (r: String)
        requires
            self@.wf(),
            self@.fits_screen(),
            i < self@.businesses.len(),
        ensures
            r@ == self@.cell_text(i as nat),
    {
        let len = self.businesses.len();
        assert((i / 2) * 5 <= ((len - 1) / 2) * 5) by (nonlinear_arith)
            requires
                i < len,
        ;
        assert(ROW_PITCH == 5);
        let cx: u16 = if i % 2 == 0 {
            self.x + 1
        } else {
            self.x + 1 + COLUMN_PITCH
        };
        let cy: u16 = self.y + ((i / 2) * ROW_PITCH as usize) as u16 + 1;
        let mut s = goto(cx, cy);
        assert(self.businesses@[i as int]@ == self@.businesses[i as int]);
        s.append(self.businesses[i].render().as_str());
        let selected = match self.selected {
            Some(sel) => sel == i,
            None => false,
        };
        if selected {
            let frame = Rectangle {
                x: cx - 1,
                y: cy - 1,
                width: HIGHLIGHT_WIDTH,
                height: HIGHLIGHT_HEIGHT,
            };
            assert(frame == highlight(cx as nat, cy as nat));
            s.append(frame.render().as_str());
        }
        assert(s@ =~= self@.cell_text(i as nat));
        s
    }

    /// The grid: each panel at its cell, the selected one highlighted.
    pub fn render(&self) -> (r: String)
        requires
            self@.wf(),
            self@.fits_screen(),
        ensures
            r@ == self@.grid_text(self@.businesses.len()),
    {
        let mut s = String::new();
        let len = self.businesses.len();
        let mut i: usize = 0;
        while i < len
            invariant
                len == self@.businesses.len(),
                self@.wf(),
                self@.fits_screen(),
                i <= len,
                s@ == self@.grid_text(i as nat),
            decreases len - i,
        {
            s.append(self.render_cell(i).as_str());
            i = i + 1;
        }
        s
    }

    /// The selected business, to be changed in place.
    pub fn get_mut_selected_business(&mut self) -> (r: Option<&mut Business>)
        requires
            old(self)@.wf(),
        ensures
            r is Some,
            (*r->0)@ == old(self)@.businesses[old(self)@.selected->0 as int],
            final(self)@.x == old(self)@.x,
            final(self)@.y == old(self)@.y,
            final(self)@.selected == old(self)@.selected,
            final(self)@.businesses =~= old(self)@.businesses.update(
                old(self)@.selected->0 as int,
                (*final(r->0))@,
            ),
    {
        match self.selected {
            Some(i) => Some(&mut self.businesses[i]),
            None => None,
        }
    }
}

} // verus!
