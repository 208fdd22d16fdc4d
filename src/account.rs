//! The player's cash balance, in cents.
use crate::terminal::{goto, goto_text, money_string, money_text};
use vstd::prelude::*;

verus! {

pub struct Account {
    pub x: u16,
    pub y: u16,
    cash: i64,
}

/// What an account holds: its screen position and its balance in cents.
pub struct AccountView {
    pub x: u16,
    pub y: u16,
    pub cash: int,
}

impl View for Account {
    type V = AccountView;

    closed spec fn view(&self) -> AccountView {
        AccountView { x: self.x, y: self.y, cash: self.cash as int }
    }
}

/// The balance line as it is shown.
pub open spec fn account_text(a: AccountView) -> Seq<char> {
    goto_text(a.x as nat, a.y as nat) + "Cash on hand: $"@ + money_text(a.cash)
}

impl Account {

    /// A new account at screen position (x, y), holding nothing.
    pub fn new(x: u16, y: u16) -> (r: Account)
        ensures
            r@ == (AccountView { x, y, cash: 0 }),
    {
        Account { x, y, cash: 0 }
    }

    pub fn earn(&mut self, amount: u64)
        requires
            old(self)@.cash + amount <= i64::MAX,
        ensures
            final(self)@ == (AccountView { cash: old(self)@.cash + amount, ..old(self)@ }),
    {
        self.cash = (self.cash as i128 + amount as i128) as i64;
    }

    /// Takes `amount` off the balance; the balance may go below zero.
    pub fn spend(&mut self, amount: u64)
        requires
            old(self)@.cash - amount >= i64::MIN,
        ensures
            final(self)@ == (AccountView { cash: old(self)@.cash - amount, ..old(self)@ }),
    {
        self.cash = (self.cash as i128 - amount as i128) as i64;
    }

    pub fn cash(&self) -> (r: i64)
        ensures
            r as int == self@.cash,
    {
        self.cash
    }

    pub fn render(&self) -> (r: String)
        requires
            self@.x != 0 || self@.y != 0,
        ensures
            r@ == account_text(self@),
    {
        let mut s = goto(self.x, self.y);
        s.append("Cash on hand: $");
        assert(s@ =~= goto_text(self.x as nat, self.y as nat) + "Cash on hand: $"@);
        s.append(money_string(self.cash).as_str());
        s
    }
}

} // verus!
