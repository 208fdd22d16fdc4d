//! The game's rules that join the account, the businesses and the keyboard.
use crate::account::{Account, AccountView};
use crate::business::{
    select_target, Business, BusinessContainer, BusinessSelectDirection, BusinessView,
    ContainerView, NANOS_PER_SECOND,
};
use crate::menu::{numbered, Menu, MenuView};
use crate::terminal::{amount_string, money_text};
use vstd::prelude::*;

verus! {

/// What a key press asks for.
pub enum Command {
    Quit,
    Upgrade,
    Select(BusinessSelectDirection),
    Other(u8),
}

/// The command of a key byte: `q` quits, `1` upgrades, and the final bytes
/// of the arrow keys' escape codes (`A` up, `B` down, `C` right, `D` left)
/// move the selection.
pub open spec fn command_spec(key: u8) -> Command {
    if key == 113 {
        Command::Quit
    } else if key == 49 {
        Command::Upgrade
    } else if key == 65 {
        Command::Select(BusinessSelectDirection::Up)
    } else if key == 66 {
        Command::Select(BusinessSelectDirection::Down)
    } else if key == 67 {
        Command::Select(BusinessSelectDirection::Right)
    } else if key == 68 {
        Command::Select(BusinessSelectDirection::Left)
    } else {
        Command::Other(key)
    }
}

pub fn command_for_key(key: u8) -> (r: Command)
    ensures
        r == command_spec(key),
{
    if key == 113 {
        Command::Quit
    } else if key == 49 {
        Command::Upgrade
    } else if key == 65 {
        Command::Select(BusinessSelectDirection::Up)
    } else if key == 66 {
        Command::Select(BusinessSelectDirection::Down)
    } else if key == 67 {
        Command::Select(BusinessSelectDirection::Right)
    } else if key == 68 {
        Command::Select(BusinessSelectDirection::Left)
    } else {
        Command::Other(key)
    }
}

/// The account and the business after an attempt to buy the next level:
/// when the cost is strictly below the balance, the cost leaves the account
/// and the level rises by one; otherwise neither changes.
pub open spec fn upgrade_outcome(a: AccountView, b: BusinessView) -> (AccountView, BusinessView) {
    if b.upgrade_cost < a.cash {
        (
            AccountView { cash: a.cash - b.upgrade_cost, ..a },
            BusinessView { level: b.level + 1, ..b },
        )
    } else {
        (a, b)
    }
}

/// Buys the next level of `business` if the account can afford it.
pub fn upgrade_business(account: &mut Account, business: &mut Business)
    requires
        old(business)@.wf(),
        old(business)@.level < u16::MAX,
    ensures
        final(business)@.wf(),
        (final(account)@, final(business)@) == upgrade_outcome(old(account)@, old(business)@),
{
    let cash = account.cash();
    let cost = business.level_up_cost();
    if cash > 0 && cost < cash as u64 {
        account.spend(cost);
        business.upgrade();
    }
}

/// What the front end does after a key has been handled.
pub enum KeyOutcome {
    /// Leave the game.
    Quit,
    /// The selection was asked to move: the menu is to be rebuilt.
    Selected,
    /// An upgrade of the selected business was attempted.
    Upgraded,
    /// The key means nothing to the game; it may be echoed.
    Echo(u8),
}

/// Acts on one key: an upgrade of the selected business, a move of the
/// selection, or nothing, and says what the front end should do next.
pub fn handle_key(key: u8, account: &mut Account, businesses: &mut BusinessContainer) -> (r:
    KeyOutcome)
    requires
        old(businesses)@.wf(),
        command_spec(key) is Upgrade ==> old(businesses)@.businesses[old(
            businesses,
        )@.selected->0 as int].level < u16::MAX,
    ensures
        final(businesses)@.wf(),
        match command_spec(key) {
            Command::Quit => {
                &&& r == KeyOutcome::Quit
                &&& final(account)@ == old(account)@
                &&& final(businesses)@ == old(businesses)@
            },
            Command::Upgrade => {
                let sel = old(businesses)@.selected->0 as int;
                let outcome = upgrade_outcome(old(account)@, old(businesses)@.businesses[sel]);
                &&& r == KeyOutcome::Upgraded
                &&& final(account)@ == outcome.0
                &&& final(businesses)@ == (ContainerView {
                    businesses: old(businesses)@.businesses.update(sel, outcome.1),
                    ..old(businesses)@
                })
            },
            Command::Select(direction) => {
                &&& r == KeyOutcome::Selected
                &&& final(account)@ == old(account)@
                &&& final(businesses)@ == (ContainerView {
                    selected: Some(
                        select_target(
                            old(businesses)@.selected->0,
                            old(businesses)@.businesses.len(),
                            direction,
                        ),
                    ),
                    ..old(businesses)@
                })
            },
            Command::Other(b) => {
                &&& r == KeyOutcome::Echo(b)
                &&& final(account)@ == old(account)@
                &&& final(businesses)@ == old(businesses)@
            },
        },
{
    match command_for_key(key) {
        Command::Quit => KeyOutcome::Quit,
        Command::Upgrade => {
            match businesses.get_mut_selected_business() {
                Some(b) => upgrade_business(account, b),
                None => {},
            }
            proof {
                let sel = old(businesses)@.selected->0 as int;
                let ghost bs = businesses@.businesses;
                assert forall|i: int| 0 <= i < bs.len() implies #[trigger] bs[i].wf() by {
                    if i != sel {
                        assert(bs[i] == old(businesses)@.businesses[i]);
                    }
                }
                assert(businesses@.businesses =~= old(businesses)@.businesses.update(
                    sel,
                    upgrade_outcome(old(account)@, old(businesses)@.businesses[sel]).1,
                ));
            }
            KeyOutcome::Upgraded
        },
        Command::Select(direction) => {
            businesses.select_business(direction);
            KeyOutcome::Selected
        },
        Command::Other(b) => KeyOutcome::Echo(b),
    }
}

/// The menu line that offers the next level of a business.
pub open spec fn upgrade_label_text(cost: nat) -> Seq<char> {
    "Upgrade for $"@ + money_text(cost as int)
}

pub fn upgrade_label(cost: u64) -> (r: String)
    ensures
        r@ == upgrade_label_text(cost as nat),
{
    let mut s = String::from_str("Upgrade for $");
    s.append(amount_string(cost).as_str());
    s
}

/// Makes the menu offer the next level of `business`, and nothing else.
pub fn show_upgrade_option(menu: &mut Menu, business: &Business)
    ensures
        final(menu)@ == (MenuView {
            options: seq![numbered(1, upgrade_label_text(business@.upgrade_cost))],
            ..old(menu)@
        }),
{
    menu.clear_options();
    menu.add_option(upgrade_label(business.level_up_cost()));
    assert(menu@.options =~= seq![numbered(1, upgrade_label_text(business@.upgrade_cost))]);
}

/// Nanoseconds in `secs` seconds.
fn seconds(secs: u64) -> (r: u64)
    requires
        secs <= 1_000_000,
    ensures
        r == secs * NANOS_PER_SECOND,
{
    secs * NANOS_PER_SECOND
}

/// The businesses a new game starts with, at screen position (x, y).
pub fn init_businesses(x: u16, y: u16) -> (r: BusinessContainer)
    ensures
        r@.wf(),
        r@.x == x,
        r@.y == y,
        r@.selected == Some(0nat),
        r@.businesses.len() == 6,
        forall|i: int| 0 <= i < 6 ==> (#[trigger] r@.businesses[i]).level == 1,
        forall|i: int| 0 <= i < 6 ==> (#[trigger] r@.businesses[i]).elapsed == 0,
{
    let list = vec![
        Business::new(String::from_str("Crypto Mining"), seconds(10), 5, 100),
        Business::new(String::from_str("Selling RAM Online"), seconds(30), 300, 6000),
        Business::new(String::from_str("Antivirus Software"), seconds(60), 700, 14000),
        Business::new(String::from_str("Floppy Discs"), seconds(60 * 3), 2500, 40000),
        Business::new(String::from_str("Extra USB Ports"), seconds(60 * 10), 6000, 120000),
        Business::new(String::from_str("NFT Storage"), seconds(60 * 22), 16000, 320000),
    ];
    BusinessContainer::new(x, y, list)
}

} // verus!
