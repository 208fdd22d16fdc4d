use bot_net_worth::account::Account;
use bot_net_worth::business::{Business, BusinessSelectDirection};
use bot_net_worth::game::{
    command_for_key, handle_key, init_businesses, show_upgrade_option, upgrade_business,
    upgrade_label, Command, KeyOutcome,
};
use bot_net_worth::menu::Menu;

#[test]
fn upgrade_needs_strictly_more_cash_than_its_cost() {
    let mut account = Account::new(3, 4);
    account.earn(100);
    let mut business = Business::new("b".to_string(), 10, 1, 100);
    upgrade_business(&mut account, &mut business);
    assert_eq!(business.level(), 1);
    assert_eq!(account.cash(), 100);
}

#[test]
fn upgrade_with_enough_cash_spends_the_cost() {
    let mut account = Account::new(3, 4);
    account.earn(101);
    let mut business = Business::new("b".to_string(), 10, 1, 100);
    upgrade_business(&mut account, &mut business);
    assert_eq!(business.level(), 2);
    assert_eq!(account.cash(), 1);
}

#[test]
fn upgrade_with_a_negative_balance_does_nothing() {
    let mut account = Account::new(3, 4);
    account.spend(5);
    let mut business = Business::new("b".to_string(), 10, 1, 0);
    upgrade_business(&mut account, &mut business);
    assert_eq!(business.level(), 1);
    assert_eq!(account.cash(), -5);
}

#[test]
fn keys_map_to_commands() {
    assert!(matches!(command_for_key(b'q'), Command::Quit));
    assert!(matches!(command_for_key(b'1'), Command::Upgrade));
    assert!(matches!(command_for_key(65), Command::Select(BusinessSelectDirection::Up)));
    assert!(matches!(command_for_key(66), Command::Select(BusinessSelectDirection::Down)));
    assert!(matches!(command_for_key(67), Command::Select(BusinessSelectDirection::Right)));
    assert!(matches!(command_for_key(68), Command::Select(BusinessSelectDirection::Left)));
    assert!(matches!(command_for_key(b'x'), Command::Other(120)));
}

#[test]
fn upgrade_label_shows_dollars_and_cents() {
    assert_eq!(upgrade_label(100), "Upgrade for $1.00");
    assert_eq!(upgrade_label(320005), "Upgrade for $3200.05");
}

#[test]
fn starting_businesses() {
    let mut cont = init_businesses(4, 6);
    assert_eq!(cont.len(), 6);
    assert_eq!(cont.selected(), Some(0));
    assert_eq!(cont.business(0).name, "Crypto Mining");
    assert_eq!(cont.business(0).level_up_cost, 100);
    assert_eq!(cont.business(5).name, "NFT Storage");
    assert_eq!(cont.business(5).sale_time(), 22 * 60 * 1_000_000_000);
    assert_eq!(cont.business(5).revenue(), 16000);
    let b = cont.get_mut_selected_business().unwrap();
    assert_eq!(b.revenue(), 5);
}

#[test]
fn keys_drive_the_game() {
    let mut account = Account::new(3, 4);
    account.earn(1000);
    let mut cont = init_businesses(4, 6);
    assert!(matches!(handle_key(b'C', &mut account, &mut cont), KeyOutcome::Selected));
    assert_eq!(cont.selected(), Some(1));
    // 60.00 costs more than 10.00: nothing happens.
    assert!(matches!(handle_key(b'1', &mut account, &mut cont), KeyOutcome::Upgraded));
    assert_eq!(cont.business(1).level(), 1);
    assert_eq!(account.cash(), 1000);
    assert!(matches!(handle_key(b'D', &mut account, &mut cont), KeyOutcome::Selected));
    assert!(matches!(handle_key(b'1', &mut account, &mut cont), KeyOutcome::Upgraded));
    assert_eq!(cont.business(0).level(), 2);
    assert_eq!(account.cash(), 900);
    assert!(matches!(handle_key(b'z', &mut account, &mut cont), KeyOutcome::Echo(122)));
    assert!(matches!(handle_key(b'q', &mut account, &mut cont), KeyOutcome::Quit));
    assert_eq!(cont.selected(), Some(0));
    assert_eq!(account.cash(), 900);
}

#[test]
fn menu_offers_the_selected_upgrade() {
    let mut menu = Menu::new(3, 24, vec!["old".to_string(), "older".to_string()]);
    let cont = init_businesses(4, 6);
    show_upgrade_option(&mut menu, cont.business(2));
    assert_eq!(menu.len(), 1);
    assert_eq!(menu.option(0), "1. Upgrade for $140.00");
    assert_eq!(menu.render(), "\u{1b}[24;3H1. Upgrade for $140.00");
}
