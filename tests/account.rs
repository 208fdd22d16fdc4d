use bot_net_worth::account::Account;

#[test]
fn new_account_is_empty() {
    let a = Account::new(3, 4);
    assert_eq!(a.cash(), 0);
    assert_eq!(a.render(), "\u{1b}[4;3HCash on hand: $0.00");
}

#[test]
fn earn_and_spend_move_the_balance() {
    let mut a = Account::new(3, 4);
    a.earn(1205);
    assert_eq!(a.cash(), 1205);
    assert_eq!(a.render(), "\u{1b}[4;3HCash on hand: $12.05");
    a.spend(1300);
    assert_eq!(a.cash(), -95);
    assert_eq!(a.render(), "\u{1b}[4;3HCash on hand: $-0.95");
}
