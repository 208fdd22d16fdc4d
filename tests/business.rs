use bot_net_worth::business::{
    progress_bar_text, timer_string, Business, BusinessContainer, BusinessSelectDirection,
};
use bot_net_worth::shapes::rectangle::Rectangle;

const MS: u64 = 1_000_000;
const SEC: u64 = 1_000_000_000;
const FULL: &str = "\u{2588}";

fn four_antivirus() -> BusinessContainer {
    BusinessContainer::new(
        1,
        1,
        vec![
            Business::new("Antivirus Software".to_string(), 60 * SEC, 700, 100),
            Business::new("Antivirus Software".to_string(), 60 * SEC, 700, 100),
            Business::new("Antivirus Software".to_string(), 60 * SEC, 700, 100),
            Business::new("Antivirus Software".to_string(), 60 * SEC, 700, 100),
        ],
    )
}

fn container_of(n: usize) -> BusinessContainer {
    let list = (0..n).map(|_| Business::new("b".to_string(), SEC, 1, 1)).collect();
    BusinessContainer::new(1, 1, list)
}

#[test]
fn test_business_progress() {
    let mut business = Business::new("asdf".to_string(), 1500 * MS, 100, 100);

    let mut result = business.progress(0);
    assert!(result.is_none());
    assert_eq!(business.sale_progress(), 0);

    assert_eq!(business.level(), 1);
    result = business.progress(1000 * MS);
    assert!(result.is_none());
    assert!(business.sale_progress() > 0);

    result = business.progress(1000 * MS);
    assert!(result.is_some_and(|x| x == 100));
    assert_eq!(business.sale_progress(), 0);
}

#[test]
fn cycle_of_1500ms_completes_on_second_second() {
    let mut business = Business::new("asdf".to_string(), 1500 * MS, 250, 100);
    assert_eq!(business.progress(1000 * MS), None);
    assert_eq!(business.sale_progress(), 1000 * MS);
    assert_eq!(business.progress(1000 * MS), Some(250));
    assert_eq!(business.sale_progress(), 0);
    assert_eq!(business.sale_time(), 1500 * MS);
}

#[test]
fn landing_exactly_on_the_cycle_end_does_not_complete() {
    let mut business = Business::new("b".to_string(), 3000, 7, 1);
    assert_eq!(business.progress(1000), None);
    assert_eq!(business.progress(1000), None);
    assert_eq!(business.progress(1000), None);
    assert_eq!(business.sale_progress(), 3000);
    assert_eq!(business.progress(1000), Some(7));
    assert_eq!(business.sale_progress(), 0);
}

#[test]
fn zero_length_cycle_completes_on_any_progress() {
    let mut business = Business::new("b".to_string(), 0, 3, 1);
    assert_eq!(business.progress(0), None);
    assert_eq!(business.progress(1), Some(3));
}

#[test]
fn revenue_scales_with_level() {
    let mut business = Business::new("b".to_string(), 10, 300, 1);
    assert_eq!(business.revenue(), 300);
    business.upgrade();
    business.upgrade();
    assert_eq!(business.level(), 3);
    assert_eq!(business.revenue(), 900);
    assert_eq!(business.progress(11), Some(900));
}

#[test]
fn progress_bar_at_half_is_ten_cells_and_thinnest_glyph() {
    assert_eq!(progress_bar_text(1, 2), format!("{}\u{258F}", FULL.repeat(10)));
}

#[test]
fn progress_bar_at_fifty_five_hundredths() {
    // 0.55 of 20 cells is exactly 11 cells, which leaves no fraction.
    assert_eq!(progress_bar_text(11, 20), format!("{}\u{258F}", FULL.repeat(11)));
}

#[test]
fn progress_bar_partial_glyph_follows_the_fraction() {
    // 0.54 of 20 cells is 10.8 cells: 10 full and the glyph of floor(0.8 * 8) = 6.
    assert_eq!(progress_bar_text(27, 50), format!("{}\u{2589}", FULL.repeat(10)));
}

#[test]
fn progress_bar_edges() {
    assert_eq!(progress_bar_text(0, 10), "");
    assert_eq!(progress_bar_text(10, 10), FULL.repeat(20));
    assert_eq!(progress_bar_text(1, 1000), "\u{258F}");
}

#[test]
fn timer_pads_each_part() {
    assert_eq!(timer_string(0), "00:00:00");
    assert_eq!(timer_string(3 * 3600 + 7 * 60 + 5), "03:07:05");
    assert_eq!(timer_string(100 * 3600 + 59), "100:00:59");
}

#[test]
fn panel_of_a_fresh_business() {
    let b = Business::new("Crypto Mining".to_string(), 10 * SEC, 5, 100);
    assert_eq!(
        b.render(),
        format!(
            "Crypto Mining\n\u{1b}[13DLevel: 1 Revenue: $0.05\n\u{1b}[23D[{}]00:00:10",
            " ".repeat(20)
        )
    );
}

#[test]
fn panel_half_way_through_the_cycle() {
    let mut b = Business::new("Crypto Mining".to_string(), 10 * SEC, 5, 100);
    b.upgrade();
    assert_eq!(b.progress(5 * SEC + 700 * MS), None);
    assert_eq!(
        b.render(),
        format!(
            "Crypto Mining\n\u{1b}[13DLevel: 2 Revenue: $0.10\n\u{1b}[23D[{}\u{258C}{}]00:00:04",
            FULL.repeat(11),
            " ".repeat(8)
        )
    );
}

#[test]
fn test_business_container_select_business() {
    let mut cont = four_antivirus();

    assert!(cont.selected().is_some_and(|x| x == 0));

    // Down
    cont.select_business(BusinessSelectDirection::Down);
    assert!(cont.selected().is_some_and(|x| x == 2));
    cont.select_business(BusinessSelectDirection::Down);
    assert!(cont.selected().is_some_and(|x| x == 2));

    // Up
    cont.select_business(BusinessSelectDirection::Up);
    assert!(cont.selected().is_some_and(|x| x == 0));
    cont.select_business(BusinessSelectDirection::Up);
    assert!(cont.selected().is_some_and(|x| x == 0));

    // Right
    cont.select_business(BusinessSelectDirection::Right);
    assert!(cont.selected().is_some_and(|x| x == 1));
    cont.select_business(BusinessSelectDirection::Right);
    assert!(cont.selected().is_some_and(|x| x == 1));

    // Left
    cont.select_business(BusinessSelectDirection::Left);
    assert!(cont.selected().is_some_and(|x| x == 0));
    cont.select_business(BusinessSelectDirection::Left);
    assert!(cont.selected().is_some_and(|x| x == 0));
}

#[test]
fn navigation_sequence_on_four_businesses() {
    let mut cont = four_antivirus();
    let moves = [
        BusinessSelectDirection::Down,
        BusinessSelectDirection::Down,
        BusinessSelectDirection::Up,
        BusinessSelectDirection::Up,
        BusinessSelectDirection::Right,
        BusinessSelectDirection::Right,
        BusinessSelectDirection::Left,
        BusinessSelectDirection::Left,
    ];
    let mut seen = vec![];
    for m in moves {
        cont.select_business(m);
        seen.push(cont.selected().unwrap());
    }
    assert_eq!(seen, vec![2, 2, 0, 0, 1, 1, 0, 0]);
}

#[test]
fn single_business_never_moves() {
    let mut cont = container_of(1);
    for m in [
        BusinessSelectDirection::Down,
        BusinessSelectDirection::Right,
        BusinessSelectDirection::Up,
        BusinessSelectDirection::Left,
    ] {
        cont.select_business(m);
        assert_eq!(cont.selected(), Some(0));
    }
}

#[test]
fn odd_length_last_row_has_no_right_cell() {
    let mut cont = container_of(3);
    cont.select_business(BusinessSelectDirection::Down);
    assert_eq!(cont.selected(), Some(2));
    cont.select_business(BusinessSelectDirection::Right);
    assert_eq!(cont.selected(), Some(2));
    cont.select_business(BusinessSelectDirection::Up);
    cont.select_business(BusinessSelectDirection::Right);
    assert_eq!(cont.selected(), Some(1));
    cont.select_business(BusinessSelectDirection::Down);
    assert_eq!(cont.selected(), Some(1));
}

#[test]
fn every_index_reachable_and_none_out_of_range() {
    let dirs = [
        BusinessSelectDirection::Up,
        BusinessSelectDirection::Right,
        BusinessSelectDirection::Down,
        BusinessSelectDirection::Left,
    ];
    for n in 1..=9usize {
        let mut reached = vec![false; n];
        // Walk every sequence of up to four moves from the first cell.
        for code in 0..(4usize.pow(4)) {
            let mut cont = container_of(n);
            let mut c = code;
            for _ in 0..4 {
                cont.select_business(match dirs[c % 4] {
                    BusinessSelectDirection::Up => BusinessSelectDirection::Up,
                    BusinessSelectDirection::Right => BusinessSelectDirection::Right,
                    BusinessSelectDirection::Down => BusinessSelectDirection::Down,
                    BusinessSelectDirection::Left => BusinessSelectDirection::Left,
                });
                c /= 4;
                let s = cont.selected().unwrap();
                assert!(s < n);
                reached[s] = true;
            }
        }
        // Rows further down need more moves than four; walk straight there.
        for i in 0..n {
            let mut cont = container_of(n);
            for _ in 0..i / 2 {
                cont.select_business(BusinessSelectDirection::Down);
            }
            if i % 2 == 1 {
                cont.select_business(BusinessSelectDirection::Right);
            }
            assert_eq!(cont.selected(), Some(i));
            reached[i] = true;
        }
        assert!(reached.iter().all(|r| *r));
    }
}

#[test]
fn selected_business_is_changed_in_place() {
    let mut cont = four_antivirus();
    cont.select_business(BusinessSelectDirection::Right);
    cont.get_mut_selected_business().unwrap().upgrade();
    assert_eq!(cont.business(1).level(), 2);
    assert_eq!(cont.business(0).level(), 1);
    assert_eq!(cont.len(), 4);
}

#[test]
fn progress_all_reports_each_payout() {
    let mut cont = BusinessContainer::new(
        1,
        1,
        vec![
            Business::new("fast".to_string(), 10, 4, 1),
            Business::new("slow".to_string(), 100, 9, 1),
        ],
    );
    assert_eq!(cont.progress_all(6), vec![None, None]);
    assert_eq!(cont.progress_all(6), vec![Some(4), None]);
    assert_eq!(cont.business(0).sale_progress(), 0);
    assert_eq!(cont.business(1).sale_progress(), 12);
}

#[test]
fn grid_places_panels_and_highlights_the_selection() {
    let mut cont = BusinessContainer::new(
        4,
        6,
        vec![
            Business::new("A".to_string(), SEC, 1, 1),
            Business::new("B".to_string(), SEC, 1, 1),
            Business::new("C".to_string(), SEC, 1, 1),
        ],
    );
    cont.select_business(BusinessSelectDirection::Down);
    let a = cont.business(0).render();
    let b = cont.business(1).render();
    let c = cont.business(2).render();
    let frame = Rectangle { x: 4, y: 11, width: 33, height: 6 }.render();
    assert_eq!(
        cont.render(),
        format!("\u{1b}[7;5H{a}\u{1b}[7;49H{b}\u{1b}[12;5H{c}{frame}")
    );
}
