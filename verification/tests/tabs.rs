use redox_console::tabs::TabsState;

fn ten_tabs() -> TabsState {
    let titles: Vec<String> = (1..=10).map(|i| format!("View {}", i)).collect();
    TabsState::new(titles)
}

#[test]
fn next_wraps_past_the_last_tab() {
    let mut t = ten_tabs();
    for expected in [1, 2, 3, 4, 5, 6, 7, 8, 9, 0] {
        t.next();
        assert_eq!(t.index, expected);
    }
}

#[test]
fn next_count_times_returns_to_start() {
    for start in 0..10usize {
        let mut t = ten_tabs();
        t.index = start;
        for _ in 0..10 {
            t.next();
        }
        assert_eq!(t.index, start);
    }
}

#[test]
fn previous_count_times_returns_to_start() {
    for start in 0..10usize {
        let mut t = ten_tabs();
        t.index = start;
        for _ in 0..10 {
            t.previous();
        }
        assert_eq!(t.index, start);
    }
}

#[test]
fn previous_from_first_wraps_to_last() {
    let mut t = ten_tabs();
    assert_eq!(t.index, 0);
    t.previous();
    assert_eq!(t.index, 9);
}

#[test]
fn select_in_range_moves_out_of_range_is_no_op() {
    let mut t = TabsState::new(vec!["a".to_string(), "b".to_string(), "c".to_string()]);
    t.select(2);
    assert_eq!(t.index, 2);
    t.select(7);
    assert_eq!(t.index, 2);
    t.select(0);
    assert_eq!(t.index, 0);
}
