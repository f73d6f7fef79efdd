use redox_console::app::{digit_ordinal, poll_timeout_ms, tick_due, App, Key};
use redox_console::status::Status;
use redox_console::system::SystemState;
use redox_console::tabs::TabsState;

#[test]
fn fresh_app_shows_the_first_of_ten_views() {
    let a = App::new();
    assert_eq!(a.tabs.index, 0);
    assert!(a.enhanced_view);
    let expected = [
        "Overview",
        "Kernel",
        "Filesystem",
        "Processes",
        "Network",
        "Security",
        "Packages",
        "DevTools",
        "Plugins",
        "Config",
    ];
    assert_eq!(a.tabs.titles.len(), expected.len());
    for (title, want) in a.tabs.titles.iter().zip(expected.iter()) {
        assert_eq!(title, want);
    }
}

#[test]
fn digit_keys_map_to_ordinals_off_by_one() {
    assert_eq!(digit_ordinal('1'), Some(0));
    assert_eq!(digit_ordinal('2'), Some(1));
    assert_eq!(digit_ordinal('3'), Some(2));
    assert_eq!(digit_ordinal('4'), Some(3));
    assert_eq!(digit_ordinal('5'), Some(4));
    assert_eq!(digit_ordinal('6'), Some(5));
    assert_eq!(digit_ordinal('7'), Some(6));
    assert_eq!(digit_ordinal('8'), Some(7));
    assert_eq!(digit_ordinal('9'), Some(8));
    assert_eq!(digit_ordinal('0'), Some(9));
    assert_eq!(digit_ordinal('x'), None);
    assert_eq!(digit_ordinal(' '), None);
}

#[test]
fn zero_key_selects_the_tenth_view_from_any_index() {
    for start in 0..10usize {
        let mut a = App::new();
        a.tabs.index = start;
        let quit = a.on_key(Key::Char('0'));
        assert!(!quit);
        assert_eq!(a.tabs.index, 9);
    }
}

#[test]
fn digit_keys_select_their_view() {
    let mut a = App::new();
    assert!(!a.on_key(Key::Char('5')));
    assert_eq!(a.tabs.index, 4);
    assert!(!a.on_key(Key::Char('1')));
    assert_eq!(a.tabs.index, 0);
    assert!(!a.on_key(Key::Char('9')));
    assert_eq!(a.tabs.index, 8);
}

#[test]
fn navigation_keys_step_and_wrap() {
    let mut a = App::new();
    assert!(!a.on_key(Key::Tab));
    assert_eq!(a.tabs.index, 1);
    assert!(!a.on_key(Key::Right));
    assert_eq!(a.tabs.index, 2);
    assert!(!a.on_key(Key::BackTab));
    assert_eq!(a.tabs.index, 1);
    assert!(!a.on_key(Key::Left));
    assert_eq!(a.tabs.index, 0);
    assert!(!a.on_key(Key::Left));
    assert_eq!(a.tabs.index, 9);
    assert!(!a.on_key(Key::Right));
    assert_eq!(a.tabs.index, 0);
}

#[test]
fn quit_keys_terminate_and_change_nothing() {
    let mut a = App::new();
    a.tabs.index = 3;
    let cpu = a.system.cpu_usage;
    assert!(a.on_key(Key::Char('q')));
    assert!(a.on_key(Key::Esc));
    assert_eq!(a.tabs.index, 3);
    assert_eq!(a.system.cpu_usage, cpu);
}

#[test]
fn unbound_keys_are_ignored() {
    let mut a = App::new();
    a.tabs.index = 2;
    let before_history = a.system.cpu_history.len();
    assert!(!a.on_key(Key::Char('z')));
    assert!(!a.on_key(Key::Char(' ')));
    assert_eq!(a.tabs.index, 2);
    assert_eq!(a.system.cpu_history.len(), before_history);
}

#[test]
fn toggle_keys_flip_the_subsystems() {
    let mut a = App::new();
    assert_eq!(a.system.kernel_status.network_stack, Status::Offline);
    assert!(!a.on_key(Key::Char('n')));
    assert_eq!(a.system.kernel_status.network_stack, Status::Online);
    assert_eq!(a.system.network_interfaces[0].ip, "192.168.1.100");
    assert!(!a.on_key(Key::Char('o')));
    assert_eq!(a.system.subsystem_status.gui_orbital, Status::Online);
    assert_eq!(a.system.services[3].status, "RUNNING");
}

#[test]
fn refresh_key_and_tick_both_sample_once() {
    let mut a = App::new();
    let h0 = a.system.cpu_history.len();
    assert!(!a.on_key(Key::Char('r')));
    assert_eq!(a.system.cpu_history.len(), h0 + 1);
    a.on_tick();
    assert_eq!(a.system.cpu_history.len(), h0 + 2);
    assert_eq!(a.tabs.index, 0);
}

#[test]
fn digit_keys_beyond_the_view_count_are_a_no_op() {
    let titles = vec!["One".to_string(), "Two".to_string(), "Three".to_string()];
    let mut a = App { tabs: TabsState::new(titles), system: SystemState::init(0, 600), enhanced_view: true };
    a.tabs.index = 1;
    assert!(!a.on_key(Key::Char('9')));
    assert_eq!(a.tabs.index, 1);
    assert!(!a.on_key(Key::Char('0')));
    assert_eq!(a.tabs.index, 1);
    assert!(!a.on_key(Key::Char('2')));
    assert_eq!(a.tabs.index, 1);
    assert!(!a.on_key(Key::Char('3')));
    assert_eq!(a.tabs.index, 2);
}

#[test]
fn poll_timeout_is_the_remaining_tick_budget() {
    assert_eq!(poll_timeout_ms(0), 250);
    assert_eq!(poll_timeout_ms(100), 150);
    assert_eq!(poll_timeout_ms(249), 1);
    assert_eq!(poll_timeout_ms(250), 0);
    assert_eq!(poll_timeout_ms(10_000), 0);
    assert!(!tick_due(249));
    assert!(tick_due(250));
    assert!(tick_due(251));
}
