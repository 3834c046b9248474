//! Tab navigation of the full-screen interface mode.

use tey_sh::session::{KeyEvent, KeyModifiers};
use tey_sh::tabs::{State, Tab};

#[test]
fn tabs_cycle_forward_and_backward() {
    let mut tab = Tab::new(4);
    assert_eq!(tab.get_current(), 0);
    tab.next();
    tab.next();
    assert_eq!(tab.get_current(), 2);
    tab.next();
    tab.next();
    assert_eq!(tab.get_current(), 0);
    tab.prev();
    assert_eq!(tab.get_current(), 3);
    tab.prev();
    assert_eq!(tab.get_current(), 2);
}

#[test]
fn state_routes_keys_to_navigation() {
    let mut state = State::new(4);
    assert!(!state.handle_event(KeyEvent::Tab));
    assert_eq!(state.tab.get_current(), 1);
    assert!(!state.handle_event(KeyEvent::BackTab));
    assert_eq!(state.tab.get_current(), 0);
    assert!(!state.handle_event(KeyEvent::Up));
    assert!(!state.handle_event(KeyEvent::Up));
    assert_eq!(state.row_index, 2);
    assert!(!state.handle_event(KeyEvent::Down));
    assert_eq!(state.row_index, 1);
    assert!(!state.handle_event(KeyEvent::Down));
    assert!(!state.handle_event(KeyEvent::Down));
    assert_eq!(state.row_index, 0);
}

#[test]
fn escape_and_q_leave_the_mode() {
    let mut state = State::new(2);
    assert!(state.handle_event(KeyEvent::Esc));
    assert!(state.handle_event(KeyEvent::Char('q', KeyModifiers::Plain)));
    assert!(!state.handle_event(KeyEvent::Char('w', KeyModifiers::Plain)));
    assert!(!state.handle_event(KeyEvent::Char('q', KeyModifiers::Control)));
}
