use trello_tui::entry::Entry;
use trello_tui::error::ErrorKind;
use trello_tui::navigation::NavigationState;

fn board(id: &str, name: &str) -> Entry {
    Entry::new(id.to_string(), name.to_string())
}

fn three_boards() -> Vec<Entry> {
    vec![board("b1", "Work"), board("b2", "Home"), board("b3", "Garden")]
}

#[test]
fn right_arrow_twice_wraps_to_first_board() {
    let mut state = NavigationState::new(vec![board("b1", "Work"), board("b2", "Home")]);
    assert_eq!(state.index(), 0);
    assert_eq!(state.current().unwrap().name, "Work");
    state.next();
    assert_eq!(state.index(), 1);
    assert_eq!(state.current().unwrap().name, "Home");
    state.next();
    assert_eq!(state.index(), 0);
    assert_eq!(state.current().unwrap().name, "Work");
}

#[test]
fn next_once_per_board_returns_to_every_start() {
    for start in 0..3 {
        let mut state = NavigationState::new(three_boards());
        for _ in 0..start {
            state.next();
        }
        assert_eq!(state.index(), start);
        for _ in 0..3 {
            state.next();
        }
        assert_eq!(state.index(), start);
    }
}

#[test]
fn previous_once_per_board_returns_to_every_start() {
    for start in 0..3 {
        let mut state = NavigationState::new(three_boards());
        for _ in 0..start {
            state.next();
        }
        for _ in 0..3 {
            state.previous();
        }
        assert_eq!(state.index(), start);
    }
}

#[test]
fn previous_from_first_selects_last() {
    let mut state = NavigationState::new(three_boards());
    state.previous();
    assert_eq!(state.index(), 2);
    assert_eq!(state.current().unwrap().id, "b3");
    state.previous();
    assert_eq!(state.index(), 1);
}

#[test]
fn next_visits_boards_in_order() {
    let mut state = NavigationState::new(three_boards());
    let mut seen = Vec::new();
    for _ in 0..4 {
        seen.push(state.current().unwrap().id.clone());
        state.next();
    }
    assert_eq!(seen, vec!["b1", "b2", "b3", "b1"]);
}

#[test]
fn previous_undoes_next() {
    let mut state = NavigationState::new(three_boards());
    state.next();
    state.next();
    state.next();
    state.previous();
    assert_eq!(state.index(), 2);
    state.next();
    state.previous();
    assert_eq!(state.index(), 2);
}

#[test]
fn single_board_stays_selected() {
    let mut state = NavigationState::new(vec![board("b1", "Work")]);
    state.next();
    assert_eq!(state.index(), 0);
    state.previous();
    assert_eq!(state.index(), 0);
    assert_eq!(state.current().unwrap().name, "Work");
}

#[test]
fn empty_navigation_ignores_next_and_previous() {
    let mut state = NavigationState::new(Vec::new());
    assert!(state.is_empty());
    assert_eq!(state.index(), 0);
    state.next();
    assert_eq!(state.index(), 0);
    assert!(state.boards().is_empty());
    state.previous();
    assert_eq!(state.index(), 0);
    assert!(state.boards().is_empty());
}

#[test]
fn empty_navigation_has_no_current_board() {
    let state = NavigationState::new(Vec::new());
    assert_eq!(state.current(), Err(ErrorKind::NoBoards));
}

#[test]
fn boards_keep_their_order() {
    let state = NavigationState::new(three_boards());
    assert!(!state.is_empty());
    assert_eq!(state.boards(), &three_boards());
}

#[test]
fn copies_of_an_entry_are_equal_to_it() {
    let work = board("b1", "Work");
    assert_eq!(work.duplicate(), work);
    assert_eq!(work.clone(), board("b1", "Work"));
    assert_eq!(work.id, "b1");
    assert_eq!(work.name, "Work");
}
