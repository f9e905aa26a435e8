use trello_tui::entry::Entry;
use trello_tui::error::ErrorKind;
use trello_tui::frame::{column_width_percent, names_of, BoardPane, Frame, Pane};
use trello_tui::navigation::NavigationState;

fn entry(id: &str, name: &str) -> Entry {
    Entry::new(id.to_string(), name.to_string())
}

#[test]
fn width_is_a_whole_share_of_one_hundred() {
    assert_eq!(column_width_percent(1), Some(100));
    assert_eq!(column_width_percent(2), Some(50));
    assert_eq!(column_width_percent(3), Some(33));
    assert_eq!(column_width_percent(7), Some(14));
    assert_eq!(column_width_percent(100), Some(1));
    assert_eq!(column_width_percent(101), Some(0));
    assert_eq!(column_width_percent(usize::MAX), Some(0));
}

#[test]
fn no_columns_have_no_width() {
    assert_eq!(column_width_percent(0), None);
    let board = BoardPane { title: "Work".to_string(), columns: Vec::new(), fault: None };
    assert_eq!(board.column_width(), None);
}

#[test]
fn names_come_in_order() {
    let entries = vec![entry("k2", "Walk dog"), entry("k1", "Buy milk"), entry("k3", "Walk dog")];
    assert_eq!(names_of(&entries), vec!["Walk dog", "Buy milk", "Walk dog"]);
    assert!(names_of(&Vec::new()).is_empty());
}

#[test]
fn pane_lists_the_cards_of_its_column() {
    let pane = Pane::of_column(
        &entry("c1", "Todo"),
        &Ok(vec![entry("k1", "Buy milk"), entry("k2", "Walk dog")]),
    );
    assert_eq!(
        pane,
        Pane {
            title: "Todo".to_string(),
            items: vec!["Buy milk".to_string(), "Walk dog".to_string()],
            fault: None,
        }
    );
}

#[test]
fn pane_of_a_failed_column_is_empty_and_says_why() {
    let pane = Pane::of_column(&entry("c1", "Todo"), &Err(ErrorKind::DecodeError));
    assert_eq!(
        pane,
        Pane { title: "Todo".to_string(), items: Vec::new(), fault: Some(ErrorKind::DecodeError) }
    );
}

#[test]
fn frame_has_a_tab_for_every_board() {
    let mut navigation = NavigationState::new(vec![entry("b1", "Work"), entry("b2", "Home")]);
    navigation.next();
    let frame = Frame::compose(&navigation, None);
    assert_eq!(
        frame,
        Frame { tabs: vec!["Work".to_string(), "Home".to_string()], selected: 1, board: None }
    );
}

#[test]
fn board_pane_splits_the_width_among_its_columns() {
    let pane = |title: &str| Pane { title: title.to_string(), items: Vec::new(), fault: None };
    let board = BoardPane {
        title: "Work".to_string(),
        columns: vec![pane("Todo"), pane("Doing"), pane("Done")],
        fault: None,
    };
    assert_eq!(board.column_width(), Some(33));
}
