//! The frame: one complete description of what the screen is to show.

use vstd::prelude::*;
use crate::entry::{Card, Column, Entry, EntryView, entries_view};
use crate::error::ErrorKind;
use crate::navigation::{NavigationState, NavigationView};

verus! {

/// The contents of a list of strings, in order.
pub open spec fn strings_view(strings: Seq<String>) -> Seq<Seq<char>> {
    strings.map_values(|s: String| s@)
}

/// The names of a list of entries, in order.
pub open spec fn spec_names(entries: Seq<EntryView>) -> Seq<Seq<char>> {
    entries.map_values(|e: EntryView| e.name)
}

/// The names of the given entries, in order.
pub fn names_of(entries: &Vec<Entry>) -> (names: Vec<String>)
    ensures
        strings_view(names@) == spec_names(entries_view(entries@)),
{
    let mut names: Vec<String> = Vec::new();
    let mut at: usize = 0;
    while at < entries.len()
        invariant
            at <= entries.len(),
            names@.len() == at,
            forall|i: int| 0 <= i < at ==> (#[trigger] names@[i])@ == entries@[i].name@,
        decreases entries.len() - at,
    {
        names.push(entries[at].name.clone());
        at = at + 1;
    }
    assert(strings_view(names@) == spec_names(entries_view(entries@)));
    names
}

/// One column on the screen: a bordered list with a title.
#[derive(Debug, PartialEq, Eq)]
pub struct Pane {
    /// The column's name.
    pub title: String,
    /// The names of the column's cards, from the first to the last.
    pub items: Vec<String>,
    /// Why the list is empty, where the cards could not be had.
    pub fault: Option<ErrorKind>,
}

/// The mathematical content of a [`Pane`].
pub ghost struct PaneView {
    pub title: Seq<char>,
    pub items: Seq<Seq<char>>,
    pub fault: Option<ErrorKind>,
}

impl View for Pane {
    type V = PaneView;

    open spec fn view(&self) -> PaneView {
        PaneView { title: self.title@, items: strings_view(self.items@), fault: self.fault }
    }
}

/// The contents of a list of panes, in order.
pub open spec fn panes_view(panes: Seq<Pane>) -> Seq<PaneView> {
    panes.map_values(|p: Pane| p@)
}

/// The pane of a column: its name as the title and the names of its cards as
/// the items. Where the cards could not be had, the pane is empty and says
/// why.
pub open spec fn spec_pane(
    column: EntryView,
    cards: Result<Seq<EntryView>, ErrorKind>,
) -> PaneView {
    match cards {
        Ok(cards) => PaneView { title: column.name, items: spec_names(cards), fault: None },
        Err(kind) => PaneView { title: column.name, items: Seq::empty(), fault: Some(kind) },
    }
}

impl Pane {
    /// The pane of a column, from what asking for its cards gave.
    pub fn of_column(column: &Column, cards: &Result<Vec<Card>, ErrorKind>) -> (pane: Pane)
        ensures
            pane@ == spec_pane(column@, crate::decode::outcome_view(*cards)),
    {
        match cards {
            Ok(cards) => Pane { title: column.name.clone(), items: names_of(cards), fault: None },
            Err(kind) => {
                let pane = Pane { title: column.name.clone(), items: Vec::new(), fault: Some(*kind) };
                assert(strings_view(pane.items@) == Seq::<Seq<char>>::empty());
                pane
            },
        }
    }
}

/// The lower row of the screen: the selected board with its columns side by
/// side.
#[derive(Debug, PartialEq, Eq)]
pub struct BoardPane {
    /// The board's name.
    pub title: String,
    /// One pane for each column, from the first to the last.
    pub columns: Vec<Pane>,
    /// Why there are no panes, where the columns could not be had.
    pub fault: Option<ErrorKind>,
}

/// The mathematical content of a [`BoardPane`].
pub ghost struct BoardPaneView {
    pub title: Seq<char>,
    pub columns: Seq<PaneView>,
    pub fault: Option<ErrorKind>,
}

impl View for BoardPane {
    type V = BoardPaneView;

    open spec fn view(&self) -> BoardPaneView {
        BoardPaneView { title: self.title@, columns: panes_view(self.columns@), fault: self.fault }
    }
}

/// The share of the board pane's width that each of `count` columns gets, in
/// whole percent.
pub open spec fn spec_column_width_percent(count: nat) -> Option<nat> {
    if count == 0 {
        None
    } else {
        Some(100nat / count)
    }
}

/// The share of the width for each of `count` columns side by side, in whole
/// percent, rounded down; `None` where there is no column to lay out.
pub fn column_width_percent(count: usize) -> (width: Option<u16>)
    ensures
        width is Some == spec_column_width_percent(count as nat) is Some,
        width matches Some(w) ==> spec_column_width_percent(count as nat) == Some(w as nat),
{
    if count == 0 {
        None
    } else if count > 100 {
        assert(100nat / (count as nat) == 0) by (nonlinear_arith)
            requires
                count > 100,
        ;
        Some(0)
    } else {
        let share: usize = 100 / count;
        assert(share <= 100) by (nonlinear_arith)
            requires
                share == 100int / (count as int),
                count > 0,
        ;
        Some(share as u16)
    }
}

impl BoardPane {
    /// The share of the width that each column pane gets.
    pub fn column_width(&self) -> (width: Option<u16>)
        ensures
            width is Some == spec_column_width_percent(self@.columns.len()) is Some,
            width matches Some(w) ==> spec_column_width_percent(self@.columns.len()) == Some(
                w as nat,
            ),
    {
        column_width_percent(self.columns.len())
    }
}

/// The contents of the board pane, if there is one.
pub open spec fn board_pane_view(board: Option<BoardPane>) -> Option<BoardPaneView> {
    match board {
        Some(board) => Some(board@),
        None => None,
    }
}

/// One complete description of the screen: the tab bar above, the selected
/// board below.
#[derive(Debug, PartialEq, Eq)]
pub struct Frame {
    /// The names of all boards, one tab each.
    pub tabs: Vec<String>,
    /// The position of the highlighted tab.
    pub selected: usize,
    /// The selected board; `None` where there are no boards.
    pub board: Option<BoardPane>,
}

/// The mathematical content of a [`Frame`].
pub ghost struct FrameView {
    pub tabs: Seq<Seq<char>>,
    pub selected: nat,
    pub board: Option<BoardPaneView>,
}

impl View for Frame {
    type V = FrameView;

    open spec fn view(&self) -> FrameView {
        FrameView {
            tabs: strings_view(self.tabs@),
            selected: self.selected as nat,
            board: board_pane_view(self.board),
        }
    }
}

/// The board pane for the selected board, given the panes of its columns.
pub open spec fn spec_board_pane(
    navigation: NavigationView,
    columns: Seq<PaneView>,
    fault: Option<ErrorKind>,
) -> BoardPaneView {
    BoardPaneView { title: navigation.boards[navigation.index as int].name, columns, fault }
}

/// The frame for a navigation state: a tab for every board, the selected one
/// highlighted, and below them the given board pane.
pub open spec fn spec_frame(navigation: NavigationView, board: Option<BoardPaneView>) -> FrameView {
    FrameView { tabs: spec_names(navigation.boards), selected: navigation.index, board }
}

impl Frame {
    /// The frame for a navigation state and the pane of its selected board.
    pub fn compose(navigation: &NavigationState, board: Option<BoardPane>) -> (frame: Frame)
        ensures
            frame@ == spec_frame(navigation@, board_pane_view(board)),
    {
        Frame { tabs: names_of(navigation.boards()), selected: navigation.index(), board }
    }
}

/// The frame of a valid navigation state that holds boards highlights one of
/// its tabs, and that tab and the board pane both carry the name of the
/// selected board.
pub proof fn lemma_frame_highlights_selected_board(
    navigation: NavigationView,
    columns: Seq<PaneView>,
    fault: Option<ErrorKind>,
)
    requires
        navigation.wf(),
        navigation.boards.len() > 0,
    ensures
        ({
            let board = spec_board_pane(navigation, columns, fault);
            let frame = spec_frame(navigation, Some(board));
            &&& frame.tabs.len() == navigation.boards.len()
            &&& frame.selected < frame.tabs.len()
            &&& frame.tabs[frame.selected as int] == board.title
            &&& board.title == navigation.boards[navigation.index as int].name
        }),
{
}

} // verus!
