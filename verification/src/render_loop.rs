//! The render loop as a machine. One round asks for the columns of the
//! selected board, then for the cards of each column, hands the finished
//! frame to the renderer and waits for one event. The machine decides; its
//! driver fetches, paints and waits, and reports back.
//!
//! A data source that fails during a round does not end the loop: the pane
//! concerned is painted empty and carries the error, and the next round asks
//! again. Only a renderer that fails, or boards that cannot be loaded at the
//! start, end the loop with an error.

use vstd::prelude::*;
use crate::decode::outcome_view;
use crate::entry::{Board, Card, Column, EntryView, entries_view};
use crate::error::ErrorKind;
use crate::event::{Command, Event, Key, command_for, spec_command};
use crate::frame::{
    BoardPane, Frame, FrameView, Pane, PaneView, panes_view, spec_board_pane, spec_frame,
    spec_pane,
};
use crate::navigation::{
    NavigationState, NavigationView, lemma_wrap_next_step, lemma_wrap_previous_step, wrap_next,
    wrap_previous,
};

verus! {

/// What the driver reports back to the loop after it has done what the loop
/// asked for.
#[derive(Debug, PartialEq, Eq)]
pub enum Signal {
    /// What asking the data source for the columns of a board gave.
    Columns(Result<Vec<Column>, ErrorKind>),
    /// What asking the data source for the cards of a column gave.
    Cards(Result<Vec<Card>, ErrorKind>),
    /// The renderer has painted the frame.
    Painted,
    /// The renderer could not paint the frame.
    PaintFailed,
    /// The input stream has delivered its next event.
    Input(Event),
}

/// The mathematical content of a [`Signal`].
pub ghost enum SignalView {
    Columns(Result<Seq<EntryView>, ErrorKind>),
    Cards(Result<Seq<EntryView>, ErrorKind>),
    Painted,
    PaintFailed,
    Input(Event),
}

impl View for Signal {
    type V = SignalView;

    open spec fn view(&self) -> SignalView {
        match self {
            Signal::Columns(outcome) => SignalView::Columns(outcome_view(*outcome)),
            Signal::Cards(outcome) => SignalView::Cards(outcome_view(*outcome)),
            Signal::Painted => SignalView::Painted,
            Signal::PaintFailed => SignalView::PaintFailed,
            Signal::Input(event) => SignalView::Input(*event),
        }
    }
}

/// What the loop asks its driver to do next.
#[derive(Debug, PartialEq, Eq)]
pub enum Action {
    /// Ask the data source for the columns of this board and report them.
    ListColumns { board_id: String },
    /// Ask the data source for the cards of this column and report them.
    ListCards { column_id: String },
    /// Hand this frame to the renderer and report how it went.
    Paint(Frame),
    /// Block on the input stream for one event and report it.
    AwaitEvent,
    /// Leave the loop: restore the terminal, and exit with the error if
    /// there is one.
    Exit(Option<ErrorKind>),
    /// The signal was not the one awaited and was passed over; what the loop
    /// asked for before is still due.
    Pending,
}

/// The mathematical content of an [`Action`].
pub ghost enum ActionView {
    ListColumns { board_id: Seq<char> },
    ListCards { column_id: Seq<char> },
    Paint(FrameView),
    AwaitEvent,
    Exit(Option<ErrorKind>),
    Pending,
}

impl View for Action {
    type V = ActionView;

    open spec fn view(&self) -> ActionView {
        match self {
            Action::ListColumns { board_id } => ActionView::ListColumns { board_id: board_id@ },
            Action::ListCards { column_id } => ActionView::ListCards { column_id: column_id@ },
            Action::Paint(frame) => ActionView::Paint(frame@),
            Action::AwaitEvent => ActionView::AwaitEvent,
            Action::Exit(outcome) => ActionView::Exit(*outcome),
            Action::Pending => ActionView::Pending,
        }
    }
}

/// Where the loop stands within one round of fetch, paint and wait.
enum Stage {
    Columns,
    Cards { columns: Vec<Column>, panes: Vec<Pane> },
    Paint,
    Event,
    Finished(Option<ErrorKind>),
}

/// The mathematical content of the loop's stage.
pub ghost enum StageView {
    /// The columns of the selected board are awaited.
    Columns,
    /// The cards of the first column that has no pane yet are awaited.
    Cards { columns: Seq<EntryView>, panes: Seq<PaneView> },
    /// The renderer's report on the frame is awaited.
    Paint,
    /// The next input event is awaited.
    Event,
    /// The loop has ended, with this error if any.
    Finished(Option<ErrorKind>),
}

impl View for Stage {
    type V = StageView;

    closed spec fn view(&self) -> StageView {
        match self {
            Stage::Columns => StageView::Columns,
            Stage::Cards { columns, panes } => StageView::Cards {
                columns: entries_view(columns@),
                panes: panes_view(panes@),
            },
            Stage::Paint => StageView::Paint,
            Stage::Event => StageView::Event,
            Stage::Finished(outcome) => StageView::Finished(*outcome),
        }
    }
}

/// The mathematical content of a [`RenderLoop`].
pub ghost struct LoopView {
    pub navigation: NavigationView,
    pub stage: StageView,
}

impl LoopView {
    /// The selection is valid; columns and cards are only awaited for a
    /// board that exists, and cards only for a column that exists.
    pub open spec fn wf(self) -> bool {
        &&& self.navigation.wf()
        &&& self.stage is Columns ==> self.navigation.boards.len() > 0
        &&& self.stage matches StageView::Cards { columns, panes } ==> {
            &&& self.navigation.boards.len() > 0
            &&& panes.len() < columns.len()
        }
    }
}

/// How a round begins: with no boards there is nothing to fetch and the
/// frame, tab bar only, goes to the renderer at once; else the columns of
/// the selected board are asked for.
pub open spec fn spec_begin(navigation: NavigationView) -> (StageView, ActionView) {
    if navigation.boards.len() == 0 {
        (StageView::Paint, ActionView::Paint(spec_frame(navigation, None)))
    } else {
        (
            StageView::Columns,
            ActionView::ListColumns { board_id: navigation.boards[navigation.index as int].id },
        )
    }
}

/// How the loop starts: on the boards that were loaded, with the first one
/// selected, at the beginning of a round. Where they could not be loaded,
/// it ends at once with the error.
pub open spec fn spec_launch(boards: Result<Seq<EntryView>, ErrorKind>) -> (LoopView, ActionView) {
    match boards {
        Ok(boards) => {
            let navigation = NavigationView { boards, index: 0 };
            (LoopView { navigation, stage: spec_begin(navigation).0 }, spec_begin(navigation).1)
        },
        Err(kind) => (
            LoopView {
                navigation: NavigationView { boards: Seq::empty(), index: 0 },
                stage: StageView::Finished(Some(kind)),
            },
            ActionView::Exit(Some(kind)),
        ),
    }
}

/// The navigation state after a command.
pub open spec fn spec_navigate(navigation: NavigationView, command: Command) -> NavigationView {
    match command {
        Command::NextBoard => NavigationView {
            index: wrap_next(navigation.index, navigation.boards.len()),
            ..navigation
        },
        Command::PreviousBoard => NavigationView {
            index: wrap_previous(navigation.index, navigation.boards.len()),
            ..navigation
        },
        _ => navigation,
    }
}

/// The frame that shows the selected board with the given column panes.
pub open spec fn spec_board_frame(
    navigation: NavigationView,
    panes: Seq<PaneView>,
    fault: Option<ErrorKind>,
) -> FrameView {
    spec_frame(navigation, Some(spec_board_pane(navigation, panes, fault)))
}

/// The loop's transition: the state and the action that follow from a state
/// and a signal.
///
/// - Columns arrive: with none, or with a failure, the board pane is painted
///   empty (and says why); else the cards of the first column are asked for.
/// - Cards arrive: they make the pane of their column, empty where they
///   failed; then the cards of the next column are asked for, or after the
///   last column the frame is painted.
/// - The frame is painted: the next event is awaited. It could not be
///   painted: the loop ends in `RendererFailure`.
/// - An event arrives: `q` ends the loop; the arrows move the selection;
///   then, whatever the event was, the next round begins.
/// - Once ended, the loop answers every signal with the same exit.
/// - A signal that is not awaited changes nothing.
pub open spec fn spec_step(state: LoopView, signal: SignalView) -> (LoopView, ActionView) {
    match (state.stage, signal) {
        (StageView::Finished(outcome), _) => (state, ActionView::Exit(outcome)),
        (StageView::Columns, SignalView::Columns(Ok(columns))) => if columns.len() == 0 {
            (
                LoopView { stage: StageView::Paint, ..state },
                ActionView::Paint(spec_board_frame(state.navigation, Seq::empty(), None)),
            )
        } else {
            (
                LoopView { stage: StageView::Cards { columns, panes: Seq::empty() }, ..state },
                ActionView::ListCards { column_id: columns[0].id },
            )
        },
        (StageView::Columns, SignalView::Columns(Err(kind))) => (
            LoopView { stage: StageView::Paint, ..state },
            ActionView::Paint(spec_board_frame(state.navigation, Seq::empty(), Some(kind))),
        ),
        (StageView::Cards { columns, panes }, SignalView::Cards(cards)) => {
            let panes = panes.push(spec_pane(columns[panes.len() as int], cards));
            if panes.len() < columns.len() {
                (
                    LoopView { stage: StageView::Cards { columns, panes }, ..state },
                    ActionView::ListCards { column_id: columns[panes.len() as int].id },
                )
            } else {
                (
                    LoopView { stage: StageView::Paint, ..state },
                    ActionView::Paint(spec_board_frame(state.navigation, panes, None)),
                )
            }
        },
        (StageView::Paint, SignalView::Painted) => (
            LoopView { stage: StageView::Event, ..state },
            ActionView::AwaitEvent,
        ),
        (StageView::Paint, SignalView::PaintFailed) => (
            LoopView { stage: StageView::Finished(Some(ErrorKind::RendererFailure)), ..state },
            ActionView::Exit(Some(ErrorKind::RendererFailure)),
        ),
        (StageView::Event, SignalView::Input(event)) => {
            let command = spec_command(event);
            if command == Command::Quit {
                (LoopView { stage: StageView::Finished(None), ..state }, ActionView::Exit(None))
            } else {
                let navigation = spec_navigate(state.navigation, command);
                (LoopView { navigation, stage: spec_begin(navigation).0 }, spec_begin(navigation).1)
            }
        },
        _ => (state, ActionView::Pending),
    }
}

/// The driver of the dashboard, as a machine: it is told what happened and
/// says what to do next. It never fetches, paints or waits itself.
pub struct RenderLoop {
    navigation: NavigationState,
    stage: Stage,
}

impl View for RenderLoop {
    type V = LoopView;

    closed spec fn view(&self) -> LoopView {
        LoopView { navigation: self.navigation@, stage: self.stage@ }
    }
}

impl RenderLoop {
    #[verifier::type_invariant]
    spec fn inv(self) -> bool {
        self@.wf()
    }

    /// Puts the loop at the start of a round.
    fn begin(navigation: NavigationState) -> (begun: (RenderLoop, Action))
        ensures
            begun.0@.navigation == navigation@,
            (begun.0@.stage, begun.1@) == spec_begin(navigation@),
            begun.0@.wf(),
    {
        match navigation.current() {
            Ok(board) => {
                let board_id = board.id.clone();
                (RenderLoop { navigation, stage: Stage::Columns }, Action::ListColumns { board_id })
            },
            Err(_) => {
                let frame = Frame::compose(&navigation, None);
                (RenderLoop { navigation, stage: Stage::Paint }, Action::Paint(frame))
            },
        }
    }

    /// Starts the loop on the boards that were loaded, the first one
    /// selected.
    pub fn start(boards: Vec<Board>) -> (begun: (RenderLoop, Action))
        ensures
            (begun.0@, begun.1@) == spec_launch(Ok(entries_view(boards@))),
            begun.0@.wf(),
    {
        RenderLoop::begin(NavigationState::new(boards))
    }

    /// Starts the loop on what loading the boards gave. With the boards it
    /// starts as [`RenderLoop::start`] does. Without them there is nothing
    /// to show: the loop is over before its first round, and the first
    /// action is the exit with the error.
    pub fn launch(boards: Result<Vec<Board>, ErrorKind>) -> (begun: (RenderLoop, Action))
        ensures
            (begun.0@, begun.1@) == spec_launch(outcome_view(boards)),
            begun.0@.wf(),
    {
        match boards {
            Ok(boards) => RenderLoop::start(boards),
            Err(kind) => {
                let navigation = NavigationState::new(Vec::new());
                assert(navigation@.boards == Seq::<EntryView>::empty());
                (
                    RenderLoop { navigation, stage: Stage::Finished(Some(kind)) },
                    Action::Exit(Some(kind)),
                )
            },
        }
    }

    /// The frame that shows the selected board with the given column panes.
    fn board_frame(navigation: &NavigationState, panes: Vec<Pane>, fault: Option<ErrorKind>) -> (frame:
        Frame)
        requires
            navigation@.boards.len() > 0,
        ensures
            frame@ == spec_board_frame(navigation@, panes_view(panes@), fault),
    {
        let title = match navigation.current() {
            Ok(board) => board.name.clone(),
            Err(_) => String::new(),
        };
        Frame::compose(navigation, Some(BoardPane { title, columns: panes, fault }))
    }

    /// Takes what the driver reports and says what it is to do next.
    pub fn step(self, signal: Signal) -> (next: (RenderLoop, Action))
        ensures
            (next.0@, next.1@) == spec_step(self@, signal@),
            next.0@.wf(),
    {
        proof {
            use_type_invariant(&self);
        }
        let RenderLoop { navigation, stage } = self;
        match (stage, signal) {
            (Stage::Finished(outcome), _) => (
                RenderLoop { navigation, stage: Stage::Finished(outcome) },
                Action::Exit(outcome),
            ),
            (Stage::Columns, Signal::Columns(Ok(columns))) => {
                if columns.len() == 0 {
                    let frame = RenderLoop::board_frame(&navigation, Vec::new(), None);
                    assert(panes_view(Seq::<Pane>::empty()) == Seq::<PaneView>::empty());
                    (RenderLoop { navigation, stage: Stage::Paint }, Action::Paint(frame))
                } else {
                    let column_id = columns[0].id.clone();
                    let panes: Vec<Pane> = Vec::new();
                    assert(panes_view(panes@) == Seq::<PaneView>::empty());
                    (
                        RenderLoop { navigation, stage: Stage::Cards { columns, panes } },
                        Action::ListCards { column_id },
                    )
                }
            },
            (Stage::Columns, Signal::Columns(Err(kind))) => {
                let frame = RenderLoop::board_frame(&navigation, Vec::new(), Some(kind));
                assert(panes_view(Seq::<Pane>::empty()) == Seq::<PaneView>::empty());
                (RenderLoop { navigation, stage: Stage::Paint }, Action::Paint(frame))
            },
            (Stage::Cards { columns, panes }, Signal::Cards(cards)) => {
                let mut panes = panes;
                let ghost before = panes@;
                let pane = Pane::of_column(&columns[panes.len()], &cards);
                panes.push(pane);
                assert(panes_view(panes@) == panes_view(before).push(pane@));
                if panes.len() < columns.len() {
                    let column_id = columns[panes.len()].id.clone();
                    (
                        RenderLoop { navigation, stage: Stage::Cards { columns, panes } },
                        Action::ListCards { column_id },
                    )
                } else {
                    let frame = RenderLoop::board_frame(&navigation, panes, None);
                    (RenderLoop { navigation, stage: Stage::Paint }, Action::Paint(frame))
                }
            },
            (Stage::Paint, Signal::Painted) => (
                RenderLoop { navigation, stage: Stage::Event },
                Action::AwaitEvent,
            ),
            (Stage::Paint, Signal::PaintFailed) => (
                RenderLoop {
                    navigation,
                    stage: Stage::Finished(Some(ErrorKind::RendererFailure)),
                },
                Action::Exit(Some(ErrorKind::RendererFailure)),
            ),
            (Stage::Event, Signal::Input(event)) => {
                let mut navigation = navigation;
                match command_for(event) {
                    Command::Quit => (
                        RenderLoop { navigation, stage: Stage::Finished(None) },
                        Action::Exit(None),
                    ),
                    Command::NextBoard => {
                        navigation.next();
                        RenderLoop::begin(navigation)
                    },
                    Command::PreviousBoard => {
                        navigation.previous();
                        RenderLoop::begin(navigation)
                    },
                    Command::Redraw => RenderLoop::begin(navigation),
                }
            },
            (stage, _) => (RenderLoop { navigation, stage }, Action::Pending),
        }
    }

    /// The boards and the selection.
    pub fn navigation(&self) -> (navigation: &NavigationState)
        ensures
            navigation@ == self@.navigation,
    {
        &self.navigation
    }

    /// Whether the loop has ended.
    pub fn is_finished(&self) -> (finished: bool)
        ensures
            finished == (self@.stage is Finished),
    {
        match self.stage {
            Stage::Finished(_) => true,
            _ => false,
        }
    }
}

/// The loop's state stays well-formed whatever the driver reports: the
/// selection never leaves the range of the boards.
pub proof fn lemma_step_keeps_well_formed(state: LoopView, signal: SignalView)
    requires
        state.wf(),
    ensures
        spec_step(state, signal).0.wf(),
        spec_step(state, signal).0.navigation.boards == state.navigation.boards,
{
    let len = state.navigation.boards.len();
    if len > 0 {
        lemma_wrap_next_step(state.navigation.index, len);
        lemma_wrap_previous_step(state.navigation.index, len);
    }
}

/// While the loop waits for an event, `q` ends it at once: the very next
/// action is the exit, without an error, and nothing else has changed.
pub proof fn lemma_quit_ends_loop(state: LoopView)
    requires
        state.stage is Event,
    ensures
        spec_step(state, SignalView::Input(Event::Input(Key::Char('q')))) == (
            LoopView { stage: StageView::Finished(None), ..state },
            ActionView::Exit(None),
        ),
{
}

/// Once the loop has ended it stays ended and keeps giving the same exit.
pub proof fn lemma_finished_is_final(state: LoopView, signal: SignalView)
    requires
        state.stage is Finished,
    ensures
        spec_step(state, signal) == (state, ActionView::Exit(state.stage->Finished_0)),
{
}

/// The state and the action after the driver has reported, one after the
/// other, what asking for the cards of the next columns gave.
pub open spec fn spec_after_cards(
    state: LoopView,
    replies: Seq<Result<Seq<EntryView>, ErrorKind>>,
) -> (LoopView, ActionView)
    decreases replies.len(),
{
    if replies.len() == 0 {
        (state, ActionView::Pending)
    } else {
        spec_step(
            spec_after_cards(state, replies.drop_last()).0,
            SignalView::Cards(replies.last()),
        )
    }
}

/// The panes of the first columns, each from the reply for its column.
pub open spec fn spec_panes(
    columns: Seq<EntryView>,
    replies: Seq<Result<Seq<EntryView>, ErrorKind>>,
) -> Seq<PaneView> {
    Seq::new(replies.len(), |i: int| spec_pane(columns[i], replies[i]))
}

/// One round builds the board pane column by column: after the columns have
/// arrived, the loop asks for the cards of each column once, in the
/// columns' order, and each reply becomes the pane of its column. After the
/// last reply the frame with exactly these panes goes to the renderer.
pub proof fn lemma_round_asks_each_column_once(
    state: LoopView,
    replies: Seq<Result<Seq<EntryView>, ErrorKind>>,
)
    requires
        state.wf(),
        state.stage is Cards,
        state.stage->Cards_panes.len() == 0,
        0 < replies.len() <= state.stage->Cards_columns.len(),
    ensures
        spec_after_cards(state, replies).0.navigation == state.navigation,
        replies.len() < state.stage->Cards_columns.len() ==> spec_after_cards(state, replies) == (
            LoopView {
                stage: StageView::Cards {
                    columns: state.stage->Cards_columns,
                    panes: spec_panes(state.stage->Cards_columns, replies),
                },
                ..state
            },
            ActionView::ListCards {
                column_id: state.stage->Cards_columns[replies.len() as int].id,
            },
        ),
        replies.len() == state.stage->Cards_columns.len() ==> spec_after_cards(state, replies) == (
            LoopView { stage: StageView::Paint, ..state },
            ActionView::Paint(
                spec_board_frame(
                    state.navigation,
                    spec_panes(state.stage->Cards_columns, replies),
                    None,
                ),
            ),
        ),
    decreases replies.len(),
{
    let columns = state.stage->Cards_columns;
    let earlier = replies.drop_last();
    let before = if earlier.len() == 0 {
        state
    } else {
        lemma_round_asks_each_column_once(state, earlier);
        spec_after_cards(state, earlier).0
    };
    assert(before.stage == StageView::Cards { columns, panes: spec_panes(columns, earlier) }) by {
        if earlier.len() == 0 {
            assert(state.stage->Cards_panes == spec_panes(columns, earlier));
        }
    }
    assert(spec_panes(columns, earlier).push(spec_pane(columns[earlier.len() as int], replies.last()))
        == spec_panes(columns, replies));
}

} // verus!
