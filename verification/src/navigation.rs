//! The tab selection: which boards there are and which one is shown.
//! Stepping past either end wraps around to the other.

use vstd::prelude::*;
use vstd::arithmetic::div_mod::{lemma_small_mod, lemma_mod_self_0, lemma_mod_add_multiples_vanish};
use crate::entry::{Board, EntryView, entries_view};
use crate::error::ErrorKind;

verus! {

/// The index that follows `index` among `len` tabs, wrapping to the first
/// after the last. With no tabs the index stays as it is.
pub open spec fn wrap_next(index: nat, len: nat) -> nat {
    if len == 0 {
        index
    } else {
        (index + 1) % len
    }
}

/// The index that precedes `index` among `len` tabs, wrapping to the last
/// before the first. With no tabs the index stays as it is.
pub open spec fn wrap_previous(index: nat, len: nat) -> nat {
    if len == 0 {
        index
    } else {
        ((index + len - 1) % (len as int)) as nat
    }
}

/// Which boards there are and which of them is selected.
pub struct NavigationState {
    boards: Vec<Board>,
    index: usize,
}

/// The mathematical content of a [`NavigationState`].
pub ghost struct NavigationView {
    pub boards: Seq<EntryView>,
    pub index: nat,
}

impl NavigationView {
    /// The selected index names a board, or there is none and it rests at 0.
    pub open spec fn wf(self) -> bool {
        if self.boards.len() == 0 {
            self.index == 0
        } else {
            self.index < self.boards.len()
        }
    }
}

impl View for NavigationState {
    type V = NavigationView;

    closed spec fn view(&self) -> NavigationView {
        NavigationView { boards: entries_view(self.boards@), index: self.index as nat }
    }
}

impl NavigationState {
    #[verifier::type_invariant]
    spec fn inv(self) -> bool {
        self@.wf()
    }

    /// Starts on the first of the given boards.
    pub fn new(boards: Vec<Board>) -> (state: NavigationState)
        ensures
            state@.boards == entries_view(boards@),
            state@.boards.len() == boards@.len(),
            state@.index == 0,
            state@.wf(),
    {
        NavigationState { boards, index: 0 }
    }

    /// Selects the board after the current one, or the first after the last.
    /// With no boards nothing changes.
    pub fn next(&mut self)
        ensures
            final(self)@.boards == old(self)@.boards,
            final(self)@.index == wrap_next(old(self)@.index, old(self)@.boards.len()),
            old(self)@.boards.len() == 0 ==> final(self)@ == old(self)@,
            final(self)@.wf(),
    {
        proof {
            use_type_invariant(&*self);
        }
        let len = self.boards.len();
        if len > 0 {
            proof {
                lemma_wrap_next_step(self.index as nat, len as nat);
            }
            if self.index + 1 == len {
                self.index = 0;
            } else {
                self.index = self.index + 1;
            }
        }
    }

    /// Selects the board before the current one, or the last before the
    /// first. With no boards nothing changes.
    pub fn previous(&mut self)
        ensures
            final(self)@.boards == old(self)@.boards,
            final(self)@.index == wrap_previous(old(self)@.index, old(self)@.boards.len()),
            old(self)@.boards.len() == 0 ==> final(self)@ == old(self)@,
            final(self)@.wf(),
    {
        proof {
            use_type_invariant(&*self);
        }
        let len = self.boards.len();
        if len > 0 {
            proof {
                lemma_wrap_previous_step(self.index as nat, len as nat);
            }
            if self.index == 0 {
                self.index = len - 1;
            } else {
                self.index = self.index - 1;
            }
        }
    }

    /// The selected board, or `NoBoards` when there is none to select.
    pub fn current(&self) -> (board: Result<&Board, ErrorKind>)
        ensures
            self@.wf(),
            self@.boards.len() == 0 <==> board is Err,
            board is Err ==> board == Err::<&Board, ErrorKind>(ErrorKind::NoBoards),
            board matches Ok(b) ==> b@ == self@.boards[self@.index as int],
    {
        proof {
            use_type_invariant(self);
        }
        if self.boards.len() == 0 {
            Err(ErrorKind::NoBoards)
        } else {
            Ok(&self.boards[self.index])
        }
    }

    /// The boards, in the order in which they were loaded.
    pub fn boards(&self) -> (boards: &Vec<Board>)
        ensures
            entries_view(boards@) == self@.boards,
    {
        &self.boards
    }

    /// The position of the selected board; 0 when there are no boards.
    pub fn index(&self) -> (index: usize)
        ensures
            index == self@.index,
            self@.wf(),
    {
        proof {
            use_type_invariant(self);
        }
        self.index
    }

    /// Whether there is no board to select.
    pub fn is_empty(&self) -> (empty: bool)
        ensures
            empty == (self@.boards.len() == 0),
    {
        self.boards.len() == 0
    }
}

/// One step forward from a valid index: the next index, or 0 from the last.
pub proof fn lemma_wrap_next_step(index: nat, len: nat)
    requires
        index < len,
    ensures
        wrap_next(index, len) == (if index + 1 == len { 0 } else { index + 1 }) as nat,
        wrap_next(index, len) < len,
{
    if index + 1 == len {
        lemma_mod_self_0(len as int);
    } else {
        lemma_small_mod(index + 1, len);
    }
}

/// One step back from a valid index: the index before, or the last from 0.
pub proof fn lemma_wrap_previous_step(index: nat, len: nat)
    requires
        index < len,
    ensures
        wrap_previous(index, len) == (if index == 0 { len - 1 } else { index - 1 }) as nat,
        wrap_previous(index, len) < len,
{
    if index == 0 {
        lemma_small_mod((len - 1) as nat, len);
    } else {
        lemma_mod_add_multiples_vanish(index - 1, len as int);
        lemma_small_mod((index - 1) as nat, len);
    }
}

/// The index reached from `index` by `count` steps forward among `len` tabs.
pub open spec fn next_times(index: nat, len: nat, count: nat) -> nat
    decreases count,
{
    if count == 0 {
        index
    } else {
        wrap_next(next_times(index, len, (count - 1) as nat), len)
    }
}

/// The index reached from `index` by `count` steps back among `len` tabs.
pub open spec fn previous_times(index: nat, len: nat, count: nat) -> nat
    decreases count,
{
    if count == 0 {
        index
    } else {
        wrap_previous(previous_times(index, len, (count - 1) as nat), len)
    }
}

/// Where `count` steps forward lead, for up to one full round.
proof fn lemma_next_times_position(index: nat, len: nat, count: nat)
    requires
        index < len,
        count <= len,
    ensures
        next_times(index, len, count) == (if index + count < len {
            index + count
        } else {
            (index + count - len) as nat
        }),
    decreases count,
{
    if count > 0 {
        lemma_next_times_position(index, len, (count - 1) as nat);
        lemma_wrap_next_step(next_times(index, len, (count - 1) as nat), len);
    }
}

/// Where `count` steps back lead, for up to one full round.
proof fn lemma_previous_times_position(index: nat, len: nat, count: nat)
    requires
        index < len,
        count <= len,
    ensures
        previous_times(index, len, count) == (if count <= index {
            (index - count) as nat
        } else {
            (index + len - count) as nat
        }),
    decreases count,
{
    if count > 0 {
        lemma_previous_times_position(index, len, (count - 1) as nat);
        lemma_wrap_previous_step(previous_times(index, len, (count - 1) as nat), len);
    }
}

/// Going forward once for every board leads back to the board one started
/// from.
pub proof fn lemma_next_full_cycle(index: nat, len: nat)
    requires
        len > 0,
        index < len,
    ensures
        next_times(index, len, len) == index,
{
    lemma_next_times_position(index, len, len);
}

/// Going back once for every board leads back to the board one started from.
pub proof fn lemma_previous_full_cycle(index: nat, len: nat)
    requires
        len > 0,
        index < len,
    ensures
        previous_times(index, len, len) == index,
{
    lemma_previous_times_position(index, len, len);
}

/// A step back undoes a step forward, and a step forward a step back.
pub proof fn lemma_previous_undoes_next(index: nat, len: nat)
    requires
        index < len,
    ensures
        wrap_previous(wrap_next(index, len), len) == index,
        wrap_next(wrap_previous(index, len), len) == index,
{
    lemma_wrap_next_step(index, len);
    lemma_wrap_previous_step(index, len);
    lemma_wrap_previous_step(wrap_next(index, len), len);
    lemma_wrap_next_step(wrap_previous(index, len), len);
}

} // verus!
