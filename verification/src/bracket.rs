//! The change brackets: the paired notifications that delimit a structural
//! change, and the record that a model keeps of them.

use vstd::prelude::*;

verus! {

/// The most rows a model can hold: the view counts rows in 32-bit integers.
pub const MAX_ROWS: usize = 0x7fff_ffff;

/// What a model tells its view about a structural change.
#[derive(Clone, Copy, Debug, PartialEq, Eq, Structural)]
pub enum Notification {
    /// Rows are about to be inserted; they will be the rows `first..=last`.
    BeginInsert { first: i32, last: i32 },
    /// The rows announced by the last `BeginInsert` are in place.
    EndInsert,
    /// Every row is about to be replaced; every index issued so far is dead.
    BeginReset,
    /// The replacement announced by the last `BeginReset` is in place.
    EndReset,
}

/// Where a model stands in the bracket protocol.
#[derive(Clone, Copy, Debug, PartialEq, Eq, Structural)]
pub enum Phase {
    /// No bracket is open.
    Idle,
    /// An insertion of `count` rows before the row `start` has been
    /// announced and is not yet in place.
    Inserting { start: usize, count: usize },
    /// A replacement of every row has been announced and is not yet in place.
    Resetting,
}

/// Why a model refused a structural change. A refused change leaves the
/// model as it was and notifies nobody.
#[derive(Clone, Copy, Debug, PartialEq, Eq, Structural)]
pub enum ModelError {
    /// A bracket is already open: brackets do not nest.
    BracketOpen,
    /// No bracket of the kind that the call would close is open.
    BracketNotOpen,
    /// An insertion of no rows was asked for.
    EmptyRange,
    /// The insertion would start beyond the end of the rows.
    StartOutOfRange,
    /// The model would hold more than `MAX_ROWS` rows.
    TooManyRows,
    /// The number of rows supplied differs from the number announced.
    CountMismatch,
}

/// The bracket that announces the insertion of `count` rows before row `start`.
pub open spec fn begin_insert_of(start: int, count: int) -> Notification {
    Notification::BeginInsert { first: start as i32, last: (start + count - 1) as i32 }
}

/// The phase that follows `phase` when `n` is sent, or nothing where the
/// protocol forbids sending `n` in `phase`.
pub open spec fn step(phase: Phase, n: Notification) -> Option<Phase> {
    match n {
        Notification::BeginInsert { first, last } => if phase == Phase::Idle && 0 <= first <= last {
            Some(Phase::Inserting { start: first as usize, count: (last - first + 1) as usize })
        } else {
            None
        },
        Notification::EndInsert => if phase is Inserting {
            Some(Phase::Idle)
        } else {
            None
        },
        Notification::BeginReset => if phase == Phase::Idle {
            Some(Phase::Resetting)
        } else {
            None
        },
        Notification::EndReset => if phase == Phase::Resetting {
            Some(Phase::Idle)
        } else {
            None
        },
    }
}

/// The phase reached from `phase` by sending `log` in order, or nothing
/// where some notification of `log` breaks the protocol.
pub open spec fn replay(phase: Phase, log: Seq<Notification>) -> Option<Phase>
    decreases log.len(),
{
    if log.len() == 0 {
        Some(phase)
    } else {
        match replay(phase, log.drop_last()) {
            Some(before) => step(before, log.last()),
            None => None,
        }
    }
}

/// Sending one more notification continues the replay of the log before it.
pub proof fn lemma_replay_push(phase: Phase, log: Seq<Notification>, n: Notification)
    ensures
        replay(phase, log.push(n)) == match replay(phase, log) {
            Some(before) => step(before, n),
            None => None,
        },
{
    assert(log.push(n).drop_last() =~= log);
}

/// In a log that keeps to the protocol nothing stands between a bracket's
/// two halves: each begin is followed at once by its end, unless it is the
/// last entry and its bracket is the one still open; and each end follows
/// its begin at once.
pub proof fn lemma_brackets_pair_up(log: Seq<Notification>, i: int)
    requires
        replay(Phase::Idle, log) is Some,
        0 <= i < log.len(),
    ensures
        log[i] is BeginInsert ==> if i + 1 < log.len() {
            log[i + 1] == Notification::EndInsert
        } else {
            replay(Phase::Idle, log).unwrap() is Inserting
        },
        log[i] is BeginReset ==> if i + 1 < log.len() {
            log[i + 1] == Notification::EndReset
        } else {
            replay(Phase::Idle, log).unwrap() == Phase::Resetting
        },
        log[i] == Notification::EndInsert ==> i > 0 && log[i - 1] is BeginInsert,
        log[i] == Notification::EndReset ==> i > 0 && log[i - 1] is BeginReset,
        i + 1 == log.len() && !(log[i] is BeginInsert) && !(log[i] is BeginReset)
            ==> replay(Phase::Idle, log).unwrap() == Phase::Idle,
    decreases log.len(),
{
    let front = log.drop_last();
    assert(replay(Phase::Idle, front) is Some);
    if i + 1 < log.len() {
        lemma_brackets_pair_up(front, i);
        if i + 2 == log.len() {
            assert(step(replay(Phase::Idle, front).unwrap(), log.last()) is Some);
        }
    } else if i > 0 {
        lemma_brackets_pair_up(front, i - 1);
    }
}

} // verus!
