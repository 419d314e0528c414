//! What a view can observe of a run of calls on a list model: the
//! notifications sent and the answers given, in order.

use vstd::prelude::*;
use crate::bracket::{begin_insert_of, Notification, Phase};
use crate::laws::{insert_grows_row_count, reset_replaces_rows, written_cell_is_read_back};
use crate::liststate::ListModelState;
use crate::qvariant::CellValue;

verus! {

/// One call of an operation that a model completes before it returns.
pub enum Call {
    /// A read of `row` under `role`.
    Query { row: int, role: int },
    /// An insertion of `rows` as `count` rows before row `start`.
    InsertRows { start: nat, count: nat, rows: Seq<Seq<CellValue>> },
    /// A replacement of every row by `rows`.
    SetData { rows: Seq<Seq<CellValue>> },
    /// A write of `value` to the cell of `row` under `role`.
    SetCell { row: int, role: int, value: CellValue },
}

/// One thing that a view observes.
pub enum Observed {
    /// The model sent a notification.
    Sent(Notification),
    /// The model answered a read of `row` under `role` with `value`.
    Read { row: int, role: int, value: CellValue },
}

/// The state in which `call` leaves a model that was in state `s`. A call
/// that is refused leaves it as it was.
pub open spec fn after(s: ListModelState, call: Call) -> ListModelState {
    match call {
        Call::Query { .. } => s,
        Call::InsertRows { start, count, rows } => if s.insert_error(start, count, rows.len())
            is None {
            s.inserted(start, rows)
        } else {
            s
        },
        Call::SetData { rows } => if s.reset_error(rows.len()) is None {
            s.reset_to(rows)
        } else {
            s
        },
        Call::SetCell { row, role, value } => if s.writable(row, role) {
            s.with_cell(row, role, value)
        } else {
            s
        },
    }
}

/// What a view observes of `call` on a model in state `s`: the answer to a
/// read, the two halves of the bracket of a change that is made, and nothing
/// of a change that is refused or of a write to a cell.
pub open spec fn observed(s: ListModelState, call: Call) -> Seq<Observed> {
    match call {
        Call::Query { row, role } => seq![Observed::Read { row, role, value: s.cell(row, role) }],
        Call::InsertRows { start, count, rows } => if s.insert_error(start, count, rows.len())
            is None {
            seq![
                Observed::Sent(begin_insert_of(start as int, count as int)),
                Observed::Sent(Notification::EndInsert),
            ]
        } else {
            Seq::empty()
        },
        Call::SetData { rows } => if s.reset_error(rows.len()) is None {
            seq![Observed::Sent(Notification::BeginReset), Observed::Sent(Notification::EndReset)]
        } else {
            Seq::empty()
        },
        Call::SetCell { .. } => Seq::empty(),
    }
}

/// The state of a model after `calls`, made in order from state `s`.
pub open spec fn state_after(s: ListModelState, calls: Seq<Call>) -> ListModelState
    decreases calls.len(),
{
    if calls.len() == 0 {
        s
    } else {
        after(state_after(s, calls.drop_last()), calls.last())
    }
}

/// What a view observes of `calls`, made in order from state `s`.
pub open spec fn trace(s: ListModelState, calls: Seq<Call>) -> Seq<Observed>
    decreases calls.len(),
{
    if calls.len() == 0 {
        Seq::empty()
    } else {
        trace(s, calls.drop_last()) + observed(state_after(s, calls.drop_last()), calls.last())
    }
}

/// Whether `o` is the first half of a bracket.
pub open spec fn is_begin(o: Observed) -> bool {
    o matches Observed::Sent(n) && (n is BeginInsert || n is BeginReset)
}

/// Whether `o` is the second half of a bracket.
pub open spec fn is_end(o: Observed) -> bool {
    o matches Observed::Sent(n) && (n is EndInsert || n is EndReset)
}

/// Whether `begin` and `end` are the two halves of one bracket.
pub open spec fn pair_up(begin: Observed, end: Observed) -> bool {
    ||| begin matches Observed::Sent(Notification::BeginInsert { .. }) && end == Observed::Sent(
        Notification::EndInsert,
    )
    ||| begin == Observed::Sent(Notification::BeginReset) && end == Observed::Sent(
        Notification::EndReset,
    )
}

/// Calls that start on a model with no open bracket leave it with no open
/// bracket, and keep its invariant.
pub proof fn calls_leave_no_bracket_open(s: ListModelState, calls: Seq<Call>)
    requires
        s.wf(),
        s.phase == Phase::Idle,
    ensures
        state_after(s, calls).wf(),
        state_after(s, calls).phase == Phase::Idle,
    decreases calls.len(),
{
    if calls.len() > 0 {
        let before = state_after(s, calls.drop_last());
        calls_leave_no_bracket_open(s, calls.drop_last());
        match calls.last() {
            Call::Query { .. } => {},
            Call::InsertRows { start, count, rows } => {
                if before.insert_error(start, count, rows.len()) is None {
                    insert_grows_row_count(before, start, rows);
                }
            },
            Call::SetData { rows } => {
                if before.reset_error(rows.len()) is None {
                    reset_replaces_rows(before, rows);
                }
            },
            Call::SetCell { row, role, value } => {
                if before.writable(row, role) {
                    written_cell_is_read_back(before, row, role, value, row, role);
                }
            },
        }
    }
}

/// No read is observed between the two halves of a bracket. In what a view
/// observes of any calls on a model with no open bracket, the first half of
/// a bracket is followed at once by its second half, and a second half
/// follows its first half at once: every answer stands before the begin or
/// after the end.
pub proof fn no_read_inside_a_bracket(s: ListModelState, calls: Seq<Call>, i: int)
    requires
        s.wf(),
        s.phase == Phase::Idle,
        0 <= i < trace(s, calls).len(),
    ensures
        is_begin(trace(s, calls)[i]) ==> i + 1 < trace(s, calls).len() && pair_up(
            trace(s, calls)[i],
            trace(s, calls)[i + 1],
        ),
        is_end(trace(s, calls)[i]) ==> i > 0 && pair_up(trace(s, calls)[i - 1], trace(s, calls)[i]),
        trace(s, calls)[i] is Read ==> (i > 0 ==> !is_begin(trace(s, calls)[i - 1])) && (i + 1
            < trace(s, calls).len() ==> !is_end(trace(s, calls)[i + 1])),
    decreases calls.len(),
{
    let front = calls.drop_last();
    let before = state_after(s, front);
    let seen = trace(s, front);
    let now = observed(before, calls.last());
    calls_leave_no_bracket_open(s, front);
    assert(trace(s, calls) == seen + now);
    if i < seen.len() {
        no_read_inside_a_bracket(s, front, i);
        if i + 1 == seen.len() && now.len() > 0 {
            assert(!is_begin(seen[i]));
            assert(is_begin(now[0]) || now[0] is Read);
        }
    } else {
        if i == seen.len() && i > 0 {
            no_read_inside_a_bracket(s, front, i - 1);
        }
    }
}

/// A read that follows an insertion, with nothing but reads between them,
/// gives for an inserted row the cell that was supplied for it.
pub proof fn read_after_insert_sees_inserted_rows(
    s: ListModelState,
    start: nat,
    rows: Seq<Seq<CellValue>>,
    reads: Seq<Call>,
    row: int,
    role: int,
)
    requires
        s.wf(),
        s.insert_error(start, rows.len(), rows.len()) is None,
        forall|k: int| 0 <= k < reads.len() ==> #[trigger] reads[k] is Query,
    ensures
        state_after(s.inserted(start, rows), reads) == s.inserted(start, rows),
        observed(state_after(s.inserted(start, rows), reads), (Call::Query { row, role }))
            =~= Seq::empty().push(
            (Observed::Read { row, role, value: s.inserted(start, rows).cell(row, role) }),
        ),
    decreases reads.len(),
{
    if reads.len() > 0 {
        assert forall|k: int| 0 <= k < reads.drop_last().len() implies #[trigger] reads.drop_last()[k]
            is Query by {
            assert(reads.drop_last()[k] == reads[k]);
        }
        read_after_insert_sees_inserted_rows(s, start, rows, reads.drop_last(), row, role);
        assert(reads.last() == reads[reads.len() - 1]);
    }
}

} // verus!
