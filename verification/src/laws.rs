//! What holds of every list model that owns its rows, stated over its
//! mathematical state and proved from the definitions of its operations.

use vstd::prelude::*;
use crate::bracket::{begin_insert_of, lemma_replay_push, replay, step, Notification, Phase};
use crate::liststate::ListModelState;
use crate::qvariant::CellValue;
use crate::roles::{column_of_role, role_in_schema};
use crate::rowstore::cell_or_absent;

verus! {

/// A read inside the rows and the schema gives the cell that the row holds
/// for the role, so its tag is the tag of what was stored; it gives no
/// value where the row is too short to hold one. A read of a row past the
/// end, or of a role outside the schema, gives no value.
pub proof fn read_gives_stored_cell_or_nothing(s: ListModelState, row: int, role: int)
    requires
        s.wf(),
    ensures
        0 <= row < s.rows.len() && role_in_schema(s.width(), role) ==> {
            &&& 0 <= column_of_role(role)
            &&& s.cell(row, role) == cell_or_absent(s.rows[row], column_of_role(role))
            &&& column_of_role(role) < s.rows[row].len() ==> s.cell(row, role)
                == s.rows[row][column_of_role(role)] && s.cell(row, role).tag()
                == s.rows[row][column_of_role(role)].tag()
            &&& column_of_role(role) >= s.rows[row].len() ==> s.cell(row, role)
                == CellValue::Absent
        },
        row >= s.rows.len() ==> s.cell(row, role) == CellValue::Absent,
        row < 0 ==> s.cell(row, role) == CellValue::Absent,
        !role_in_schema(s.width(), role) ==> s.cell(row, role) == CellValue::Absent,
{
}

/// Announcing an admissible insertion keeps the invariant and touches no row.
pub proof fn begin_insert_keeps_rows(s: ListModelState, start: nat, count: nat)
    requires
        s.wf(),
        s.begin_insert_error(start, count) is None,
    ensures
        s.begin_insert(start, count).wf(),
        s.begin_insert(start, count).rows == s.rows,
        s.begin_insert(start, count).phase == (Phase::Inserting {
            start: start as usize,
            count: count as usize,
        }),
        forall|row: int, role: int| s.begin_insert(start, count).cell(row, role) == s.cell(row, role),
{
    lemma_replay_push(Phase::Idle, s.log, begin_insert_of(start as int, count as int));
}

/// Completing an announced insertion with as many rows as announced keeps
/// the invariant and closes the bracket.
pub proof fn end_insert_closes_bracket(s: ListModelState, data: Seq<Seq<CellValue>>)
    requires
        s.wf(),
        s.end_insert_error(data.len()) is None,
    ensures
        s.end_insert(data).wf(),
        s.end_insert(data).phase == Phase::Idle,
        s.end_insert(data).rows.len() == s.rows.len() + data.len(),
{
    lemma_replay_push(Phase::Idle, s.log, Notification::EndInsert);
}

/// After an insertion the model holds the rows from before and, between
/// those before the insertion and those from it on, the rows given, as
/// given: as many rows more as were inserted. Its bracket is closed, and
/// its log has grown by the begin and the end notification, next to each
/// other and in that order.
pub proof fn insert_grows_row_count(s: ListModelState, start: nat, data: Seq<Seq<CellValue>>)
    requires
        s.wf(),
        s.insert_error(start, data.len(), data.len()) is None,
    ensures
        s.inserted(start, data).wf(),
        s.inserted(start, data).rows == s.rows.subrange(0, start as int) + data + s.rows.subrange(
            start as int,
            s.rows.len() as int,
        ),
        s.inserted(start, data).rows.len() == s.rows.len() + data.len(),
        s.inserted(start, data).phase == Phase::Idle,
        s.inserted(start, data).log == s.log.push(
            begin_insert_of(start as int, data.len() as int),
        ).push(Notification::EndInsert),
{
    begin_insert_keeps_rows(s, start, data.len());
    end_insert_closes_bracket(s.begin_insert(start, data.len()), data);
}

/// After an insertion an inserted row is the row that was supplied, and a
/// read of it gives the cell that was supplied for that row and role, or no
/// value where the supplied row was too short to hold one.
pub proof fn inserted_rows_are_read_back(
    s: ListModelState,
    start: nat,
    data: Seq<Seq<CellValue>>,
    row: int,
    role: int,
)
    requires
        s.wf(),
        s.insert_error(start, data.len(), data.len()) is None,
        start <= row < start + data.len(),
        role_in_schema(s.width(), role),
    ensures
        s.inserted(start, data).rows[row] == data[row - start],
        s.inserted(start, data).cell(row, role) == cell_or_absent(
            data[row - start],
            column_of_role(role),
        ),
{
}

/// A row inserted at the end comes after the rows from before, which keep
/// their order: rows appended one by one stand in the order in which they
/// were appended.
pub proof fn appended_row_comes_last(s: ListModelState, row: Seq<CellValue>)
    requires
        s.wf(),
        s.insert_error(s.rows.len(), 1, 1) is None,
    ensures
        s.inserted(s.rows.len(), seq![row]).rows == s.rows.push(row),
{
    assert(s.inserted(s.rows.len(), seq![row]).rows =~= s.rows.push(row));
}

/// An insertion leaves every other row as it was: the rows before the
/// insertion keep their places, and the rows from it on move down by the
/// number of rows inserted.
pub proof fn insert_keeps_other_rows(
    s: ListModelState,
    start: nat,
    data: Seq<Seq<CellValue>>,
    row: int,
    role: int,
)
    requires
        s.wf(),
        s.insert_error(start, data.len(), data.len()) is None,
        0 <= row < s.rows.len(),
    ensures
        row < start ==> s.inserted(start, data).cell(row, role) == s.cell(row, role),
        row >= start ==> s.inserted(start, data).cell(row + data.len(), role) == s.cell(row, role),
{
}

/// While an insert bracket is open the rows are the rows from before it.
/// For an insertion at the end this means that no read of a row in the
/// announced range gives a stored value: such a read gives no value until
/// the bracket is closed, and the supplied value from then on.
pub proof fn open_append_bracket_reads_nothing(s: ListModelState, row: int, role: int)
    requires
        s.wf(),
        s.phase is Inserting,
        s.phase->start == s.rows.len(),
        s.phase->start <= row < s.phase->start + s.phase->count,
    ensures
        s.cell(row, role) == CellValue::Absent,
{
}

/// Replacing the rows keeps the invariant, closes the bracket, and leaves
/// exactly the supplied rows, as they were given: no row from before stays.
pub proof fn reset_replaces_rows(s: ListModelState, data: Seq<Seq<CellValue>>)
    requires
        s.wf(),
        s.reset_error(data.len()) is None,
    ensures
        s.reset_to(data).wf(),
        s.reset_to(data).phase == Phase::Idle,
        s.reset_to(data).rows == data,
        s.reset_to(data).rows.len() == data.len(),
        s.reset_to(data).log == s.log.push(Notification::BeginReset).push(Notification::EndReset),
        s.reset_to(data).reset_error(data.len()) is None,
{
    lemma_replay_push(Phase::Idle, s.log, Notification::BeginReset);
    lemma_replay_push(Phase::Idle, s.log.push(Notification::BeginReset), Notification::EndReset);
}

/// Replacing the rows twice by the same rows leaves the rows that replacing
/// them once leaves: the rows given.
pub proof fn reset_twice_is_reset_once(s: ListModelState, data: Seq<Seq<CellValue>>)
    requires
        s.wf(),
        s.reset_error(data.len()) is None,
    ensures
        s.reset_to(data).reset_error(data.len()) is None,
        s.reset_to(data).reset_to(data).rows == s.reset_to(data).rows,
        s.reset_to(data).reset_to(data).rows == data,
{
    reset_replaces_rows(s, data);
}

/// After the rows are replaced by none, the model is empty and every read
/// gives no value.
pub proof fn reset_to_nothing_reads_nothing(s: ListModelState, row: int, role: int)
    requires
        s.wf(),
        s.phase == Phase::Idle,
    ensures
        s.reset_to(Seq::empty()).rows.len() == 0,
        s.reset_to(Seq::empty()).cell(row, role) == CellValue::Absent,
{
}

/// Writing a cell keeps the invariant; the cell then reads as what was
/// written, and every other cell reads as before.
pub proof fn written_cell_is_read_back(
    s: ListModelState,
    row: int,
    role: int,
    value: CellValue,
    other_row: int,
    other_role: int,
)
    requires
        s.wf(),
        s.writable(row, role),
    ensures
        s.with_cell(row, role, value).wf(),
        s.with_cell(row, role, value).rows.len() == s.rows.len(),
        s.with_cell(row, role, value).cell(row, role) == value,
        other_row != row || other_role != role ==> s.with_cell(row, role, value).cell(
            other_row,
            other_role,
        ) == s.cell(other_row, other_role),
{
}

/// A change is refused while a bracket is open: brackets do not nest, and
/// the only step that an open bracket admits is the one that closes it.
pub proof fn open_bracket_admits_only_its_end(
    s: ListModelState,
    start: nat,
    count: nat,
    supplied: nat,
)
    requires
        s.wf(),
        s.phase != Phase::Idle,
    ensures
        s.begin_insert_error(start, count) is Some,
        s.begin_reset_error() is Some,
        s.insert_error(start, count, supplied) is Some,
        s.reset_error(supplied) is Some,
        s.phase is Inserting ==> s.end_reset_error(supplied) is Some,
        s.phase == Phase::Resetting ==> s.end_insert_error(supplied) is Some,
        step(s.phase, Notification::BeginReset) is None,
        forall|first: i32, last: i32|
            #[trigger] step(s.phase, (Notification::BeginInsert { first, last })) is None,
        replay(Phase::Idle, s.log) == Some(s.phase),
{
}

} // verus!
