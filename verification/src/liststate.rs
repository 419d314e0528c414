//! The mathematical model of a list model that owns its rows: what it holds,
//! and what each step of the bracket protocol makes of it.

use vstd::prelude::*;
use crate::bracket::{begin_insert_of, replay, ModelError, Notification, Phase, MAX_ROWS};
use crate::qvariant::CellValue;
use crate::roles::{column_of_role, names_valid, role_in_schema, role_named};
use crate::rowstore::cell_or_absent;

verus! {

/// The state of a list model that owns its rows.
pub struct ListModelState {
    /// The handle of the view-side peer; 0 while none is registered.
    pub peer: usize,
    /// The role names, in declaration order.
    pub roles: Seq<Seq<char>>,
    /// The rows, as they were given. The cell at position `i` of a row
    /// belongs to the role at position `i` of `roles`; a row may hold fewer
    /// cells than there are roles, or more.
    pub rows: Seq<Seq<CellValue>>,
    /// Where the model stands in the bracket protocol.
    pub phase: Phase,
    /// The notifications sent and not yet taken, oldest first.
    pub log: Seq<Notification>,
}

impl ListModelState {
    /// The state of a model just made for `roles`.
    pub open spec fn initial(roles: Seq<Seq<char>>) -> ListModelState {
        ListModelState { peer: 0, roles, rows: Seq::empty(), phase: Phase::Idle, log: Seq::empty() }
    }

    /// The model's invariant: the schema is valid, the rows can be counted
    /// by the view, an announced insertion fits the rows, and the log keeps
    /// to the protocol and ends in the current phase.
    pub open spec fn wf(self) -> bool {
        &&& names_valid(self.roles)
        &&& self.rows.len() <= MAX_ROWS
        &&& match self.phase {
            Phase::Inserting { start, count } => start <= self.rows.len() && 1 <= count
                && self.rows.len() + count <= MAX_ROWS,
            _ => true,
        }
        &&& replay(Phase::Idle, self.log) == Some(self.phase)
    }

    /// The number of roles: the width of a row that has a cell for each.
    pub open spec fn width(self) -> nat {
        self.roles.len()
    }

    /// What a read of `row` under `role` gives: the stored cell, or no value
    /// where the row or the role is out of bounds or the row is too short
    /// to hold a cell for the role.
    pub open spec fn cell(self, row: int, role: int) -> CellValue {
        if 0 <= row < self.rows.len() && role_in_schema(self.width(), role) {
            cell_or_absent(self.rows[row], column_of_role(role))
        } else {
            CellValue::Absent
        }
    }

    /// What a read of `row` under the role called `name` gives: the stored
    /// cell, or no value where the row is out of bounds or the schema
    /// declares no such name.
    pub open spec fn cell_named(self, row: int, name: Seq<char>) -> CellValue {
        match role_named(self.roles, name) {
            Some(role) => self.cell(row, role),
            None => CellValue::Absent,
        }
    }

    /// Whether the cell of `row` under `role` can be written now: no bracket
    /// is open, the row and the role are inside the model, and the row
    /// holds a cell for the role.
    pub open spec fn writable(self, row: int, role: int) -> bool {
        &&& self.phase == Phase::Idle
        &&& 0 <= row < self.rows.len()
        &&& role_in_schema(self.width(), role)
        &&& column_of_role(role) < self.rows[row].len()
    }

    /// The state once the cell of `row` under `role` holds `value`. Nothing
    /// else changes, and nothing is sent: the set of rows stays as it is.
    pub open spec fn with_cell(self, row: int, role: int, value: CellValue) -> ListModelState {
        ListModelState {
            rows: self.rows.update(row, self.rows[row].update(column_of_role(role), value)),
            ..self
        }
    }

    /// Why an insertion of `count` rows before row `start` cannot be
    /// announced, if it cannot.
    pub open spec fn begin_insert_error(self, start: nat, count: nat) -> Option<ModelError> {
        if self.phase != Phase::Idle {
            Some(ModelError::BracketOpen)
        } else if count == 0 {
            Some(ModelError::EmptyRange)
        } else if start > self.rows.len() {
            Some(ModelError::StartOutOfRange)
        } else if self.rows.len() + count > MAX_ROWS {
            Some(ModelError::TooManyRows)
        } else {
            None
        }
    }

    /// The state once the insertion of `count` rows before row `start` is
    /// announced: the rows are untouched.
    pub open spec fn begin_insert(self, start: nat, count: nat) -> ListModelState {
        ListModelState {
            phase: Phase::Inserting { start: start as usize, count: count as usize },
            log: self.log.push(begin_insert_of(start as int, count as int)),
            ..self
        }
    }

    /// Why `supplied` rows cannot complete the announced insertion, if they
    /// cannot.
    pub open spec fn end_insert_error(self, supplied: nat) -> Option<ModelError> {
        match self.phase {
            Phase::Inserting { start, count } => if supplied != count {
                Some(ModelError::CountMismatch)
            } else {
                None
            },
            _ => Some(ModelError::BracketNotOpen),
        }
    }

    /// The rows with `data`, as given, inserted before row `start`.
    pub open spec fn rows_with(self, start: int, data: Seq<Seq<CellValue>>) -> Seq<Seq<CellValue>> {
        self.rows.subrange(0, start) + data + self.rows.subrange(start, self.rows.len() as int)
    }

    /// The state once `data` completes the announced insertion.
    pub open spec fn end_insert(self, data: Seq<Seq<CellValue>>) -> ListModelState {
        ListModelState {
            rows: self.rows_with(self.phase->start as int, data),
            phase: Phase::Idle,
            log: self.log.push(Notification::EndInsert),
            ..self
        }
    }

    /// Why a replacement of every row cannot be announced, if it cannot.
    pub open spec fn begin_reset_error(self) -> Option<ModelError> {
        if self.phase != Phase::Idle {
            Some(ModelError::BracketOpen)
        } else {
            None
        }
    }

    /// The state once a replacement of every row is announced: the rows are
    /// untouched.
    pub open spec fn begin_reset(self) -> ListModelState {
        ListModelState { phase: Phase::Resetting, log: self.log.push(Notification::BeginReset), ..self }
    }

    /// Why `supplied` rows cannot complete the announced replacement, if
    /// they cannot.
    pub open spec fn end_reset_error(self, supplied: nat) -> Option<ModelError> {
        if self.phase != Phase::Resetting {
            Some(ModelError::BracketNotOpen)
        } else if supplied > MAX_ROWS {
            Some(ModelError::TooManyRows)
        } else {
            None
        }
    }

    /// The state once `data` completes the announced replacement.
    pub open spec fn end_reset(self, data: Seq<Seq<CellValue>>) -> ListModelState {
        ListModelState {
            rows: data,
            phase: Phase::Idle,
            log: self.log.push(Notification::EndReset),
            ..self
        }
    }

    /// Why `supplied` rows cannot be inserted as `count` rows before row
    /// `start`, if they cannot.
    pub open spec fn insert_error(self, start: nat, count: nat, supplied: nat) -> Option<ModelError> {
        match self.begin_insert_error(start, count) {
            Some(e) => Some(e),
            None => if supplied != count {
                Some(ModelError::CountMismatch)
            } else {
                None
            },
        }
    }

    /// The state after the whole insertion of `data` before row `start`:
    /// announced, put in place, completed.
    pub open spec fn inserted(self, start: nat, data: Seq<Seq<CellValue>>) -> ListModelState {
        self.begin_insert(start, data.len()).end_insert(data)
    }

    /// Why the rows cannot be replaced by `supplied` rows, if they cannot.
    pub open spec fn reset_error(self, supplied: nat) -> Option<ModelError> {
        if self.phase != Phase::Idle {
            Some(ModelError::BracketOpen)
        } else if supplied > MAX_ROWS {
            Some(ModelError::TooManyRows)
        } else {
            None
        }
    }

    /// The state after the whole replacement of the rows by `data`:
    /// announced, put in place, completed.
    pub open spec fn reset_to(self, data: Seq<Seq<CellValue>>) -> ListModelState {
        self.begin_reset().end_reset(data)
    }
}

} // verus!
