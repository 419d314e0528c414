//! A list model that owns its rows and mediates every structural change
//! through bracketed notifications.

use vstd::prelude::*;
use vstd::std_specs::convert::FromSpecImpl;
use vstd::std_specs::iter::IteratorSpec;
use crate::bracket::{begin_insert_of, lemma_replay_push, ModelError, Notification, Phase, MAX_ROWS};
use crate::liststate::ListModelState;
use crate::flags::DEFAULT_ITEM_FLAGS;
use crate::qmodelindex::QModelIndex;
use crate::qvariant::{CellValue, QVariant};
use crate::roles::{
    column_of_role,
    names_valid,
    projection_matches,
    role_in_schema,
    texts_of_strs,
    RoleSchema,
};
use crate::rowstore::{cell_or_absent, cells_view, rows_fit, rows_view};

verus! {

/// A list model over rows that it owns. The view reads it by row and role;
/// the application changes it only through the model, which brackets every
/// structural change with a begin and an end notification.
///
/// A change can be made in one call, which opens its bracket, puts the rows
/// in place and closes the bracket, or in two steps, where whoever delivers
/// the notifications to a view wants to do so between them. Every
/// notification is also recorded, oldest first, until it is taken.
#[derive(Debug)]
pub struct QListModel {
    wrapped: usize,
    model: Vec<Vec<QVariant>>,
    rolenames: RoleSchema,
    phase: Phase,
    log: Vec<Notification>,
}

impl View for QListModel {
    type V = ListModelState;

    closed spec fn view(&self) -> ListModelState {
        ListModelState {
            peer: self.wrapped,
            roles: self.rolenames@,
            rows: rows_view(self.model@),
            phase: self.phase,
            log: self.log@,
        }
    }
}

impl QListModel {
    /// The model's invariant, which every constructor establishes and every
    /// method keeps.
    pub open spec fn wf(&self) -> bool {
        self@.wf()
    }

    /// Makes an empty model with the role schema `schema`. No bracket is
    /// open and no peer is registered.
    pub fn with_schema(schema: RoleSchema) -> (model: Box<Self>)
        requires
            schema.wf(),
        ensures
            model.wf(),
            model@ == ListModelState::initial(schema@),
    {
        let model = QListModel {
            wrapped: 0,
            model: Vec::new(),
            rolenames: schema,
            phase: Phase::Idle,
            log: Vec::new(),
        };
        assert(model@.rows =~= Seq::empty());
        assert(model@.log =~= Seq::empty());
        Box::new(model)
    }

    /// Makes an empty model whose rows have one cell for each of
    /// `rolenames`, in that order: these are the names by which the view
    /// addresses the cells of a row. No bracket is open and no peer is
    /// registered.
    pub fn new(rolenames: &[&str]) -> (model: Box<Self>)
        requires
            names_valid(texts_of_strs(rolenames@)),
        ensures
            model.wf(),
            model@ == ListModelState::initial(texts_of_strs(rolenames@)),
    {
        QListModel::with_schema(RoleSchema::new(rolenames).unwrap())
    }

    /// Records the handle of the view-side peer. This happens once: the call
    /// is refused, and says so, where a peer is registered already or
    /// `peer` is the null handle.
    pub fn register_peer(&mut self, peer: usize) -> (registered: bool)
        requires
            old(self).wf(),
        ensures
            final(self).wf(),
            registered == (old(self)@.peer == 0 && peer != 0),
            final(self)@ == if registered {
                (ListModelState { peer, ..old(self)@ })
            } else {
                old(self)@
            },
    {
        if self.wrapped == 0 && peer != 0 {
            self.wrapped = peer;
            true
        } else {
            false
        }
    }

    /// The number of rows in the model.
    pub fn row_count(&self) -> (n: usize)
        ensures
            n == self@.rows.len(),
    {
        self.model.len()
    }

    /// The value by which the view runtime finds this model: the handle of
    /// its peer.
    pub fn get_qvar(&self) -> (qvar: QVariant)
        ensures
            qvar@ == CellValue::Opaque(self@.peer),
    {
        QVariant::Opaque(self.wrapped)
    }

    /// The rows, for reading them directly rather than cell by cell.
    pub fn view_data(&self) -> (rows: &[Vec<QVariant>])
        ensures
            rows_view(rows@) == self@.rows,
    {
        self.model.as_slice()
    }

    /// The role schema, fixed when the model was made.
    pub fn schema(&self) -> (schema: &RoleSchema)
        ensures
            schema@ == self@.roles,
    {
        &self.rolenames
    }

    /// Where the model stands in the bracket protocol.
    pub fn phase(&self) -> (phase: Phase)
        ensures
            phase == self@.phase,
    {
        self.phase
    }

    /// The notifications sent and not yet taken, oldest first.
    pub fn notifications(&self) -> (log: &[Notification])
        ensures
            log@ == self@.log,
    {
        self.log.as_slice()
    }

    /// Whether every row of `rows` is as wide as the schema, so that every
    /// cell of theirs can be read under a role and every role finds a cell.
    pub fn fits(&self, rows: &[Vec<QVariant>]) -> (fit: bool)
        ensures
            fit == rows_fit(rows_view(rows@), self@.width()),
    {
        let width = self.rolenames.len();
        let mut i: usize = 0;
        while i < rows.len()
            invariant
                i <= rows@.len(),
                width == self@.width(),
                forall|k: int| 0 <= k < i ==> (#[trigger] rows_view(rows@)[k]).len() == width,
            decreases rows@.len() - i,
        {
            if rows[i].len() != width {
                assert(rows_view(rows@)[i as int].len() != width);
                return false;
            }
            i += 1;
        }
        true
    }

    /// Reads the cell of `row` under `role`. The result is a copy. A row or
    /// a role out of bounds gives no value, never a fault.
    pub fn query(&self, row: i32, role: i32) -> (value: QVariant)
        ensures
            value@ == self@.cell(row as int, role as int),
    {
        if row < 0 {
            return QVariant::Absent;
        }
        let r = row as usize;
        if r >= self.model.len() {
            return QVariant::Absent;
        }
        match self.rolenames.column_of(role) {
            Some(column) => {
                if column < self.model[r].len() {
                    self.model[r][column].clone()
                } else {
                    QVariant::Absent
                }
            },
            None => QVariant::Absent,
        }
    }

    /// Reads the cell of `row` under the role called `name`. A row out of
    /// bounds or a name that the schema does not declare gives no value.
    pub fn query_named(&self, row: i32, name: &str) -> (value: QVariant)
        requires
            self.wf(),
        ensures
            value@ == self@.cell_named(row as int, name@),
    {
        match self.rolenames.role_of(name) {
            Some(role) => self.query(row, role),
            None => QVariant::Absent,
        }
    }

    /// Why an insertion of `count` rows before row `start` cannot be
    /// announced now, if it cannot.
    fn insert_refusal(&self, start: usize, count: usize) -> (refusal: Option<ModelError>)
        requires
            self.wf(),
        ensures
            refusal == self@.begin_insert_error(start as nat, count as nat),
    {
        match self.phase {
            Phase::Idle => {},
            _ => {
                return Some(ModelError::BracketOpen);
            },
        }
        if count == 0 {
            Some(ModelError::EmptyRange)
        } else if start > self.model.len() {
            Some(ModelError::StartOutOfRange)
        } else if count > MAX_ROWS - self.model.len() {
            Some(ModelError::TooManyRows)
        } else {
            None
        }
    }

    /// Opens an insert bracket: announces that `count` rows will be inserted
    /// before row `start`, and returns the notification to deliver. The rows
    /// are not touched until the bracket is closed. Refused while any
    /// bracket is open.
    pub fn begin_insert_rows(&mut self, start: usize, count: usize) -> (sent: Result<Notification, ModelError>)
        requires
            old(self).wf(),
        ensures
            final(self).wf(),
            match old(self)@.begin_insert_error(start as nat, count as nat) {
                Some(e) => sent == Err::<Notification, ModelError>(e) && final(self)@ == old(self)@,
                None => sent == Ok::<Notification, ModelError>(
                    begin_insert_of(start as int, count as int),
                ) && final(self)@ == old(self)@.begin_insert(start as nat, count as nat),
            },
    {
        match self.insert_refusal(start, count) {
            Some(e) => {
                return Err(e);
            },
            None => {},
        }
        let first = start as i32;
        let last = (start + count - 1) as i32;
        let n = Notification::BeginInsert { first, last };
        proof {
            lemma_replay_push(Phase::Idle, self@.log, n);
        }
        self.phase = Phase::Inserting { start, count };
        self.log.push(n);
        Ok(n)
    }

    /// Closes the open insert bracket: puts `rows` in place before the
    /// announced row, each as it is given, and returns the notification to
    /// deliver. Refused where no insert bracket is open, or where the
    /// number of rows is not the number announced; the bracket then stays
    /// as it was.
    pub fn end_insert_rows(&mut self, rows: Vec<Vec<QVariant>>) -> (sent: Result<Notification, ModelError>)
        requires
            old(self).wf(),
        ensures
            final(self).wf(),
            match old(self)@.end_insert_error(rows@.len()) {
                Some(e) => sent == Err::<Notification, ModelError>(e) && final(self)@ == old(self)@,
                None => sent == Ok::<Notification, ModelError>(Notification::EndInsert)
                    && final(self)@ == old(self)@.end_insert(rows_view(rows@))
                    && final(self)@.rows == old(self)@.rows.subrange(
                    0,
                    old(self)@.phase->start as int,
                ) + rows_view(rows@) + old(self)@.rows.subrange(
                    old(self)@.phase->start as int,
                    old(self)@.rows.len() as int,
                ),
            },
    {
        let (start, count) = match self.phase {
            Phase::Inserting { start, count } => (start, count),
            _ => {
                return Err(ModelError::BracketNotOpen);
            },
        };
        if rows.len() != count {
            return Err(ModelError::CountMismatch);
        }
        let mut given = rows;
        let mut tail = self.model.split_off(start);
        self.model.append(&mut given);
        self.model.append(&mut tail);
        proof {
            lemma_replay_push(Phase::Idle, self@.log, Notification::EndInsert);
            assert(rows_view(self.model@) =~= old(self)@.rows_with(start as int, rows_view(rows@)));
        }
        self.phase = Phase::Idle;
        self.log.push(Notification::EndInsert);
        Ok(Notification::EndInsert)
    }

    /// Opens a reset bracket: announces that every row will be replaced, and
    /// returns the notification to deliver. From here on every index issued
    /// before is dead. The rows are not touched until the bracket is closed.
    /// Refused while any bracket is open.
    pub fn begin_reset_model(&mut self) -> (sent: Result<Notification, ModelError>)
        requires
            old(self).wf(),
        ensures
            final(self).wf(),
            match old(self)@.begin_reset_error() {
                Some(e) => sent == Err::<Notification, ModelError>(e) && final(self)@ == old(self)@,
                None => sent == Ok::<Notification, ModelError>(Notification::BeginReset)
                    && final(self)@ == old(self)@.begin_reset(),
            },
    {
        match self.phase {
            Phase::Idle => {},
            _ => {
                return Err(ModelError::BracketOpen);
            },
        }
        proof {
            lemma_replay_push(Phase::Idle, self@.log, Notification::BeginReset);
        }
        self.phase = Phase::Resetting;
        self.log.push(Notification::BeginReset);
        Ok(Notification::BeginReset)
    }

    /// Closes the open reset bracket: replaces every row by `rows`, each as
    /// it is given, and returns the notification to deliver.
    /// Refused where no reset bracket is open, or where there are more rows
    /// than the view can count; the bracket then stays as it was.
    pub fn end_reset_model(&mut self, rows: Vec<Vec<QVariant>>) -> (sent: Result<Notification, ModelError>)
        requires
            old(self).wf(),
        ensures
            final(self).wf(),
            match old(self)@.end_reset_error(rows@.len()) {
                Some(e) => sent == Err::<Notification, ModelError>(e) && final(self)@ == old(self)@,
                None => sent == Ok::<Notification, ModelError>(Notification::EndReset)
                    && final(self)@ == old(self)@.end_reset(rows_view(rows@))
                    && final(self)@.rows == rows_view(rows@),
            },
    {
        match self.phase {
            Phase::Resetting => {},
            _ => {
                return Err(ModelError::BracketNotOpen);
            },
        }
        if rows.len() > MAX_ROWS {
            return Err(ModelError::TooManyRows);
        }
        proof {
            lemma_replay_push(Phase::Idle, self@.log, Notification::EndReset);
        }
        self.model = rows;
        self.phase = Phase::Idle;
        self.log.push(Notification::EndReset);
        Ok(Notification::EndReset)
    }

    /// Inserts `rows` as `count` rows before row `start`, as one bracketed
    /// change: the begin notification is recorded, the rows are put in
    /// place, each as it is given, and the end notification is recorded.
    /// On return the bracket is closed again. A refused insertion changes
    /// nothing and records nothing.
    pub fn insert_rows(
        &mut self,
        start: usize,
        count: usize,
        rows: Vec<Vec<QVariant>>,
    ) -> (done: Result<(), ModelError>)
        requires
            old(self).wf(),
        ensures
            final(self).wf(),
            match old(self)@.insert_error(start as nat, count as nat, rows@.len()) {
                Some(e) => done == Err::<(), ModelError>(e) && final(self)@ == old(self)@,
                None => {
                    &&& done == Ok::<(), ModelError>(())
                    &&& final(self)@ == old(self)@.inserted(start as nat, rows_view(rows@))
                    &&& final(self)@.rows == old(self)@.rows.subrange(0, start as int) + rows_view(
                        rows@,
                    ) + old(self)@.rows.subrange(start as int, old(self)@.rows.len() as int)
                    &&& final(self)@.rows.len() == old(self)@.rows.len() + count
                    &&& forall|row: int, role: int|
                        start <= row < start + count && role_in_schema(old(self)@.width(), role)
                            ==> #[trigger] final(self)@.cell(row, role) == cell_or_absent(
                            rows_view(rows@)[row - start],
                            column_of_role(role),
                        )
                },
            },
    {
        match self.insert_refusal(start, count) {
            Some(e) => {
                return Err(e);
            },
            None => {},
        }
        if rows.len() != count {
            return Err(ModelError::CountMismatch);
        }
        let _ = self.begin_insert_rows(start, count);
        let ghost width = self@.width();
        let ghost data = rows_view(rows@);
        let _ = self.end_insert_rows(rows);
        proof {
            assert forall|row: int, role: int|
                start <= row < start + count && role_in_schema(width, role) implies #[trigger] self@.cell(
                row,
                role,
            ) == cell_or_absent(data[row - start], column_of_role(role)) by {
                assert(self@.rows[row] == data[row - start]);
            }
        }
        Ok(())
    }

    /// Appends one row after the last row, as one bracketed change. The row
    /// holds what `qvars` yields, in that order and as many cells as that.
    /// The iterator has to be one that ends.
    pub fn insert_row<T>(&mut self, qvars: T) -> (done: Result<(), ModelError>) where
        T: Iterator<Item = QVariant>,
        requires
            old(self).wf(),
            qvars.obeys_prophetic_iter_laws(),
            qvars.decrease() is Some,
        ensures
            final(self).wf(),
            match old(self)@.insert_error(old(self)@.rows.len(), 1, 1) {
                Some(e) => done == Err::<(), ModelError>(e) && final(self)@ == old(self)@,
                None => {
                    &&& done == Ok::<(), ModelError>(())
                    &&& final(self)@ == old(self)@.inserted(
                        old(self)@.rows.len(),
                        seq![cells_view(qvars.remaining())],
                    )
                    &&& final(self)@.rows.len() == old(self)@.rows.len() + 1
                    &&& final(self)@.rows == old(self)@.rows.push(cells_view(qvars.remaining()))
                    &&& final(self)@.rows.last() == cells_view(qvars.remaining())
                },
            },
    {
        let mut cells: Vec<QVariant> = Vec::new();
        let mut rest = qvars;
        loop
            invariant
                rest.obeys_prophetic_iter_laws(),
                rest.decrease() is Some,
                cells@ + rest.remaining() == qvars.remaining(),
            ensures
                rest.remaining().len() == 0,
            decreases rest.decrease()->0,
        {
            match rest.next() {
                Some(cell) => {
                    cells.push(cell);
                },
                None => {
                    break ;
                },
            }
        }
        assert(cells@ =~= cells@ + rest.remaining());
        let at = self.model.len();
        let mut rows: Vec<Vec<QVariant>> = Vec::new();
        rows.push(cells);
        assert(rows_view(rows@) =~= seq![cells_view(qvars.remaining())]);
        let done = self.insert_rows(at, 1, rows);
        proof {
            if done is Ok {
                assert(self@.rows =~= old(self)@.rows.push(cells_view(qvars.remaining())));
            }
        }
        done
    }

    /// Replaces every row, as one bracketed change: the begin
    /// notification is recorded, `qvars` take the place of the rows, each
    /// as it is given, and the end notification is recorded. On return the
    /// bracket is closed again. A refused replacement changes nothing and
    /// records nothing.
    pub fn set_data(&mut self, qvars: Vec<Vec<QVariant>>) -> (done: Result<(), ModelError>)
        requires
            old(self).wf(),
        ensures
            final(self).wf(),
            match old(self)@.reset_error(qvars@.len()) {
                Some(e) => done == Err::<(), ModelError>(e) && final(self)@ == old(self)@,
                None => {
                    &&& done == Ok::<(), ModelError>(())
                    &&& final(self)@ == old(self)@.reset_to(rows_view(qvars@))
                    &&& final(self)@.rows == rows_view(qvars@)
                },
            },
    {
        match self.phase {
            Phase::Idle => {},
            _ => {
                return Err(ModelError::BracketOpen);
            },
        }
        if qvars.len() > MAX_ROWS {
            return Err(ModelError::TooManyRows);
        }
        let _ = self.begin_reset_model();
        let _ = self.end_reset_model(qvars);
        Ok(())
    }

    /// Hands over the notifications recorded so far, oldest first, and
    /// forgets them. While a bracket is open nothing is handed over and
    /// nothing is forgotten: the record of an open bracket stays whole.
    pub fn take_notifications(&mut self) -> (taken: Vec<Notification>)
        requires
            old(self).wf(),
        ensures
            final(self).wf(),
            old(self)@.phase == Phase::Idle ==> taken@ == old(self)@.log
                && final(self)@ == (ListModelState { log: Seq::empty(), ..old(self)@ }),
            old(self)@.phase != Phase::Idle ==> taken@ == Seq::<Notification>::empty()
                && final(self)@ == old(self)@,
    {
        let mut taken: Vec<Notification> = Vec::new();
        match self.phase {
            Phase::Idle => {
                std::mem::swap(&mut self.log, &mut taken);
            },
            _ => {},
        }
        taken
    }

    /// The number of rows as the view counts them.
    pub fn view_row_count(&self) -> (n: i32)
        requires
            self.wf(),
        ensures
            n == self@.rows.len(),
    {
        self.model.len() as i32
    }

    /// The number of columns under `parent`: a list has one.
    pub fn column_count(&self, parent: QModelIndex) -> (n: i32)
        ensures
            n == 1,
    {
        1
    }

    /// Reads the cell that `index` names under `role`: in a list, the cell
    /// of the row of `index`.
    pub fn data(&self, index: QModelIndex, role: i32) -> (value: QVariant)
        ensures
            value@ == self@.cell(index.row as int, role as int),
    {
        self.query(index.row(), role)
    }

    /// The header of a row or a column: a list has none, so no value.
    pub fn header_data(&self, section: i32, orientation: i32, role: i32) -> (value: QVariant)
        ensures
            value@ == CellValue::Absent,
    {
        QVariant::Absent
    }

    /// The schema as the view receives it: each name with its identifier,
    /// counted up from `START_ROLE` in declaration order.
    pub fn role_names(&self) -> (entries: Vec<(i32, String)>)
        requires
            self.wf(),
        ensures
            projection_matches(entries@, self@.roles),
    {
        self.rolenames.role_names()
    }

    /// The capability flags of the item that `index` names. The model
    /// defines no flags of its own, so every item has the default ones: it
    /// is enabled and can be selected.
    pub fn flags(&self, index: QModelIndex) -> (flags: i32)
        ensures
            flags == DEFAULT_ITEM_FLAGS,
    {
        DEFAULT_ITEM_FLAGS
    }

    /// Writes `value` to the cell that `index` names under `role`, and says
    /// whether it did. Nothing is written while a bracket is open, nor
    /// outside the rows or the schema, nor to a row too short to hold a
    /// cell for the role. No row comes or goes, so no bracket is opened and
    /// nothing is recorded.
    pub fn set_cell(&mut self, index: QModelIndex, value: QVariant, role: i32) -> (written: bool)
        requires
            old(self).wf(),
        ensures
            final(self).wf(),
            written == old(self)@.writable(index.row as int, role as int),
            final(self)@ == if written {
                old(self)@.with_cell(index.row as int, role as int, value@)
            } else {
                old(self)@
            },
            written ==> final(self)@.cell(index.row as int, role as int) == value@,
    {
        match self.phase {
            Phase::Idle => {},
            _ => {
                return false;
            },
        }
        if index.row() < 0 || index.row() as usize >= self.model.len() {
            return false;
        }
        let r = index.row() as usize;
        match self.rolenames.column_of(role) {
            Some(column) => {
                if column >= self.model[r].len() {
                    return false;
                }
                self.model[r][column] = value;
                proof {
                    assert(rows_view(self.model@) =~= old(self)@.with_cell(
                        index.row as int,
                        role as int,
                        value@,
                    ).rows) by {
                        assert forall|i: int| 0 <= i < self.model@.len() implies cells_view(
                            self.model@[i]@,
                        ) =~= old(self)@.with_cell(index.row as int, role as int, value@).rows[i] by {
                        }
                    }
                }
                true
            },
            None => false,
        }
    }
}

impl<'a> From<&'a QListModel> for QVariant {
    /// The value by which the view runtime finds the model.
    fn from(i: &'a QListModel) -> (qvar: QVariant) {
        i.get_qvar()
    }
}

impl<'a> FromSpecImpl<&'a QListModel> for QVariant {
    open spec fn obeys_from_spec() -> bool {
        true
    }

    open spec fn from_spec(i: &'a QListModel) -> QVariant {
        QVariant::Opaque(i@.peer)
    }
}

} // verus!
