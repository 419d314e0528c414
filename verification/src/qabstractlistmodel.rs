//! The capability that a data source offers to a view, and the adapter
//! that binds a read-only source to the view's protocol.

use vstd::prelude::*;
use crate::qmodelindex::QModelIndex;
use crate::qvariant::{CellValue, QVariant};
use crate::roles::{
    names_valid,
    projection_matches,
    role_in_schema,
    role_named,
    texts_of_strings,
    RoleSchema,
};

verus! {

/// Whether a read of `row` under `role` falls inside a source of `rows`
/// rows and `width` roles.
pub open spec fn in_bounds(rows: int, width: nat, row: int, role: int) -> bool {
    0 <= row < rows && role_in_schema(width, role)
}

/// What a data source offers to a view: anything that can be read as a
/// list of rows can implement it.
///
/// The view calls these often and on its own thread: none may block. An
/// adapter claims nothing of what they return: it tests each answer before
/// it relies on it.
pub trait QModel {
    /// The number of rows that can be addressed.
    fn row_count(&self) -> i32;

    /// The value stored for the item at `index` under `role`. A source with
    /// no value to give returns `QVariant::Absent`, not a zero.
    fn data(&self, index: QModelIndex, role: i32) -> QVariant;

    /// The names of the roles, in the order in which their identifiers are
    /// to count up from `START_ROLE`.
    fn roles_names(&self) -> Vec<String>;

    /// The capability flags of the item at `index`. Where a source has
    /// nothing to say, `DEFAULT_ITEM_FLAGS` enables the item and allows it
    /// to be selected.
    fn flags(&self, index: QModelIndex) -> i32;
}

/// The adapter of a read-only source.
///
/// It binds a source that it does not own to the view's protocol. The role
/// schema is asked of the source once, when the adapter is made, and kept.
/// A read goes to the source only where it falls inside the rows that the
/// source counts and the roles of the schema.
pub struct QAbstractListModel<'a, T: 'a + QModel> {
    model: &'a T,
    wrapped: usize,
    schema: RoleSchema,
}

impl<'a, T: QModel> QAbstractListModel<'a, T> {
    /// The source that the adapter is bound to.
    pub closed spec fn source(&self) -> &T {
        self.model
    }

    /// The handle of the view-side peer; 0 while none is registered.
    pub closed spec fn peer(&self) -> usize {
        self.wrapped
    }

    /// The role names that the adapter took from its source.
    pub closed spec fn roles(&self) -> Seq<Seq<char>> {
        self.schema@
    }

    /// The adapter's invariant: the schema kept is valid.
    pub open spec fn wf(&self) -> bool {
        names_valid(self.roles())
    }

    /// Whether `value` can be what a read of `row` under `role` gives: the
    /// source counts some number of rows; where the read falls inside them
    /// and the schema, `value` is what the source returns for that row and
    /// role, and elsewhere it is no value.
    pub open spec fn reads(&self, row: i32, role: i32, value: QVariant) -> bool {
        exists|rows: i32|
            {
                &&& call_ensures(T::row_count, (self.source(),), rows)
                &&& if in_bounds(rows as int, self.roles().len(), row as int, role as int) {
                    call_ensures(T::data, (self.source(), QModelIndex { row, column: 0 }, role), value)
                } else {
                    value@ == CellValue::Absent
                }
            }
    }

    /// Whether `adapter` is what binding to `model` can give: the source
    /// returns some role names; where they can make a schema, there is an
    /// adapter and it keeps those names, and elsewhere there is none.
    pub open spec fn bound_by_names_of(model: &T, adapter: Option<Box<Self>>) -> bool {
        exists|names: Vec<String>|
            {
                &&& call_ensures(T::roles_names, (model,), names)
                &&& adapter is Some <==> names_valid(texts_of_strings(names@))
                &&& adapter is Some ==> adapter.unwrap().roles() == texts_of_strings(names@)
            }
    }

    /// Binds an adapter to `model` under the role names `names`, or nothing
    /// where a name repeats or there are too many. No peer is registered yet.
    pub fn with_roles(model: &'a T, names: Vec<String>) -> (adapter: Option<Box<Self>>)
        ensures
            adapter is Some <==> names_valid(texts_of_strings(names@)),
            adapter is Some ==> adapter.unwrap().wf(),
            adapter is Some ==> adapter.unwrap().source() == model,
            adapter is Some ==> adapter.unwrap().peer() == 0,
            adapter is Some ==> adapter.unwrap().roles() == texts_of_strings(names@),
    {
        match RoleSchema::from_names(names) {
            Some(schema) => Some(Box::new(QAbstractListModel { model, wrapped: 0, schema })),
            None => None,
        }
    }

    /// Binds an adapter to `model`: asks it for its role names, once, and
    /// keeps them as the schema. Gives nothing where the names that the
    /// source returns cannot make a schema.
    pub fn new(model: &'a T) -> (adapter: Option<Box<Self>>)
        ensures
            Self::bound_by_names_of(model, adapter),
            adapter is Some ==> adapter.unwrap().wf(),
            adapter is Some ==> adapter.unwrap().source() == model,
            adapter is Some ==> adapter.unwrap().peer() == 0,
    {
        let names = model.roles_names();
        QAbstractListModel::with_roles(model, names)
    }

    /// Records the handle of the view-side peer. This happens once: the call
    /// is refused, and says so, where a peer is registered already or
    /// `peer` is the null handle.
    pub fn register_peer(&mut self, peer: usize) -> (registered: bool)
        ensures
            registered == (old(self).peer() == 0 && peer != 0),
            final(self).peer() == if registered {
                peer
            } else {
                old(self).peer()
            },
            final(self).source() == old(self).source(),
            final(self).roles() == old(self).roles(),
    {
        if self.wrapped == 0 && peer != 0 {
            self.wrapped = peer;
            true
        } else {
            false
        }
    }

    /// The value by which the view runtime finds this adapter: the handle
    /// of its peer.
    pub fn get_qvar(&self) -> (qvar: QVariant)
        ensures
            qvar@ == CellValue::Opaque(self.peer()),
    {
        QVariant::Opaque(self.wrapped)
    }

    /// The role schema, fixed when the adapter was made.
    pub fn schema(&self) -> (schema: &RoleSchema)
        ensures
            schema@ == self.roles(),
    {
        &self.schema
    }

    /// The schema as the view receives it: each name with its identifier,
    /// counted up from `START_ROLE` in declaration order.
    pub fn role_names(&self) -> (entries: Vec<(i32, String)>)
        requires
            self.wf(),
        ensures
            projection_matches(entries@, self.roles()),
    {
        self.schema.role_names()
    }

    /// Whether a read of `row` under `role` falls inside the schema and a
    /// source that counts `rows` rows.
    pub fn covers(&self, rows: i32, row: i32, role: i32) -> (inside: bool)
        ensures
            inside == in_bounds(rows as int, self.roles().len(), row as int, role as int),
    {
        0 <= row && row < rows && self.schema.column_of(role).is_some()
    }

    /// Reads the cell of `row` under `role`. The source is asked for its
    /// row count, and for the cell only where the read falls inside; a read
    /// outside gives no value and does not reach the source.
    pub fn query(&self, row: i32, role: i32) -> (value: QVariant)
        ensures
            self.reads(row, role, value),
            row < 0 || !role_in_schema(self.roles().len(), role as int) ==> value@
                == CellValue::Absent,
    {
        let rows = self.model.row_count();
        if self.covers(rows, row, role) {
            self.model.data(QModelIndex::for_row(row), role)
        } else {
            QVariant::Absent
        }
    }

    /// Reads the cell of `row` under the role called `name`. A name that
    /// the schema does not declare gives no value.
    pub fn query_named(&self, row: i32, name: &str) -> (value: QVariant)
        requires
            self.wf(),
        ensures
            match role_named(self.roles(), name@) {
                Some(role) => self.reads(row, role as i32, value),
                None => value@ == CellValue::Absent,
            },
    {
        match self.schema.role_of(name) {
            Some(role) => self.query(row, role),
            None => QVariant::Absent,
        }
    }
}

impl<'a, T: QModel> QModel for QAbstractListModel<'a, T> {
    fn row_count(&self) -> (n: i32)
        ensures
            call_ensures(T::row_count, (self.source(),), n),
    {
        self.model.row_count()
    }

    fn data(&self, index: QModelIndex, role: i32) -> (value: QVariant)
        ensures
            self.reads(index.row, role, value),
    {
        self.query(index.row(), role)
    }

    fn roles_names(&self) -> (names: Vec<String>)
        ensures
            texts_of_strings(names@) == self.roles(),
    {
        self.schema.names()
    }

    fn flags(&self, index: QModelIndex) -> (flags: i32)
        ensures
            call_ensures(T::flags, (self.source(), index), flags),
    {
        self.model.flags(index)
    }
}

} // verus!
