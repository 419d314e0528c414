//! The position of an item, as the view names it when it asks for a cell.

use vstd::prelude::*;

verus! {

/// The position of an item in a model. In a flat list the column of every
/// item is 0 and its parent is the root, which is the one position that is
/// not valid.
#[derive(Clone, Copy, Debug, PartialEq, Eq, Structural)]
pub struct QModelIndex {
    pub row: i32,
    pub column: i32,
}

impl QModelIndex {
    /// The root: the position that names no item, and the parent of every
    /// item of a flat list.
    pub open spec fn root() -> QModelIndex {
        QModelIndex { row: -1i32, column: -1i32 }
    }

    /// Whether the position can name an item at all.
    pub open spec fn valid(self) -> bool {
        self.row >= 0 && self.column >= 0
    }

    /// The root position.
    pub fn new() -> (index: QModelIndex)
        ensures
            index == QModelIndex::root(),
            !index.valid(),
    {
        QModelIndex { row: -1, column: -1 }
    }

    /// The position of row `row` of a flat list.
    pub fn for_row(row: i32) -> (index: QModelIndex)
        ensures
            index == (QModelIndex { row, column: 0 }),
    {
        QModelIndex { row, column: 0 }
    }

    pub fn row(&self) -> (row: i32)
        ensures
            row == self.row,
    {
        self.row
    }

    pub fn column(&self) -> (column: i32)
        ensures
            column == self.column,
    {
        self.column
    }

    /// Whether the position can name an item at all.
    pub fn is_valid(&self) -> (valid: bool)
        ensures
            valid == self.valid(),
    {
        self.row >= 0 && self.column >= 0
    }

    /// The parent of the position: in a flat list, always the root.
    pub fn parent(&self) -> (parent: QModelIndex)
        ensures
            parent == QModelIndex::root(),
    {
        QModelIndex { row: -1, column: -1 }
    }
}

} // verus!
