//! The value of one cell, as exchanged between a model and its view.

use vstd::prelude::*;
use vstd::std_specs::cmp::PartialEqSpecImpl;
use vstd::std_specs::convert::FromSpecImpl;

verus! {

/// The kind of value that a cell holds.
#[derive(Clone, Copy, Debug, PartialEq, Eq, Structural)]
pub enum CellTag {
    Absent,
    Integer,
    Floating,
    Boolean,
    Text,
    Opaque,
}

/// The mathematical value of a cell: what contracts speak of.
pub enum CellValue {
    /// No value. Reads outside the model's bounds degrade to this.
    Absent,
    Integer(i32),
    /// A double, held as its IEEE 754 bit pattern.
    Floating(u64),
    Boolean(bool),
    Text(Seq<char>),
    /// A handle that only the view runtime can interpret.
    Opaque(usize),
}

impl CellValue {
    pub open spec fn tag(self) -> CellTag {
        match self {
            CellValue::Absent => CellTag::Absent,
            CellValue::Integer(_) => CellTag::Integer,
            CellValue::Floating(_) => CellTag::Floating,
            CellValue::Boolean(_) => CellTag::Boolean,
            CellValue::Text(_) => CellTag::Text,
            CellValue::Opaque(_) => CellTag::Opaque,
        }
    }
}

/// A cell value as the program holds it. It is handed across the model's
/// boundary by copy, never by reference into the model's storage.
#[derive(Debug)]
pub enum QVariant {
    /// No value.
    Absent,
    Integer(i32),
    /// A double, held as its IEEE 754 bit pattern.
    Floating(u64),
    Boolean(bool),
    Text(String),
    /// A handle that only the view runtime can interpret.
    Opaque(usize),
}

impl View for QVariant {
    type V = CellValue;

    open spec fn view(&self) -> CellValue {
        match *self {
            QVariant::Absent => CellValue::Absent,
            QVariant::Integer(i) => CellValue::Integer(i),
            QVariant::Floating(bits) => CellValue::Floating(bits),
            QVariant::Boolean(b) => CellValue::Boolean(b),
            QVariant::Text(s) => CellValue::Text(s@),
            QVariant::Opaque(h) => CellValue::Opaque(h),
        }
    }
}

impl Clone for QVariant {
    fn clone(&self) -> (copy: Self)
        ensures
            copy@ == self@,
    {
        match self {
            QVariant::Absent => QVariant::Absent,
            QVariant::Integer(i) => QVariant::Integer(*i),
            QVariant::Floating(bits) => QVariant::Floating(*bits),
            QVariant::Boolean(b) => QVariant::Boolean(*b),
            QVariant::Text(s) => QVariant::Text(s.clone()),
            QVariant::Opaque(h) => QVariant::Opaque(*h),
        }
    }
}

impl PartialEq for QVariant {
    fn eq(&self, other: &Self) -> (same: bool) {
        match self {
            QVariant::Absent => match other {
                QVariant::Absent => true,
                _ => false,
            },
            QVariant::Integer(a) => match other {
                QVariant::Integer(b) => *a == *b,
                _ => false,
            },
            QVariant::Floating(a) => match other {
                QVariant::Floating(b) => *a == *b,
                _ => false,
            },
            QVariant::Boolean(a) => match other {
                QVariant::Boolean(b) => *a == *b,
                _ => false,
            },
            QVariant::Text(a) => match other {
                QVariant::Text(b) => *a == *b,
                _ => false,
            },
            QVariant::Opaque(a) => match other {
                QVariant::Opaque(b) => *a == *b,
                _ => false,
            },
        }
    }
}

impl PartialEqSpecImpl for QVariant {
    open spec fn obeys_eq_spec() -> bool {
        true
    }

    open spec fn eq_spec(&self, other: &Self) -> bool {
        self@ == other@
    }
}

impl Eq for QVariant {

}

impl QVariant {
    /// The kind of value held.
    pub fn tag(&self) -> (tag: CellTag)
        ensures
            tag == self@.tag(),
    {
        match self {
            QVariant::Absent => CellTag::Absent,
            QVariant::Integer(_) => CellTag::Integer,
            QVariant::Floating(_) => CellTag::Floating,
            QVariant::Boolean(_) => CellTag::Boolean,
            QVariant::Text(_) => CellTag::Text,
            QVariant::Opaque(_) => CellTag::Opaque,
        }
    }

    /// The text of `s` as a cell value.
    pub fn text(s: &str) -> (qvar: QVariant)
        ensures
            qvar@ == CellValue::Text(s@),
    {
        QVariant::Text(s.to_owned())
    }

    /// Whether no value is held.
    pub fn is_absent(&self) -> (absent: bool)
        ensures
            absent == (self@ == CellValue::Absent),
    {
        match self {
            QVariant::Absent => true,
            _ => false,
        }
    }
}

impl From<i32> for QVariant {
    fn from(i: i32) -> (qvar: QVariant) {
        QVariant::Integer(i)
    }
}

impl FromSpecImpl<i32> for QVariant {
    open spec fn obeys_from_spec() -> bool {
        true
    }

    open spec fn from_spec(i: i32) -> QVariant {
        QVariant::Integer(i)
    }
}

impl From<bool> for QVariant {
    fn from(b: bool) -> (qvar: QVariant) {
        QVariant::Boolean(b)
    }
}

impl FromSpecImpl<bool> for QVariant {
    open spec fn obeys_from_spec() -> bool {
        true
    }

    open spec fn from_spec(b: bool) -> QVariant {
        QVariant::Boolean(b)
    }
}

impl From<String> for QVariant {
    fn from(s: String) -> (qvar: QVariant) {
        QVariant::Text(s)
    }
}

impl FromSpecImpl<String> for QVariant {
    open spec fn obeys_from_spec() -> bool {
        true
    }

    open spec fn from_spec(s: String) -> QVariant {
        QVariant::Text(s)
    }
}

} // verus!
