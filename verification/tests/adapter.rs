use qml::{QAbstractListModel, QModel, QModelIndex, QVariant, DEFAULT_ITEM_FLAGS, START_ROLE};
use std::cell::Cell;

pub struct SimpleList(Vec<i32>);

impl QModel for SimpleList {
    fn row_count(&self) -> i32 {
        self.0.len() as i32
    }

    fn data(&self, index: QModelIndex, _role: i32) -> QVariant {
        QVariant::from(self.0[index.row() as usize])
    }

    fn roles_names(&self) -> Vec<String> {
        vec!["name".to_string(), "number".to_string()]
    }

    fn flags(&self, _index: QModelIndex) -> i32 {
        0
    }
}

struct Counting {
    names: Vec<String>,
    rows: i32,
    asked_names: Cell<u32>,
    asked_data: Cell<u32>,
}

impl Counting {
    fn new(names: &[&str], rows: i32) -> Counting {
        Counting {
            names: names.iter().map(|n| n.to_string()).collect(),
            rows,
            asked_names: Cell::new(0),
            asked_data: Cell::new(0),
        }
    }
}

impl QModel for Counting {
    fn row_count(&self) -> i32 {
        self.rows
    }

    fn data(&self, index: QModelIndex, role: i32) -> QVariant {
        self.asked_data.set(self.asked_data.get() + 1);
        QVariant::Integer(index.row() * 1000 + role)
    }

    fn roles_names(&self) -> Vec<String> {
        self.asked_names.set(self.asked_names.get() + 1);
        self.names.clone()
    }

    fn flags(&self, index: QModelIndex) -> i32 {
        if index.row() == 0 {
            DEFAULT_ITEM_FLAGS
        } else {
            1
        }
    }
}

#[test]
fn attached_source_is_read_through() {
    let model = SimpleList(vec![1, 74, 7, 8, 75]);
    let qalm = QAbstractListModel::new(&model).unwrap();
    assert_eq!(qalm.row_count(), 5);
    assert_eq!(qalm.query_named(2, "number"), QVariant::Integer(7));
    assert_eq!(qalm.query(2, START_ROLE), QVariant::Integer(7));
    assert_eq!(qalm.data(QModelIndex::for_row(4), START_ROLE + 1), QVariant::Integer(75));
    assert_eq!(qalm.flags(QModelIndex::for_row(0)), 0);
    assert_eq!(qalm.get_qvar(), QVariant::Opaque(0));
}

#[test]
fn read_outside_the_source_does_not_reach_it() {
    let model = SimpleList(vec![1, 74, 7, 8, 75]);
    let qalm = QAbstractListModel::new(&model).unwrap();
    assert_eq!(qalm.query(5, START_ROLE), QVariant::Absent);
    assert_eq!(qalm.query(-1, START_ROLE), QVariant::Absent);
    assert_eq!(qalm.query(i32::MAX, START_ROLE), QVariant::Absent);
    assert_eq!(qalm.query(0, START_ROLE + 2), QVariant::Absent);
    assert_eq!(qalm.query(0, START_ROLE - 1), QVariant::Absent);
    assert_eq!(qalm.query_named(0, "age"), QVariant::Absent);
    assert_eq!(qalm.data(QModelIndex::new(), START_ROLE), QVariant::Absent);

    let counting = Counting::new(&["a"], 2);
    let adapter = QAbstractListModel::new(&counting).unwrap();
    assert_eq!(adapter.query(2, START_ROLE), QVariant::Absent);
    assert_eq!(adapter.query(0, START_ROLE + 1), QVariant::Absent);
    assert_eq!(counting.asked_data.get(), 0);
    assert_eq!(adapter.query(1, START_ROLE), QVariant::Integer(1000 + START_ROLE));
    assert_eq!(counting.asked_data.get(), 1);
}

#[test]
fn source_with_negative_row_count_has_no_rows() {
    let counting = Counting::new(&["a"], -3);
    let adapter = QAbstractListModel::new(&counting).unwrap();
    assert_eq!(adapter.row_count(), -3);
    assert_eq!(adapter.query(0, START_ROLE), QVariant::Absent);
    assert_eq!(adapter.query(-1, START_ROLE), QVariant::Absent);
    assert_eq!(counting.asked_data.get(), 0);
}

#[test]
fn schema_is_asked_once_and_kept() {
    let counting = Counting::new(&["name", "number"], 1);
    let adapter = QAbstractListModel::new(&counting).unwrap();
    assert_eq!(counting.asked_names.get(), 1);
    assert_eq!(
        adapter.role_names(),
        vec![(START_ROLE, "name".to_string()), (START_ROLE + 1, "number".to_string())]
    );
    assert_eq!(adapter.roles_names(), vec!["name".to_string(), "number".to_string()]);
    assert_eq!(adapter.schema().len(), 2);
    assert_eq!(adapter.query_named(0, "number"), QVariant::Integer(START_ROLE + 1));
    assert_eq!(counting.asked_names.get(), 1);
}

#[test]
fn source_with_repeated_names_is_not_bound() {
    let counting = Counting::new(&["name", "number", "name"], 1);
    assert!(QAbstractListModel::new(&counting).is_none());
    assert!(QAbstractListModel::with_roles(&counting, vec!["x".to_string(), "x".to_string()])
        .is_none());
    let bound = QAbstractListModel::with_roles(&counting, vec!["x".to_string(), "y".to_string()]);
    assert_eq!(bound.unwrap().schema().role_of("y"), Some(START_ROLE + 1));
}

#[test]
fn adapter_passes_flags_and_counts_through() {
    let counting = Counting::new(&["a"], 7);
    let adapter = QAbstractListModel::new(&counting).unwrap();
    assert_eq!(adapter.row_count(), 7);
    assert_eq!(adapter.flags(QModelIndex::for_row(0)), 33);
    assert_eq!(adapter.flags(QModelIndex::for_row(1)), 1);
    assert!(adapter.covers(7, 6, START_ROLE));
    assert!(!adapter.covers(7, 7, START_ROLE));
    assert!(!adapter.covers(7, 0, START_ROLE + 1));
    assert!(!adapter.covers(0, 0, START_ROLE));
    assert!(!adapter.covers(-1, -1, START_ROLE));
}

#[test]
fn adapter_peer_is_registered_once() {
    let model = SimpleList(vec![1]);
    let mut qalm = QAbstractListModel::new(&model).unwrap();
    assert!(!qalm.register_peer(0));
    assert!(qalm.register_peer(77));
    assert!(!qalm.register_peer(78));
    assert_eq!(qalm.get_qvar(), QVariant::Opaque(77));
}
