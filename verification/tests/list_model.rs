use qml::{
    CellTag, ModelError, Notification, Phase, QListModel, QModelIndex, QVariant, RoleSchema,
    DEFAULT_ITEM_FLAGS, ITEM_IS_EDITABLE, ITEM_IS_ENABLED, ITEM_IS_SELECTABLE, MAX_ROWS,
    START_ROLE,
};

fn ints(values: &[i32]) -> Vec<Vec<QVariant>> {
    values.iter().map(|v| vec![QVariant::Integer(*v)]).collect()
}

fn five_numbers() -> Box<QListModel> {
    let mut m = QListModel::new(&["number"]);
    assert_eq!(m.set_data(ints(&[1, 74, 7, 8, 75])), Ok(()));
    m
}

#[test]
fn new_model_is_empty_and_idle() {
    let m = QListModel::new(&["name", "number"]);
    assert_eq!(m.row_count(), 0);
    assert_eq!(m.view_row_count(), 0);
    assert_eq!(m.phase(), Phase::Idle);
    assert!(m.notifications().is_empty());
    assert!(m.view_data().is_empty());
    assert_eq!(m.schema().len(), 2);
    assert_eq!(m.get_qvar(), QVariant::Opaque(0));
    assert_eq!(m.query(0, START_ROLE), QVariant::Absent);
}

#[test]
fn with_schema_makes_the_same_model() {
    let schema = RoleSchema::new(&["name", "number"]).unwrap();
    let m = QListModel::with_schema(schema);
    assert_eq!(m.row_count(), 0);
    assert_eq!(m.schema().role_of("number"), Some(START_ROLE + 1));
}

#[test]
fn five_rows_then_insert_one() {
    let mut m = five_numbers();
    assert_eq!(m.row_count(), 5);
    assert_eq!(m.query_named(2, "number"), QVariant::Integer(7));
    assert_eq!(m.insert_rows(5, 1, ints(&[99])), Ok(()));
    assert_eq!(m.row_count(), 6);
    assert_eq!(m.query_named(5, "number"), QVariant::Integer(99));
    assert_eq!(m.query(5, START_ROLE), QVariant::Integer(99));
    assert_eq!(m.phase(), Phase::Idle);
}

#[test]
fn reset_to_nothing_empties_the_model() {
    let mut m = five_numbers();
    assert_eq!(m.set_data(Vec::new()), Ok(()));
    assert_eq!(m.row_count(), 0);
    assert_eq!(m.query(0, START_ROLE), QVariant::Absent);
    assert_eq!(m.query(0, START_ROLE + 7), QVariant::Absent);
    assert_eq!(m.query(0, 0), QVariant::Absent);
    assert_eq!(m.query_named(0, "number"), QVariant::Absent);
}

#[test]
fn reset_twice_leaves_the_same_rows() {
    let mut once = QListModel::new(&["a", "b"]);
    let mut twice = QListModel::new(&["a", "b"]);
    let rows = || {
        vec![
            vec![QVariant::Integer(1)],
            vec![QVariant::Boolean(true), QVariant::text("x"), QVariant::Integer(3)],
        ]
    };
    assert_eq!(once.set_data(rows()), Ok(()));
    assert_eq!(twice.set_data(rows()), Ok(()));
    assert_eq!(twice.set_data(rows()), Ok(()));
    assert_eq!(once.view_data(), twice.view_data());
    assert_eq!(twice.view_data(), &rows()[..]);
    assert_eq!(twice.row_count(), 2);
}

#[test]
fn reset_leaves_the_rows_given_and_no_other() {
    let mut m = five_numbers();
    let rows = || {
        vec![
            vec![],
            vec![QVariant::Integer(1), QVariant::Integer(2), QVariant::Integer(3)],
            vec![QVariant::text("only")],
        ]
    };
    assert_eq!(m.set_data(rows()), Ok(()));
    assert_eq!(m.view_data(), &rows()[..]);
    assert_eq!(m.row_count(), 3);
    assert_eq!(m.query(0, START_ROLE), QVariant::Absent);
    assert_eq!(m.query(1, START_ROLE), QVariant::Integer(1));
    assert_eq!(m.query(1, START_ROLE + 1), QVariant::Absent);
    assert_eq!(m.query(2, START_ROLE), QVariant::text("only"));
}

#[test]
fn insert_counts_rows_and_reads_them_back() {
    let mut m = QListModel::new(&["name", "number"]);
    let rows = vec![
        vec![QVariant::text("ann"), QVariant::Integer(1)],
        vec![QVariant::text("bob"), QVariant::Integer(2)],
        vec![QVariant::text("cy"), QVariant::Integer(3)],
    ];
    assert_eq!(m.insert_rows(0, 3, rows), Ok(()));
    assert_eq!(m.row_count(), 3);
    for (r, (name, number)) in [("ann", 1), ("bob", 2), ("cy", 3)].iter().enumerate() {
        assert_eq!(m.query(r as i32, START_ROLE), QVariant::text(name));
        assert_eq!(m.query(r as i32, START_ROLE + 1), QVariant::Integer(*number));
    }
}

#[test]
fn insert_in_the_middle_moves_later_rows_down() {
    let mut m = five_numbers();
    assert_eq!(m.insert_rows(1, 2, ints(&[10, 11])), Ok(()));
    assert_eq!(m.row_count(), 7);
    assert_eq!(m.view_data(), &ints(&[1, 10, 11, 74, 7, 8, 75])[..]);
    assert_eq!(m.insert_rows(0, 1, ints(&[0])), Ok(()));
    assert_eq!(m.view_data(), &ints(&[0, 1, 10, 11, 74, 7, 8, 75])[..]);
}

#[test]
fn insert_records_its_bracket() {
    let mut m = five_numbers();
    assert_eq!(m.take_notifications(), vec![Notification::BeginReset, Notification::EndReset]);
    assert_eq!(m.insert_rows(5, 1, ints(&[99])), Ok(()));
    assert_eq!(m.insert_rows(2, 3, ints(&[4, 5, 6])), Ok(()));
    assert_eq!(
        m.notifications(),
        &[
            Notification::BeginInsert { first: 5, last: 5 },
            Notification::EndInsert,
            Notification::BeginInsert { first: 2, last: 4 },
            Notification::EndInsert
        ]
    );
}

#[test]
fn rows_of_another_width_are_kept_as_given() {
    let mut m = QListModel::new(&["a", "b", "c"]);
    let rows = || {
        vec![
            vec![QVariant::Integer(1)],
            vec![
                QVariant::Integer(1),
                QVariant::Integer(2),
                QVariant::Integer(3),
                QVariant::Integer(4),
            ],
            vec![],
        ]
    };
    assert!(!m.fits(&rows()));
    assert_eq!(m.insert_rows(0, 3, rows()), Ok(()));
    assert_eq!(m.view_data(), &rows()[..]);
    assert_eq!(m.view_data()[0].len(), 1);
    assert_eq!(m.view_data()[1].len(), 4);
    assert_eq!(m.view_data()[2].len(), 0);
    assert_eq!(m.query(0, START_ROLE), QVariant::Integer(1));
    assert_eq!(m.query(0, START_ROLE + 1), QVariant::Absent);
    assert_eq!(m.query(0, START_ROLE + 2), QVariant::Absent);
    assert_eq!(m.query(1, START_ROLE + 2), QVariant::Integer(3));
    assert_eq!(m.query(1, START_ROLE + 3), QVariant::Absent);
    assert_eq!(m.query(2, START_ROLE), QVariant::Absent);
}

#[test]
fn rows_appended_one_by_one_keep_their_order() {
    let mut m = QListModel::new(&["a", "b"]);
    let rows = vec![
        vec![QVariant::Integer(3), QVariant::text("c")],
        vec![QVariant::Integer(1)],
        vec![QVariant::Integer(2), QVariant::text("b"), QVariant::Boolean(true)],
        vec![],
    ];
    for (k, row) in rows.iter().enumerate() {
        assert_eq!(m.insert_row(row.clone().into_iter()), Ok(()));
        assert_eq!(m.row_count(), k + 1);
        assert_eq!(m.view_data(), &rows[..k + 1]);
    }
}

#[test]
fn reads_out_of_bounds_give_no_value() {
    let m = five_numbers();
    assert_eq!(m.query(-1, START_ROLE), QVariant::Absent);
    assert_eq!(m.query(5, START_ROLE), QVariant::Absent);
    assert_eq!(m.query(i32::MAX, START_ROLE), QVariant::Absent);
    assert_eq!(m.query(i32::MIN, START_ROLE), QVariant::Absent);
    assert_eq!(m.query(0, START_ROLE - 1), QVariant::Absent);
    assert_eq!(m.query(0, START_ROLE + 1), QVariant::Absent);
    assert_eq!(m.query(0, i32::MAX), QVariant::Absent);
    assert_eq!(m.query(0, i32::MIN), QVariant::Absent);
    assert_eq!(m.query_named(0, "nothing"), QVariant::Absent);
    assert_eq!(m.query(4, START_ROLE), QVariant::Integer(75));
    assert_eq!(m.data(QModelIndex::for_row(4), START_ROLE), QVariant::Integer(75));
    assert_eq!(m.data(QModelIndex::new(), START_ROLE), QVariant::Absent);
}

#[test]
fn insert_row_appends_what_the_iterator_yields() {
    let mut m = QListModel::new(&["name", "number"]);
    assert_eq!(
        m.insert_row(vec![QVariant::text("John"), QVariant::Integer(42)].into_iter()),
        Ok(())
    );
    assert_eq!(m.insert_row(vec![QVariant::text("Oak")].into_iter()), Ok(()));
    assert_eq!(m.insert_row((0..5).map(QVariant::Integer)), Ok(()));
    assert_eq!(m.row_count(), 3);
    assert_eq!(
        m.view_data(),
        &[
            vec![QVariant::text("John"), QVariant::Integer(42)],
            vec![QVariant::text("Oak")],
            vec![
                QVariant::Integer(0),
                QVariant::Integer(1),
                QVariant::Integer(2),
                QVariant::Integer(3),
                QVariant::Integer(4)
            ]
        ]
    );
    assert_eq!(m.query(1, START_ROLE + 1), QVariant::Absent);
    assert_eq!(m.query(2, START_ROLE + 1), QVariant::Integer(1));
    assert_eq!(m.query(2, START_ROLE + 2), QVariant::Absent);
    assert_eq!(
        m.notifications(),
        &[
            Notification::BeginInsert { first: 0, last: 0 },
            Notification::EndInsert,
            Notification::BeginInsert { first: 1, last: 1 },
            Notification::EndInsert,
            Notification::BeginInsert { first: 2, last: 2 },
            Notification::EndInsert
        ]
    );
}

#[test]
fn insert_is_refused_for_each_reason() {
    let mut m = five_numbers();
    let before: Vec<Vec<QVariant>> = m.view_data().to_vec();
    let log_before = m.notifications().len();
    assert_eq!(m.insert_rows(0, 0, Vec::new()), Err(ModelError::EmptyRange));
    assert_eq!(m.insert_rows(6, 1, ints(&[1])), Err(ModelError::StartOutOfRange));
    assert_eq!(m.insert_rows(6, 0, Vec::new()), Err(ModelError::EmptyRange));
    assert_eq!(m.insert_rows(0, MAX_ROWS - 4, ints(&[1])), Err(ModelError::TooManyRows));
    assert_eq!(m.insert_rows(0, usize::MAX, ints(&[1])), Err(ModelError::TooManyRows));
    assert_eq!(m.insert_rows(0, MAX_ROWS - 5, ints(&[1])), Err(ModelError::CountMismatch));
    assert_eq!(m.insert_rows(0, 2, ints(&[1])), Err(ModelError::CountMismatch));
    assert_eq!(m.insert_rows(0, 1, ints(&[1, 2])), Err(ModelError::CountMismatch));
    assert_eq!(m.view_data(), &before[..]);
    assert_eq!(m.notifications().len(), log_before);
    assert_eq!(m.phase(), Phase::Idle);
}

#[test]
fn brackets_do_not_nest() {
    let mut m = five_numbers();
    assert_eq!(
        m.begin_insert_rows(5, 2),
        Ok(Notification::BeginInsert { first: 5, last: 6 })
    );
    assert_eq!(m.phase(), Phase::Inserting { start: 5, count: 2 });
    assert_eq!(m.begin_insert_rows(0, 1), Err(ModelError::BracketOpen));
    assert_eq!(m.begin_reset_model(), Err(ModelError::BracketOpen));
    assert_eq!(m.insert_rows(0, 1, ints(&[1])), Err(ModelError::BracketOpen));
    assert_eq!(m.insert_row(vec![QVariant::Integer(1)].into_iter()), Err(ModelError::BracketOpen));
    assert_eq!(m.set_data(Vec::new()), Err(ModelError::BracketOpen));
    assert_eq!(m.end_reset_model(Vec::new()), Err(ModelError::BracketNotOpen));
    assert_eq!(m.phase(), Phase::Inserting { start: 5, count: 2 });
    assert_eq!(m.row_count(), 5);
    assert_eq!(m.end_insert_rows(ints(&[1])), Err(ModelError::CountMismatch));
    assert_eq!(m.phase(), Phase::Inserting { start: 5, count: 2 });
    assert_eq!(m.end_insert_rows(ints(&[98, 99])), Ok(Notification::EndInsert));
    assert_eq!(m.phase(), Phase::Idle);
    assert_eq!(m.row_count(), 7);
    assert_eq!(m.query(6, START_ROLE), QVariant::Integer(99));
}

#[test]
fn reset_bracket_step_by_step() {
    let mut m = five_numbers();
    assert_eq!(m.end_reset_model(Vec::new()), Err(ModelError::BracketNotOpen));
    assert_eq!(m.end_insert_rows(Vec::new()), Err(ModelError::BracketNotOpen));
    assert_eq!(m.begin_reset_model(), Ok(Notification::BeginReset));
    assert_eq!(m.phase(), Phase::Resetting);
    assert_eq!(m.row_count(), 5);
    assert_eq!(m.query(1, START_ROLE), QVariant::Integer(74));
    assert_eq!(m.begin_reset_model(), Err(ModelError::BracketOpen));
    assert_eq!(m.begin_insert_rows(0, 1), Err(ModelError::BracketOpen));
    assert_eq!(m.end_insert_rows(ints(&[1])), Err(ModelError::BracketNotOpen));
    assert_eq!(m.end_reset_model(ints(&[3, 2])), Ok(Notification::EndReset));
    assert_eq!(m.phase(), Phase::Idle);
    assert_eq!(m.view_data(), &ints(&[3, 2])[..]);
}

#[test]
fn open_append_bracket_shows_no_row_of_the_range() {
    let mut m = five_numbers();
    assert_eq!(
        m.begin_insert_rows(5, 2),
        Ok(Notification::BeginInsert { first: 5, last: 6 })
    );
    assert_eq!(m.query(5, START_ROLE), QVariant::Absent);
    assert_eq!(m.query(6, START_ROLE), QVariant::Absent);
    assert_eq!(m.query(4, START_ROLE), QVariant::Integer(75));
    assert_eq!(m.end_insert_rows(ints(&[5, 6])), Ok(Notification::EndInsert));
    assert_eq!(m.query(5, START_ROLE), QVariant::Integer(5));
    assert_eq!(m.query(6, START_ROLE), QVariant::Integer(6));
}

#[test]
fn open_bracket_keeps_its_record() {
    let mut m = five_numbers();
    assert_eq!(m.begin_insert_rows(0, 1), Ok(Notification::BeginInsert { first: 0, last: 0 }));
    assert!(m.take_notifications().is_empty());
    assert_eq!(m.notifications().len(), 3);
    assert_eq!(m.end_insert_rows(ints(&[0])), Ok(Notification::EndInsert));
    assert_eq!(
        m.take_notifications(),
        vec![
            Notification::BeginReset,
            Notification::EndReset,
            Notification::BeginInsert { first: 0, last: 0 },
            Notification::EndInsert
        ]
    );
    assert!(m.notifications().is_empty());
    assert!(m.take_notifications().is_empty());
    assert_eq!(m.row_count(), 6);
}

#[test]
fn peer_is_registered_once() {
    let mut m = QListModel::new(&["number"]);
    assert!(!m.register_peer(0));
    assert_eq!(m.get_qvar(), QVariant::Opaque(0));
    assert!(m.register_peer(0x1000));
    assert_eq!(m.get_qvar(), QVariant::Opaque(0x1000));
    assert!(!m.register_peer(0x2000));
    assert_eq!(m.get_qvar(), QVariant::Opaque(0x1000));
    assert_eq!(QVariant::from(&*m), QVariant::Opaque(0x1000));
}

#[test]
fn schema_is_projected_from_the_base_role() {
    let m = QListModel::new(&["name", "number", "age"]);
    assert_eq!(START_ROLE, 0x0100);
    assert_eq!(
        m.role_names(),
        vec![
            (0x0100, "name".to_string()),
            (0x0101, "number".to_string()),
            (0x0102, "age".to_string())
        ]
    );
}

#[test]
fn list_has_one_column_and_no_headers() {
    let m = five_numbers();
    assert_eq!(m.column_count(QModelIndex::new()), 1);
    assert_eq!(m.column_count(QModelIndex::for_row(3)), 1);
    assert_eq!(m.header_data(0, 1, START_ROLE), QVariant::Absent);
    assert_eq!(m.header_data(3, 2, 0), QVariant::Absent);
}

#[test]
fn every_item_has_the_default_flags() {
    let m = five_numbers();
    assert_eq!(ITEM_IS_SELECTABLE | ITEM_IS_ENABLED, 33);
    assert_eq!(DEFAULT_ITEM_FLAGS, 33);
    assert_eq!(DEFAULT_ITEM_FLAGS & ITEM_IS_EDITABLE, 0);
    assert_eq!(m.flags(QModelIndex::for_row(0)), 33);
    assert_eq!(m.flags(QModelIndex::for_row(4)), 33);
    assert_eq!(m.flags(QModelIndex::for_row(5)), 33);
    assert_eq!(m.flags(QModelIndex::new()), 33);
    let empty = QListModel::new(&["number"]);
    assert_eq!(empty.flags(QModelIndex::for_row(0)), DEFAULT_ITEM_FLAGS);
}

#[test]
fn cell_is_written_only_inside_the_model() {
    let mut m = QListModel::new(&["name", "number"]);
    assert_eq!(
        m.set_data(vec![
            vec![QVariant::text("ann"), QVariant::Integer(1)],
            vec![QVariant::text("bob"), QVariant::Integer(2)],
        ]),
        Ok(())
    );
    let log = m.notifications().len();
    assert!(m.set_cell(QModelIndex::for_row(1), QVariant::Integer(20), START_ROLE + 1));
    assert_eq!(m.query(1, START_ROLE + 1), QVariant::Integer(20));
    assert_eq!(m.query(1, START_ROLE), QVariant::text("bob"));
    assert_eq!(m.query(0, START_ROLE + 1), QVariant::Integer(1));
    assert!(!m.set_cell(QModelIndex::for_row(2), QVariant::Integer(3), START_ROLE));
    assert!(!m.set_cell(QModelIndex::new(), QVariant::Integer(3), START_ROLE));
    assert!(!m.set_cell(QModelIndex::for_row(0), QVariant::Integer(3), START_ROLE + 2));
    assert!(!m.set_cell(QModelIndex::for_row(0), QVariant::Integer(3), 0));
    assert_eq!(m.notifications().len(), log);
    assert_eq!(m.insert_row(vec![QVariant::text("cy")].into_iter()), Ok(()));
    assert!(!m.set_cell(QModelIndex::for_row(2), QVariant::Integer(3), START_ROLE + 1));
    assert!(m.set_cell(QModelIndex::for_row(2), QVariant::text("di"), START_ROLE));
    assert_eq!(m.view_data()[2], vec![QVariant::text("di")]);
    assert_eq!(m.begin_reset_model(), Ok(Notification::BeginReset));
    assert!(!m.set_cell(QModelIndex::for_row(0), QVariant::Integer(3), START_ROLE));
    assert_eq!(m.query(0, START_ROLE), QVariant::text("ann"));
}

#[test]
fn view_row_count_is_the_row_count() {
    let mut m = five_numbers();
    assert_eq!(m.view_row_count(), 5);
    assert_eq!(m.insert_rows(0, 1, ints(&[0])), Ok(()));
    assert_eq!(m.view_row_count(), 6);
}

#[test]
fn read_has_the_tag_of_what_was_stored() {
    let mut m = QListModel::new(&["a", "b", "c", "d", "e"]);
    let row = vec![
        QVariant::Integer(1),
        QVariant::Floating(0.5f64.to_bits()),
        QVariant::Boolean(true),
        QVariant::text("t"),
        QVariant::Opaque(4),
    ];
    assert_eq!(m.insert_row(row.into_iter()), Ok(()));
    let tags = [
        CellTag::Integer,
        CellTag::Floating,
        CellTag::Boolean,
        CellTag::Text,
        CellTag::Opaque,
    ];
    for (column, tag) in tags.iter().enumerate() {
        assert_eq!(m.query(0, START_ROLE + column as i32).tag(), *tag);
        assert_eq!(m.query(1, START_ROLE + column as i32).tag(), CellTag::Absent);
    }
    assert_eq!(m.query(0, START_ROLE + 1), QVariant::Floating(0.5f64.to_bits()));
}

#[test]
fn fits_tells_whether_rows_are_schema_wide() {
    let m = QListModel::new(&["a", "b"]);
    assert!(m.fits(&[]));
    assert!(m.fits(&[vec![QVariant::Absent, QVariant::Integer(1)]]));
    assert!(!m.fits(&[vec![QVariant::Integer(1)]]));
    assert!(!m.fits(&[
        vec![QVariant::Absent, QVariant::Integer(1)],
        vec![QVariant::Absent, QVariant::Integer(1), QVariant::Integer(2)]
    ]));
}
