use qml::{get_dos_qmeta, QMeta, QMetaDefinition, QObjectMacro, QVariant};

struct Test {
    launched: Vec<(i32, String)>,
}

impl QObjectMacro for Test {
    fn qslot_call(&mut self, name: &str, args: Vec<QVariant>) {
        let mut args = args.into_iter();
        if name == "launchGoose" {
            if let (Some(QVariant::Integer(i)), Some(QVariant::Text(s))) = (args.next(), args.next()) {
                self.launched.push((i, s));
            }
        }
    }

    fn qmeta(&self) -> QMetaDefinition {
        QMetaDefinition::new(
            vec![("testname", 2, vec![2, 2])],
            vec![("launchGoose", 43, 2, vec![2, 10])],
            "Test",
        )
    }
}

#[test]
fn definition_keeps_signals_and_slots_in_place() {
    let def = QMetaDefinition::new(
        vec![("first", 0, vec![]), ("second", 2, vec![2, 10])],
        vec![("slot", 43, 1, vec![1])],
        "Thing",
    );
    assert_eq!(def.name, "Thing");
    assert_eq!(def.name(), "Thing");
    let signals = def.signal_definitions();
    assert_eq!(signals.count, 2);
    assert_eq!(signals.definitions.len(), 2);
    assert_eq!(signals.definitions[0].name, "first");
    assert_eq!(signals.definitions[0].parameters_count, 0);
    assert!(signals.definitions[0].parameters_meta_types.is_empty());
    assert_eq!(signals.definitions[1].name, "second");
    assert_eq!(signals.definitions[1].parameters_count, 2);
    assert_eq!(signals.definitions[1].parameters_meta_types, vec![2, 10]);
    let slots = def.slot_definitions();
    assert_eq!(slots.count, 1);
    assert_eq!(slots.definitions[0].name, "slot");
    assert_eq!(slots.definitions[0].return_meta_type, 43);
    assert_eq!(slots.definitions[0].parameters_count, 1);
    assert_eq!(slots.definitions[0].parameters_meta_types, vec![1]);
    let properties = def.property_definitions();
    assert_eq!(properties.count, 0);
    assert!(properties.definitions.is_empty());
    assert!(def.is_consistent());
}

#[test]
fn definition_with_a_wrong_count_is_not_consistent() {
    assert!(!QMetaDefinition::new(vec![("s", 3, vec![2, 2])], vec![], "A").is_consistent());
    assert!(!QMetaDefinition::new(vec![("s", -1, vec![])], vec![], "A").is_consistent());
    assert!(!QMetaDefinition::new(vec![], vec![("t", 43, 0, vec![1])], "A").is_consistent());
    assert!(
        !QMetaDefinition::new(vec![("s", 1, vec![2])], vec![("t", 43, 2, vec![1])], "A")
            .is_consistent()
    );
    assert!(QMetaDefinition::new(vec![], vec![], "A").is_consistent());
}

#[test]
fn object_describes_and_dispatches() {
    let mut test = Test { launched: Vec::new() };
    let def = test.qmeta();
    assert_eq!(def.name, "Test");
    assert_eq!(def.signal_definitions().definitions[0].name, "testname");
    assert_eq!(def.slot_definitions().definitions[0].name, "launchGoose");
    test.qslot_call("launchGoose", vec![42.into(), "QML Rust".to_string().into()]);
    assert_eq!(test.launched, vec![(42, "QML Rust".to_string())]);
}

#[test]
fn meta_object_is_known_by_its_handle() {
    let meta = QMeta::from_handle(0xdead);
    assert_eq!(get_dos_qmeta(&meta), 0xdead);
    assert_eq!(get_dos_qmeta(&QMeta::from_handle(0)), 0);
}
