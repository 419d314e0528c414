use qml::{same_text, RoleSchema, START_ROLE};

#[test]
fn schema_counts_roles_from_the_base() {
    let schema = RoleSchema::new(&["name", "number"]).unwrap();
    assert_eq!(schema.len(), 2);
    assert_eq!(schema.role_of("name"), Some(0x0100));
    assert_eq!(schema.role_of("number"), Some(0x0101));
    assert_eq!(schema.role_of("Name"), None);
    assert_eq!(schema.role_of(""), None);
    assert_eq!(schema.name_of(0x0100), Some("name"));
    assert_eq!(schema.name_of(0x0101), Some("number"));
    assert_eq!(schema.name_of(0x0102), None);
    assert_eq!(schema.name_of(0x00ff), None);
    assert_eq!(schema.column_of(START_ROLE), Some(0));
    assert_eq!(schema.column_of(START_ROLE + 1), Some(1));
    assert_eq!(schema.column_of(START_ROLE + 2), None);
    assert_eq!(schema.column_of(START_ROLE - 1), None);
    assert_eq!(schema.column_of(i32::MIN), None);
    assert_eq!(schema.column_of(i32::MAX), None);
    assert_eq!(schema.names(), vec!["name".to_string(), "number".to_string()]);
}

#[test]
fn schema_refuses_a_repeated_name() {
    assert!(RoleSchema::new(&["a", "b", "a"]).is_none());
    assert!(RoleSchema::new(&["a", "a"]).is_none());
    assert!(RoleSchema::new(&["", ""]).is_none());
    assert!(RoleSchema::new(&["a", "b", "c", "b"]).is_none());
    assert!(RoleSchema::new(&["a", "A"]).is_some());
    assert!(RoleSchema::new(&["a", "ab"]).is_some());
    assert!(RoleSchema::from_names(vec!["x".to_string(), "x".to_string()]).is_none());
    assert!(RoleSchema::from_names(vec!["x".to_string(), "y".to_string()]).is_some());
}

#[test]
fn empty_schema_declares_nothing() {
    let schema = RoleSchema::new(&[]).unwrap();
    assert_eq!(schema.len(), 0);
    assert_eq!(schema.role_of("a"), None);
    assert_eq!(schema.column_of(START_ROLE), None);
    assert!(schema.role_names().is_empty());
}

#[test]
fn same_text_compares_every_byte() {
    assert!(same_text("", ""));
    assert!(same_text("number", "number"));
    assert!(!same_text("number", "numbex"));
    assert!(!same_text("number", "numbe"));
    assert!(!same_text("a", ""));
    assert!(same_text("h\u{e9}llo \u{1f600}", "h\u{e9}llo \u{1f600}"));
    assert!(!same_text("h\u{e9}llo", "hello"));
}
