use rocksalt::{Cursor, Fault, FromAccounts, Schema, Scripted};

fn context_of(fields: Vec<(&str, Scripted)>) -> FromAccounts<Scripted> {
    let mut schema = Schema::new();
    for (name, field) in fields {
        assert_eq!(schema.register(name.to_string(), field), Ok(()));
    }
    FromAccounts::new(schema).ok().unwrap()
}

fn failing_parse(tag: u64, count: usize, code: u64) -> Scripted {
    let mut field = Scripted::new(tag, count);
    field.fail_parse = Some(code);
    field
}

#[test]
fn parse_visits_the_fields_in_declaration_order() {
    let context = context_of(vec![
        ("first", Scripted::new(1, 1)),
        ("second", Scripted::new(2, 1)),
        ("third", Scripted::new(3, 1)),
        ("fourth", Scripted::new(4, 1)),
    ]);
    let accounts = [11u64, 22, 33, 44];
    let mut cursor = Cursor::new(&accounts);
    let instance = context.parse(&7, &mut cursor, &0).ok().unwrap();
    assert_eq!(instance.into_values(), vec![vec![11], vec![22], vec![33], vec![44]]);
    assert_eq!(cursor.position(), 4);
}

#[test]
fn parse_hands_each_field_what_the_fields_before_it_left() {
    let context = context_of(vec![
        ("payer", Scripted::new(1, 1)),
        ("marker", Scripted::new(2, 0)),
        ("vaults", Scripted::new(3, 3)),
    ]);
    let accounts = [10u64, 20, 30, 40, 50];
    let mut cursor = Cursor::new(&accounts);
    let instance = context.parse(&7, &mut cursor, &0).ok().unwrap();
    assert_eq!(instance.len(), 3);
    assert_eq!(instance.value(0), Some(&vec![10]));
    assert_eq!(instance.value(1), Some(&vec![]));
    assert_eq!(instance.value(2), Some(&vec![20, 30, 40]));
    assert_eq!(instance.value(3), None);
    assert_eq!(cursor.position(), 4);
    assert_eq!(cursor.remaining(), 1);
    assert_eq!(cursor.next(), Some(&50));
}

#[test]
fn parse_advances_the_cursor_by_the_count() {
    let context = context_of(vec![
        ("payer", Scripted::new(1, 1)),
        ("marker", Scripted::new(2, 0)),
        ("vaults", Scripted::new(3, 3)),
    ]);
    let accounts = [10u64, 20, 30, 40, 50, 60];
    let mut cursor = Cursor::new(&accounts);
    assert_eq!(cursor.next(), Some(&10));
    let before = cursor.position();
    assert!(context.parse(&7, &mut cursor, &0).is_ok());
    assert_eq!(cursor.position() - before, context.count());
}

#[test]
fn parse_stops_at_the_first_field_that_fails() {
    let context = context_of(vec![
        ("first", Scripted::new(1, 1)),
        ("second", failing_parse(2, 1, 77)),
        ("third", Scripted::new(3, 1)),
        ("fourth", failing_parse(4, 1, 99)),
    ]);
    let accounts = [11u64, 22, 33, 44];
    let mut cursor = Cursor::new(&accounts);
    let failed = context.parse(&7, &mut cursor, &0);
    assert_eq!(failed.err(), Some(Fault::Code(77)));
    // Only the first field has taken an entry: no field after the second
    // one was parsed.
    assert_eq!(cursor.position(), 1);
    assert_eq!(cursor.next(), Some(&22));
}

#[test]
fn parse_returns_the_error_of_the_first_failure_not_of_a_later_one() {
    let context = context_of(vec![
        ("first", failing_parse(1, 1, 5)),
        ("second", failing_parse(2, 1, 6)),
    ]);
    let accounts = [11u64, 22];
    let mut cursor = Cursor::new(&accounts);
    assert_eq!(context.parse(&7, &mut cursor, &0).err(), Some(Fault::Code(5)));
    assert_eq!(cursor.position(), 0);
}

#[test]
fn parse_fails_on_a_list_that_is_too_short() {
    let context = context_of(vec![
        ("payer", Scripted::new(1, 1)),
        ("vaults", Scripted::new(2, 3)),
        ("last", Scripted::new(3, 1)),
    ]);
    let accounts = [10u64, 20, 30];
    let mut cursor = Cursor::new(&accounts);
    assert_eq!(context.parse(&7, &mut cursor, &0).err(), Some(Fault::NotEnoughAccounts));
    // The second field failed before it took anything.
    assert_eq!(cursor.position(), 1);
}

#[test]
fn parse_of_an_empty_schema_takes_nothing() {
    let context = context_of(vec![]);
    let accounts = [10u64, 20];
    let mut cursor = Cursor::new(&accounts);
    let instance = context.parse(&7, &mut cursor, &0).ok().unwrap();
    assert_eq!(instance.len(), 0);
    assert_eq!(cursor.position(), 0);
}

#[test]
fn parse_starts_where_the_cursor_stands() {
    let context = context_of(vec![("only", Scripted::new(1, 2))]);
    let accounts = [10u64, 20, 30, 40];
    let mut cursor = Cursor::new(&accounts);
    assert_eq!(cursor.next(), Some(&10));
    let instance = context.parse(&7, &mut cursor, &0).ok().unwrap();
    assert_eq!(instance.into_values(), vec![vec![20, 30]]);
    assert_eq!(cursor.position(), 3);
}

#[test]
fn values_are_found_by_the_names_of_their_fields() {
    let context = context_of(vec![
        ("payer", Scripted::new(1, 1)),
        ("vaults", Scripted::new(2, 2)),
    ]);
    let accounts = [10u64, 20, 30];
    let mut cursor = Cursor::new(&accounts);
    let instance = context.parse(&7, &mut cursor, &0).ok().unwrap();
    assert_eq!(context.value_of(&instance, &"vaults".to_string()), Some(&vec![20, 30]));
    assert_eq!(context.value_of(&instance, &"payer".to_string()), Some(&vec![10]));
    assert_eq!(context.value_of(&instance, &"owner".to_string()), None);
}
