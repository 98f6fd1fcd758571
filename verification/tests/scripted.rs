use rocksalt::{Cursor, Entry, Fault, FieldCapability, Scripted};

#[test]
fn a_new_scripted_field_takes_what_it_counts_for() {
    let field = Scripted::new(4, 2);
    assert_eq!(field.tag, 4);
    assert_eq!(field.count, 2);
    assert_eq!(field.takes, 2);
    assert_eq!(field.dependencies, Vec::<u64>::new());
    assert_eq!(field.fail_parse, None);
    assert_eq!(field.fail_serialize, None);
    assert_eq!(field.fail_persist, None);
    assert_eq!(field.count(), 2);
}

#[test]
fn a_scripted_field_materializes_into_what_it_took() {
    let field = Scripted::new(4, 2);
    let accounts = [10u64, 20, 30];
    let mut cursor = Cursor::new(&accounts);
    assert_eq!(field.parse(&1, &mut cursor, &0), Ok(vec![10, 20]));
    assert_eq!(cursor.position(), 2);
    assert_eq!(field.parse(&1, &mut cursor, &0), Err(Fault::NotEnoughAccounts));
    assert_eq!(cursor.position(), 2);
}

#[test]
fn a_scripted_field_fails_to_parse_when_told_to() {
    let mut field = Scripted::new(4, 1);
    field.fail_parse = Some(3);
    let accounts = [10u64];
    let mut cursor = Cursor::new(&accounts);
    assert_eq!(field.parse(&1, &mut cursor, &0), Err(Fault::Code(3)));
    assert_eq!(cursor.position(), 0);
}

#[test]
fn a_scripted_field_emits_one_entry_for_each_account() {
    let field = Scripted::new(4, 2);
    let accounts = [10u64, 20, 30];
    let mut cursor = Cursor::new(&accounts);
    assert_eq!(
        field.serialize_partial(&mut cursor),
        Ok(vec![Entry { field: 4, account: 10 }, Entry { field: 4, account: 20 }])
    );
    assert_eq!(cursor.position(), 2);
    assert_eq!(field.serialize_partial(&mut cursor), Err(Fault::NotEnoughAccounts));
}

#[test]
fn a_scripted_field_fails_to_serialize_when_told_to() {
    let mut field = Scripted::new(4, 1);
    field.fail_serialize = Some(3);
    let accounts = [10u64];
    let mut cursor = Cursor::new(&accounts);
    assert_eq!(field.serialize_partial(&mut cursor), Err(Fault::Code(3)));
    assert_eq!(cursor.position(), 0);
}

#[test]
fn a_scripted_field_writes_its_tag_and_its_value() {
    let field = Scripted::new(4, 2);
    let mut storage = vec![1];
    assert_eq!(field.persist(&vec![10, 20], &7, &mut storage), Ok(()));
    assert_eq!(storage, vec![1, 4, 10, 20]);
}

#[test]
fn a_scripted_field_fails_to_persist_after_it_has_written() {
    let mut field = Scripted::new(4, 1);
    field.fail_persist = Some(6);
    let mut storage = vec![];
    assert_eq!(field.persist(&vec![10], &7, &mut storage), Err(Fault::Code(6)));
    assert_eq!(storage, vec![4, 10]);
}

#[test]
fn a_scripted_field_lists_its_dependencies() {
    let mut field = Scripted::new(4, 1);
    field.dependencies = vec![8, 9, 8];
    assert_eq!(field.dependencies(), vec![8, 9, 8]);
}
