use rocksalt::Cursor;

#[test]
fn a_new_cursor_stands_at_the_start() {
    let accounts = [1u8, 2, 3];
    let cursor = Cursor::new(&accounts);
    assert_eq!(cursor.position(), 0);
    assert_eq!(cursor.remaining(), 3);
}

#[test]
fn next_hands_out_the_entries_one_by_one() {
    let accounts = [1u8, 2, 3];
    let mut cursor = Cursor::new(&accounts);
    assert_eq!(cursor.next(), Some(&1));
    assert_eq!(cursor.next(), Some(&2));
    assert_eq!(cursor.position(), 2);
    assert_eq!(cursor.remaining(), 1);
    assert_eq!(cursor.next(), Some(&3));
    assert_eq!(cursor.next(), None);
    assert_eq!(cursor.next(), None);
    assert_eq!(cursor.position(), 3);
    assert_eq!(cursor.remaining(), 0);
}

#[test]
fn take_hands_out_several_entries_at_once() {
    let accounts = [1u8, 2, 3, 4, 5];
    let mut cursor = Cursor::new(&accounts);
    assert_eq!(cursor.take(2), Some(&[1u8, 2][..]));
    assert_eq!(cursor.position(), 2);
    assert_eq!(cursor.take(0), Some(&[][..]));
    assert_eq!(cursor.position(), 2);
    assert_eq!(cursor.take(3), Some(&[3u8, 4, 5][..]));
    assert_eq!(cursor.position(), 5);
    assert_eq!(cursor.take(0), Some(&[][..]));
}

#[test]
fn take_never_moves_past_the_end() {
    let accounts = [1u8, 2, 3];
    let mut cursor = Cursor::new(&accounts);
    assert_eq!(cursor.next(), Some(&1));
    assert_eq!(cursor.take(3), None);
    assert_eq!(cursor.position(), 1);
    assert_eq!(cursor.take(usize::MAX), None);
    assert_eq!(cursor.position(), 1);
    assert_eq!(cursor.take(2), Some(&[2u8, 3][..]));
}

#[test]
fn a_cursor_over_nothing_hands_out_nothing() {
    let accounts: [u8; 0] = [];
    let mut cursor = Cursor::new(&accounts);
    assert_eq!(cursor.remaining(), 0);
    assert_eq!(cursor.next(), None);
    assert_eq!(cursor.take(1), None);
    assert_eq!(cursor.position(), 0);
}
