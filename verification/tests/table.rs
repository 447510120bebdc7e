use statsd::table::Table;

#[test]
fn a_new_table_is_empty() {
    let t: Table<u64> = Table::new();
    assert_eq!(t.len(), 0);
    assert_eq!(t.find(b"a"), None);
    assert_eq!(t.get(b"a"), None);
}

#[test]
fn put_keeps_the_order_of_arrival() {
    let mut t: Table<u64> = Table::new();
    t.put(b"b", 1);
    t.put(b"a", 2);
    t.put(b"c", 3);
    t.put(b"a", 4);
    assert_eq!(t.len(), 3);
    assert_eq!(t.key(0), &b"b".to_vec());
    assert_eq!(t.key(1), &b"a".to_vec());
    assert_eq!(t.key(2), &b"c".to_vec());
    assert_eq!(*t.value(0), 1);
    assert_eq!(*t.value(1), 4);
    assert_eq!(*t.value(2), 3);
    assert_eq!(t.find(b"a"), Some(1));
    assert_eq!(t.get(b"c"), Some(&3));
    assert_eq!(t.get(b"d"), None);
}

#[test]
fn append_grows_the_list_of_a_name() {
    let mut t: Table<Vec<u64>> = Table::new();
    t.append(b"t", 1);
    t.append(b"u", 9);
    t.append(b"t", 2);
    t.append(b"t", 3);
    assert_eq!(t.len(), 2);
    assert_eq!(t.get(b"t"), Some(&vec![1, 2, 3]));
    assert_eq!(t.get(b"u"), Some(&vec![9]));
}

#[test]
fn clear_empties_the_table() {
    let mut t: Table<u64> = Table::new();
    t.put(b"a", 1);
    t.clear();
    assert_eq!(t.len(), 0);
    assert_eq!(t.get(b"a"), None);
    t.put(b"a", 2);
    assert_eq!(t.get(b"a"), Some(&2));
}

#[test]
fn names_are_compared_byte_for_byte() {
    let mut t: Table<u64> = Table::new();
    t.put(b"ab", 1);
    t.put(b"a", 2);
    t.put(b"", 3);
    t.put(&[0xff, 0x00], 4);
    assert_eq!(t.len(), 4);
    assert_eq!(t.get(b"a"), Some(&2));
    assert_eq!(t.get(b""), Some(&3));
    assert_eq!(t.get(&[0xff, 0x00]), Some(&4));
    assert_eq!(t.get(&[0xff]), None);
}
