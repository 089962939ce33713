use state_machine::table::Table;

#[test]
fn table_insert_get_remove() {
    let mut t: Table<u32> = Table::new();
    assert_eq!(t.get(&"a".to_string()), None);
    assert!(!t.contains_key(&"a".to_string()));
    t.insert("a".to_string(), 1);
    t.insert("b".to_string(), 2);
    t.insert("c".to_string(), 3);
    t.insert("a".to_string(), 10);
    assert_eq!(t.get(&"a".to_string()), Some(&10));
    assert_eq!(t.get(&"b".to_string()), Some(&2));
    assert_eq!(t.get(&"c".to_string()), Some(&3));
    t.remove(&"a".to_string());
    assert_eq!(t.get(&"a".to_string()), None);
    assert_eq!(t.get(&"b".to_string()), Some(&2));
    assert_eq!(t.get(&"c".to_string()), Some(&3));
    assert!(t.contains_key(&"c".to_string()));
    t.remove(&"zzz".to_string());
    t.remove(&"c".to_string());
    assert_eq!(t.get(&"b".to_string()), Some(&2));
    assert_eq!(t.get(&"c".to_string()), None);
}
