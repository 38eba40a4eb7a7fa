use const_map::ConstMap;

fn fruit_map() -> ConstMap<char, &'static str> {
    ConstMap::new(vec![
        ('a', "apple"),
        ('b', "banana"),
        ('c', "clementine"),
        ('d', "durian"),
    ])
}

fn digit_map() -> ConstMap<i32, char> {
    ConstMap::new(vec![(1, 'a'), (2, 'b'), (3, 'c'), (4, 'd')])
}

#[test]
fn test() {
    let map = fruit_map();
    assert_eq!(map.lookup('b'), Some("banana"));
    assert_eq!(map.lookup('x'), None);
}

#[test]
fn test_generic_const() {
    let fruit = match fruit_map().lookup('d') {
        Some(s) => s,
        None => panic!("no fruit found"),
    };
    assert_eq!(fruit, "durian");
}

#[test]
fn every_entry_is_found() {
    let map = fruit_map();
    assert_eq!(map.lookup('a'), Some("apple"));
    assert_eq!(map.lookup('b'), Some("banana"));
    assert_eq!(map.lookup('c'), Some("clementine"));
    assert_eq!(map.lookup('d'), Some("durian"));
}

#[test]
fn absent_keys_return_none() {
    let map = fruit_map();
    assert_eq!(map.lookup('e'), None);
    assert_eq!(map.lookup('\0'), None);
    let digits = digit_map();
    assert_eq!(digits.lookup(0), None);
    assert_eq!(digits.lookup(5), None);
    assert_eq!(digits.lookup(-1), None);
}

#[test]
fn length_counts_supplied_entries() {
    assert_eq!(fruit_map().len(), 4);
    assert_eq!(digit_map().len(), 4);
}

#[test]
fn empty_table_answers_none() {
    let empty: ConstMap<u8, u8> = ConstMap::new(vec![]);
    assert_eq!(empty.len(), 0);
    assert_eq!(empty.lookup(0), None);
    assert_eq!(empty.lookup(255), None);
}

#[test]
fn first_match_wins_under_duplicates() {
    let dup: ConstMap<u8, i32> = ConstMap::new(vec![(7, 1), (7, 2)]);
    assert_eq!(dup.lookup(7), Some(1));
    assert_ne!(dup.lookup(7), Some(2));
    // later duplicates still occupy slots and count towards the length
    assert_eq!(dup.len(), 2);
}

#[test]
fn duplicates_after_other_entries() {
    let table: ConstMap<i32, char> = ConstMap::new(vec![(1, 'x'), (2, 'y'), (1, 'z')]);
    assert_eq!(table.lookup(1), Some('x'));
    assert_eq!(table.lookup(2), Some('y'));
    assert_eq!(table.len(), 3);
}

#[test]
fn repeated_lookups_are_identical() {
    let map = fruit_map();
    let first = map.lookup('c');
    let second = map.lookup('c');
    assert_eq!(first, second);
    assert_eq!(second, map.lookup('c'));
    let miss_first = map.lookup('z');
    let miss_second = map.lookup('z');
    assert_eq!(miss_first, miss_second);
}

#[test]
fn present_key_lookup_cannot_fail() {
    let digits = digit_map();
    assert_eq!(const_map::test_generic_const_panic(&digits, 4), 'd');
    assert_eq!(const_map::test_generic_const_panic(&digits, 1), 'a');
}
