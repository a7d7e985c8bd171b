use libphp::value::array::{Array, ArrayIter, ArrayKey};
use libphp::value::Value;

fn literal() -> Array {
    let mut array = Array::new();
    for (at, n) in [1i64, 2, 3, 4, 5].iter().enumerate() {
        assert!(array.insert(ArrayKey::Int(at as i64), Value::from(*n)));
    }
    assert!(array.insert(ArrayKey::String("key".to_string()), Value::from(6i64)));
    array
}

#[test]
fn a_new_array_is_empty() {
    let array = Array::new();
    assert_eq!(array.len(), 0);
    assert!(array.is_empty());
    assert!(array.iter().next().is_none());
    let roomy = Array::with_capacity(64);
    assert_eq!(roomy.len(), 0);
    assert!(roomy.is_empty());
    assert!(Array::with_capacity(0).is_empty());
}

#[test]
fn length_is_the_number_of_entries() {
    let array = literal();
    assert_eq!(array.len(), 6);
    assert!(!array.is_empty());
}

#[test]
fn iteration_yields_every_entry_in_creation_order() {
    let array = literal();
    let items = array.iter().collect();
    assert_eq!(items.len(), 6);
    for (at, (idx, key, value)) in items.iter().enumerate() {
        assert_eq!(*idx, at as u64);
        assert_eq!(value.to_int(), at as i64 + 1);
        if at < 5 {
            assert!(matches!(key, ArrayKey::Int(n) if *n == at as i64));
        }
    }
    match &items[5].1 {
        ArrayKey::String(name) => assert_eq!(name, "key"),
        ArrayKey::Int(_) => panic!("the last key is a string"),
    }
}

#[test]
fn the_cursor_ends_and_stays_at_the_end() {
    let mut array = Array::new();
    array.insert(ArrayKey::String("b".to_string()), Value::from_str("first"));
    array.insert(ArrayKey::Int(-3), Value::null());
    let mut iter = ArrayIter::new(&array);
    let (idx, key, value) = iter.next().unwrap();
    assert_eq!(idx, 0);
    assert!(matches!(key, ArrayKey::String(ref s) if s == "b"));
    assert_eq!(value.as_str(), "first");
    let (idx, key, value) = iter.next().unwrap();
    assert_eq!(idx, 1);
    assert!(matches!(key, ArrayKey::Int(-3)));
    assert!(value.is_null());
    assert!(iter.next().is_none());
    assert!(iter.next().is_none());
}

#[test]
fn collecting_from_the_middle_keeps_the_indices() {
    let array = literal();
    let mut iter = array.iter();
    iter.next();
    iter.next();
    let rest = iter.collect();
    assert_eq!(rest.len(), 4);
    assert_eq!(rest[0].0, 2);
    assert_eq!(rest[0].2.to_int(), 3);
    assert_eq!(rest[3].0, 5);
    assert_eq!(rest[3].2.to_int(), 6);
}

#[test]
fn two_cursors_walk_one_array_apart() {
    let array = literal();
    let mut one = array.iter();
    let mut two = array.iter();
    one.next();
    one.next();
    assert_eq!(two.next().unwrap().0, 0);
    assert_eq!(one.next().unwrap().0, 2);
}

#[test]
fn a_key_that_is_held_keeps_its_place() {
    let mut array = literal();
    assert!(array.insert(ArrayKey::Int(1), Value::from_str("two")));
    assert!(array.insert(ArrayKey::String("key".to_string()), Value::from(true)));
    assert_eq!(array.len(), 6);
    let items = array.iter().collect();
    assert!(items[1].2.is_string());
    assert_eq!(items[1].2.as_str(), "two");
    assert_eq!(items[0].2.to_int(), 1);
    assert_eq!(items[2].2.to_int(), 3);
    assert!(items[5].2.is_true());
}

#[test]
fn an_integer_key_and_a_string_key_differ() {
    let mut array = Array::new();
    array.insert(ArrayKey::Int(1), Value::from(10i64));
    array.insert(ArrayKey::String("1".to_string()), Value::from(20i64));
    assert_eq!(array.len(), 2);
    assert!(ArrayKey::Int(1).same(&ArrayKey::Int(1)));
    assert!(!ArrayKey::Int(1).same(&ArrayKey::Int(2)));
    assert!(!ArrayKey::Int(1).same(&ArrayKey::String("1".to_string())));
    assert!(ArrayKey::String("a".to_string()).same(&ArrayKey::String("a".to_string())));
    assert!(!ArrayKey::String("a".to_string()).same(&ArrayKey::String("b".to_string())));
}

#[test]
fn keys_as_text() {
    assert_eq!(ArrayKey::Int(5).to_string(), "5");
    assert_eq!(ArrayKey::Int(-12).to_string(), "-12");
    assert_eq!(ArrayKey::String("name".to_string()).to_string(), "name");
    let copy = ArrayKey::String("name".to_string()).duplicate();
    assert!(matches!(copy, ArrayKey::String(ref s) if s == "name"));
    assert!(matches!(ArrayKey::Int(9).duplicate(), ArrayKey::Int(9)));
}

#[test]
fn an_array_within_an_array() {
    let mut inner = Array::new();
    inner.insert(ArrayKey::Int(0), Value::from_str("Hello"));
    inner.insert(ArrayKey::Int(1), Value::from_str("world!"));
    let mut outer = Array::new();
    outer.insert(ArrayKey::String("words".to_string()), Value::from_array(inner));
    let value = Value::from_array(outer);
    assert!(value.is_array());
    let items = value.to_array().iter().collect();
    assert_eq!(items.len(), 1);
    let words = items[0].2.to_array().iter().collect();
    assert_eq!(words.len(), 2);
    assert_eq!(words[0].2.as_str(), "Hello");
    assert_eq!(words[1].2.as_str(), "world!");
}
