use re_set_lib::utils::variant::{Empty, Payload, Shape, TVariant, Variant};
use std::collections::HashMap;

#[test]
fn test_i32() {
    let mock = 5.into_variant();
    assert_eq!(mock.kind(), <i32 as TVariant>::shape());
    assert_eq!(mock.to_value::<i32>().unwrap(), 5);
}

#[test]
fn test_option() {
    let mock = Some(10).into_variant();
    assert_eq!(mock.kind(), <Option<i32> as TVariant>::shape());
    assert_eq!(mock.to_value::<Option<i32>>().unwrap(), Some(10));
}

#[test]
fn test_vec() {
    let mock = vec![3, 2, 4, 5, 10].into_variant();
    assert_eq!(mock.kind(), <Vec<i32> as TVariant>::shape());
    assert_eq!(
        mock.to_value_cloned::<Vec<i32>>().unwrap().clone(),
        vec![3, 2, 4, 5, 10]
    );
}

#[test]
fn test_conversion_fail() {
    let mock = "hello".to_string().into_variant();
    assert_eq!(mock.kind(), <String as TVariant>::shape());
    assert!(mock.to_value_cloned::<i32>().is_err());
}

#[test]
fn test_conversion_tuple() {
    let mock = (25, "pingpang".to_string()).into_variant();
    assert_eq!(mock.kind(), <(i32, String) as TVariant>::shape());
    let converted_value = mock.to_value_cloned::<(i32, String)>();
    assert!(converted_value.is_ok());
    let comparison_value = (25, "pingpang".to_string());
    let converted_value = converted_value.unwrap();
    assert_eq!(converted_value.0, comparison_value.0);
    assert_eq!(converted_value.1, comparison_value.1);
}

#[test]
fn test_conversion_tuple_same_type() {
    let mock = (25, 25).into_variant();
    assert_eq!(mock.kind(), <(i32, i32) as TVariant>::shape());
    let converted_value = mock.to_value::<(i32, i32)>();
    assert!(converted_value.is_ok());
    let comparison_value = (25, 25);
    let converted_value = converted_value.unwrap();
    assert_eq!(converted_value.0, comparison_value.0);
    assert_eq!(converted_value.1, comparison_value.1);
}

#[test]
fn empty_reads_only_as_empty() {
    let nothing = Variant::empty();
    assert_eq!(nothing.kind(), Shape::Empty);
    assert!(nothing.to_value::<Empty>().is_ok());
    assert!(nothing.to_value::<i32>().is_err());
    assert!(nothing.to_value_cloned::<String>().is_err());
}

#[test]
fn test_hashmap() {
    let mut map = HashMap::new();
    map.insert("Something".to_string(), 20);
    let mock = map.into_variant();

    let mut testmap = HashMap::new();
    testmap.insert("Something".to_string(), 20);

    assert_eq!(mock.kind(), <HashMap<String, i32> as TVariant>::shape());
    assert_eq!(
        mock.to_value_cloned::<HashMap<String, i32>>()
            .unwrap()
            .clone(),
        testmap
    );
}

#[test]
fn test_variant_clone() {
    let mut map = HashMap::new();
    map.insert("Something".to_string(), 20);
    let mock = map.into_variant();
    let new_mock = mock.clone();

    let mut testmap = HashMap::new();
    testmap.insert("Something".to_string(), 20);

    assert_eq!(
        new_mock
            .to_value_cloned::<HashMap<String, i32>>()
            .unwrap()
            .clone(),
        testmap
    );
}

#[test]
fn every_shape_reads_back() {
    assert_eq!(true.into_variant().to_value::<bool>().unwrap(), true);
    assert_eq!(200u8.into_variant().to_value::<u8>().unwrap(), 200);
    assert_eq!((-100i8).into_variant().to_value::<i8>().unwrap(), -100);
    assert_eq!(60000u16.into_variant().to_value::<u16>().unwrap(), 60000);
    assert_eq!((-30000i16).into_variant().to_value::<i16>().unwrap(), -30000);
    assert_eq!(u32::MAX.into_variant().to_value::<u32>().unwrap(), u32::MAX);
    assert_eq!(i32::MIN.into_variant().to_value::<i32>().unwrap(), i32::MIN);
    assert_eq!(u64::MAX.into_variant().to_value::<u64>().unwrap(), u64::MAX);
    assert_eq!(i64::MIN.into_variant().to_value::<i64>().unwrap(), i64::MIN);
    let text = "héllo".to_string();
    assert_eq!(text.clone().into_variant().to_value_cloned::<String>().unwrap(), text);
    let nothing: Option<String> = None;
    assert_eq!(nothing.into_variant().to_value_cloned::<Option<String>>().unwrap(), None);
    let nested = vec![vec![Some(1u8), None], vec![], vec![Some(3)]];
    assert_eq!(
        nested.clone().into_variant().to_value_cloned::<Vec<Vec<Option<u8>>>>().unwrap(),
        nested
    );
    let mut map = HashMap::new();
    map.insert("a".to_string(), vec![(1i64, "x".to_string())]);
    map.insert("b".to_string(), vec![]);
    map.insert("c".to_string(), vec![(2, "y".to_string()), (3, "z".to_string())]);
    assert_eq!(
        map.clone().into_variant().to_value_cloned::<HashMap<String, Vec<(i64, String)>>>().unwrap(),
        map
    );
    let twelve = (1u8, 2i8, 3u16, 4i16, 5u32, 6i32, 7u64, 8i64, true, "ten".to_string(), Some(11), vec![12]);
    assert_eq!(
        twelve.clone().into_variant()
            .to_value_cloned::<(u8, i8, u16, i16, u32, i32, u64, i64, bool, String, Option<i32>, Vec<i32>)>()
            .unwrap(),
        twelve
    );
    assert_eq!((7,).into_variant().to_value::<(i32,)>().unwrap(), (7,));
}

#[test]
fn another_shape_never_reads() {
    let mock = vec![1, 2, 3].into_variant();
    assert_eq!(mock.to_value_cloned::<Vec<i32>>().unwrap(), vec![1, 2, 3]);
    assert_eq!(mock.to_value::<i32>().unwrap_err().0, "Conversion Failed");
    assert!(mock.to_value_cloned::<Vec<u32>>().is_err());
    assert!(mock.to_value_cloned::<Vec<i64>>().is_err());
    assert!(mock.to_value_cloned::<Vec<Vec<i32>>>().is_err());
    assert!(mock.to_value_cloned::<Option<i32>>().is_err());
    assert!(mock.to_value_cloned::<(i32, i32, i32)>().is_err());
    assert!(mock.to_value_cloned::<HashMap<String, i32>>().is_err());
    assert!(mock.to_value::<Empty>().is_err());
    let empty_list: Vec<i32> = Vec::new();
    assert!(empty_list.into_variant().to_value_cloned::<Vec<String>>().is_err());
    let one = (5,).into_variant();
    assert!(one.to_value::<i32>().is_err());
    assert!(one.to_value::<(i32, i32)>().is_err());
    assert!(((1, 2), 3).into_variant().to_value::<(i32, (i32, i32))>().is_err());
    assert!(((1, 2), 3).into_variant().to_value::<(i32, i32, i32)>().is_err());
}

#[test]
fn clones_are_independent() {
    let first = vec!["a".to_string(), "b".to_string()].into_variant();
    let copy = first.clone();
    let mut changed = copy.to_value_cloned::<Vec<String>>().unwrap();
    changed.push("c".to_string());
    let rewrapped = changed.into_variant();
    assert_eq!(rewrapped.to_value_cloned::<Vec<String>>().unwrap().len(), 3);
    assert_eq!(first.to_value_cloned::<Vec<String>>().unwrap(), vec!["a", "b"]);
    assert_eq!(copy.to_value_cloned::<Vec<String>>().unwrap(), vec!["a", "b"]);
    assert_eq!(copy.kind(), first.kind());
    drop(first);
    assert_eq!(copy.to_value_cloned::<Vec<String>>().unwrap(), vec!["a", "b"]);
    assert!(copy.to_value::<i32>().is_err());
}

#[test]
fn later_entry_of_a_key_counts() {
    let entries = Payload::Dict(vec![
        ("k".to_string(), Payload::I32(1)),
        ("other".to_string(), Payload::I32(5)),
        ("k".to_string(), Payload::I32(2)),
    ]);
    let map = <HashMap<String, i32> as TVariant>::from_payload(&entries);
    assert_eq!(map.len(), 2);
    assert_eq!(map["k"], 2);
    assert_eq!(map["other"], 5);
    let copy = <HashMap<String, i32> as TVariant>::from_payload(&entries.duplicate());
    assert_eq!(copy, map);
}
