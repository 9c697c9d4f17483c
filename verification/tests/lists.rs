use byondapi::error::Error;
use byondapi::list::ByondValueList;
use byondapi::value::ByondValue;

#[test]
fn init_and_drop() {
    let mut list = ByondValueList::default();
    list.push(&ByondValue::null())
        .expect("Failed to push to list");
    list.push(&ByondValue::null())
        .expect("Failed to push to list");
    list.push(&ByondValue::null())
        .expect("Failed to push to list");
    std::hint::black_box(&list);
    std::mem::drop(list);
}

#[test]
fn convert_to_value_and_back() {
    let mut list = ByondValueList::default();
    list.push(&ByondValue::null())
        .expect("Failed to push to list");
    list.push(&ByondValue::null())
        .expect("Failed to push to list");
    list.push(&ByondValue::null())
        .expect("Failed to push to list");

    let r: ByondValue = list.into_value().expect("Failed to convert to ByondValue");
    std::hint::black_box(&r);

    let back_to_list: ByondValueList = r.into_list().expect("Failed to convert back to list");

    assert_eq!(back_to_list.len(), 3);
}

#[test]
fn fresh_list_is_empty() {
    let list = ByondValueList::new();
    assert_eq!(list.len(), 0);
    assert_eq!(list.capacity(), 0);
}

#[test]
fn with_capacity_reserves_without_populating() {
    let list = ByondValueList::with_capacity(5);
    assert_eq!(list.len(), 0);
    assert_eq!(list.capacity(), 5);
}

#[test]
fn push_count_matches_pushes() {
    let mut list = ByondValueList::new();
    for i in 1..=4 {
        list.push(&ByondValue::null()).expect("push failed");
        assert_eq!(list.len(), i);
        assert!(list.capacity() >= list.len());
    }
}

#[test]
fn push_keeps_caller_value() {
    let value = ByondValue::new_num(7);
    let mut list = ByondValueList::new();
    list.push(&value).expect("push failed");
    assert_eq!(value.num_bits(), Some(7));
    assert_eq!(list.get(0).expect("missing element").num_bits(), Some(7));
}

#[test]
fn insert_keeps_order() {
    let mut list = ByondValueList::new();
    list.push(&ByondValue::new_num(1)).expect("push failed");
    list.push(&ByondValue::new_num(3)).expect("push failed");
    list.insert(1, &ByondValue::new_num(2)).expect("insert failed");
    assert_eq!(list.len(), 3);
    assert_eq!(list.get(0).expect("missing element").num_bits(), Some(1));
    assert_eq!(list.get(1).expect("missing element").num_bits(), Some(2));
    assert_eq!(list.get(2).expect("missing element").num_bits(), Some(3));
}

#[test]
fn insert_out_of_range_is_refused_and_list_unchanged() {
    let mut list = ByondValueList::new();
    list.push(&ByondValue::null()).expect("push failed");
    let r = list.insert(2, &ByondValue::null());
    assert!(matches!(r, Err(Error::UnknownByondError)));
    assert_eq!(list.len(), 1);
    assert!(list.get(0).expect("missing element").is_null());
}

#[test]
fn round_trip_preserves_count_and_order() {
    let mut list = ByondValueList::new();
    list.push(&ByondValue::null()).expect("push failed");
    list.push(&ByondValue::new_num(9)).expect("push failed");
    list.push(&ByondValue::new_str("hi").expect("new_str failed"))
        .expect("push failed");

    let value = list.into_value().expect("conversion to value failed");
    assert!(value.is_list());
    let back = value.into_list().expect("conversion back to list failed");

    assert_eq!(back.len(), 3);
    assert!(back.get(0).expect("missing element").is_null());
    assert_eq!(back.get(1).expect("missing element").num_bits(), Some(9));
    assert!(back.get(2).expect("missing element").is_str());
}

#[test]
fn reading_non_list_value_as_list_is_refused() {
    let r = ByondValue::null().into_list();
    assert!(matches!(r, Err(Error::InvalidConversion)));
    let r = ByondValue::new_num(1).into_list();
    assert!(matches!(r, Err(Error::InvalidConversion)));
}

#[test]
fn nested_list_round_trip() {
    let mut inner = ByondValueList::new();
    inner.push(&ByondValue::null()).expect("push failed");
    inner.push(&ByondValue::new_num(4)).expect("push failed");
    let inner_value = inner.into_value().expect("conversion to value failed");

    let mut outer = ByondValueList::new();
    outer.push(&ByondValue::null()).expect("push failed");
    outer.push(&inner_value).expect("push failed");

    let outer_value = outer.into_value().expect("conversion to value failed");
    let back = outer_value.into_list().expect("conversion back to list failed");

    assert_eq!(back.len(), 2);
    assert!(back.get(0).expect("missing element").is_null());
    let stored_inner = back.get(1).expect("missing element");
    assert!(stored_inner.is_list());
    // The list stored its own copy: the caller's value is still usable.
    assert!(inner_value.is_list());
}

#[test]
fn get_out_of_range_is_none() {
    let list = ByondValueList::new();
    assert!(list.get(0).is_none());
}
