use oracle::utils::get_or_insert_with_condition;

#[test]
fn empty_option_receives_a_new_value() {
    let mut slot: Option<i32> = None;
    let (value, old) = get_or_insert_with_condition(&mut slot, || 7, |_| true);
    assert_eq!(*value, 7);
    assert_eq!(old, None);
    assert_eq!(slot, Some(7));
}

#[test]
fn good_value_stays() {
    let mut slot = Some(3);
    let (value, old) = get_or_insert_with_condition(&mut slot, || 7, |v| *v == 3);
    assert_eq!(*value, 3);
    assert_eq!(old, None);
    assert_eq!(slot, Some(3));
}

#[test]
fn refused_value_is_replaced_and_handed_back() {
    let mut slot = Some("stale".to_string());
    let (value, old) = get_or_insert_with_condition(&mut slot, || "fresh".to_string(), |v| v == "good");
    assert_eq!(value, "fresh");
    value.push('!');
    assert_eq!(old, Some("stale".to_string()));
    assert_eq!(slot, Some("fresh!".to_string()));
}
