use yes_or_no::Selection;

#[test]
fn test_selection_from_bool() {
    assert_eq!(Selection::from(true), Selection::Yes);
    assert_eq!(Selection::from(false), Selection::No);
}

#[test]
fn test_selection_as_bool() {
    assert!(Selection::Yes.as_bool());
    assert!(!Selection::No.as_bool());
}

#[test]
fn selection_and_bool_convert_back_and_forth() {
    for value in [true, false] {
        assert_eq!(Selection::from(value).as_bool(), value);
    }
    for selection in [Selection::Yes, Selection::No] {
        assert_eq!(Selection::from(selection.as_bool()), selection);
    }
}

#[test]
fn selection_converts_through_into() {
    let selection: Selection = true.into();
    assert_eq!(selection, Selection::Yes);
    let selection: Selection = false.into();
    assert_eq!(selection, Selection::No);
}
