use rsri_projects::serial::next_id;

#[test]
fn next_id_of_no_rows_is_one() {
    assert_eq!(next_id::<i32>(&vec![]), 1);
}

#[test]
fn next_id_follows_largest() {
    assert_eq!(next_id(&vec![4, 2, 7, 3]), 8);
    assert_eq!(next_id(&vec![-5]), 1);
}

#[test]
fn next_id_stops_at_max() {
    assert_eq!(next_id(&vec![3, i32::MAX, 1]), i32::MAX);
}
