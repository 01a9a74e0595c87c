use kakebo::table_data::TableData;

fn strings(v: &[&str]) -> Vec<String> {
    v.iter().map(|s| s.to_string()).collect()
}

fn two_by_two() -> TableData {
    TableData::new(
        "Budget".to_string(),
        &strings(&["A", "B"]),
        &strings(&["R1", "R2"]),
        &[100, 200, 300, 400],
    )
    .unwrap()
}

#[test]
fn initial_totals_are_column_sums() {
    let t = two_by_two();
    assert_eq!(t.total(0), 400);
    assert_eq!(t.total(1), 600);
}

#[test]
fn new_rejects_dimension_mismatch() {
    assert!(TableData::new("x".to_string(), &strings(&["A", "B"]), &strings(&["R1"]), &[1, 2, 3]).is_none());
    assert!(TableData::new("x".to_string(), &strings(&["A"]), &strings(&[]), &[1]).is_none());
    assert!(TableData::new("x".to_string(), &strings(&[]), &strings(&[]), &[]).is_some());
    assert!(TableData::new("x".to_string(), &strings(&["A", "B", "C"]), &strings(&["R"]), &[1, 2, 3]).is_some());
}

#[test]
fn totals_saturate() {
    let t = TableData::new(
        "x".to_string(),
        &strings(&["A", "B"]),
        &strings(&["R1", "R2"]),
        &[i32::MAX, i32::MIN, 1, -1],
    )
    .unwrap();
    assert_eq!(t.total(0), i32::MAX);
    assert_eq!(t.total(1), i32::MIN);
}

#[test]
fn get_is_row_major_and_bounded() {
    let t = two_by_two();
    assert_eq!(t.get(0, 0), Some(100));
    assert_eq!(t.get(1, 0), Some(200));
    assert_eq!(t.get(0, 1), Some(300));
    assert_eq!(t.get(1, 1), Some(400));
    assert_eq!(t.get(2, 0), None);
    assert_eq!(t.get(0, 2), None);
}

#[test]
fn get_mut_writes_one_cell() {
    let mut t = two_by_two();
    *t.get_mut(1, 0).unwrap() = 7;
    assert!(t.get_mut(5, 5).is_none());
    assert!(t.get_mut(0, 2).is_none());
    *t.get_mut(0, 1).unwrap() = 9;
    assert_eq!(t.get(1, 0), Some(7));
    assert_eq!(t.get(0, 1), Some(9));
    assert_eq!(t.get(0, 0), Some(100));
}

#[test]
fn add_row_appends_zeros_and_keeps_totals() {
    let mut t = two_by_two();
    t.add_row();
    assert_eq!(t.rows(), 3);
    assert_eq!(t.cols(), 2);
    assert_eq!(t.get(0, 2), Some(0));
    assert_eq!(t.get(1, 2), Some(0));
    assert_eq!(t.row_name(2).as_str(), "");
    assert_eq!(t.total(0), 400);
    assert_eq!(t.total(1), 600);
}

#[test]
fn remove_row_drops_its_cells() {
    let mut t = two_by_two();
    t.remove_row(0);
    assert_eq!(t.rows(), 1);
    assert_eq!(t.row_name(0).as_str(), "R2");
    assert_eq!(t.get(0, 0), Some(300));
    assert_eq!(t.get(1, 0), Some(400));
    assert_eq!(t.get(0, 1), None);
    assert_eq!(t.total(0), 400);
}

#[test]
fn remove_row_keeps_the_last_row() {
    let mut t = two_by_two();
    t.remove_row(5);
    assert_eq!(t.rows(), 2);
    t.remove_row(1);
    assert_eq!(t.rows(), 1);
    t.remove_row(0);
    assert_eq!(t.rows(), 1);
    assert_eq!(t.get(0, 0), Some(100));
}

#[test]
fn row_edits_keep_the_grid_rectangular() {
    let mut t = two_by_two();
    for step in 0..20usize {
        if step % 3 == 0 {
            t.remove_row(step % 4);
        } else {
            t.add_row();
        }
        for row in 0..t.rows() {
            for col in 0..t.cols() {
                assert!(t.get(col, row).is_some());
            }
        }
        assert!(t.get(0, t.rows()).is_none());
        assert!(t.rows() >= 1);
    }
}

#[test]
fn recompute_totals_sums_columns() {
    let mut t = two_by_two();
    *t.get_mut(0, 0).unwrap() = 900;
    t.add_row();
    *t.get_mut(1, 2).unwrap() = -50;
    assert_eq!(t.total(0), 400);
    t.recompute_totals();
    assert_eq!(t.total(0), 1200);
    assert_eq!(t.total(1), 550);
}

#[test]
fn labels_and_handles() {
    let mut t = two_by_two();
    assert_eq!(t.name().as_str(), "Budget");
    assert_eq!(t.col_name(1).as_str(), "B");
    t.name_mut().push_str("!");
    t.row_name_mut(1).push('x');
    *t.total_mut(0) = 5;
    assert_eq!(t.name().as_str(), "Budget!");
    assert_eq!(t.row_name(1).as_str(), "R2x");
    assert_eq!(t.total(0), 5);
    let e = TableData::empty();
    assert_eq!(e.rows(), 0);
    assert_eq!(e.cols(), 0);
}
