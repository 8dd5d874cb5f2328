use sql_runner::result_set::{ResultSet, ResultSetExtension};
use sql_runner::value::SqlValue;

fn set(columns: &[&str], rows: Vec<Vec<SqlValue>>) -> ResultSet {
    ResultSet { columns: columns.iter().map(|c| c.to_string()).collect(), rows }
}

fn ints(row: &[i64]) -> Vec<SqlValue> {
    row.iter().map(|i| SqlValue::Int(*i)).collect()
}

#[test]
fn sort_columns_two_columns() {
    let mut rs = set(&["b", "a"], vec![ints(&[1, 2]), ints(&[3, 4])]);
    rs.sort_columns();
    assert_eq!(rs.columns, vec!["a".to_string(), "b".to_string()]);
    assert_eq!(rs.rows, vec![ints(&[2, 1]), ints(&[4, 3])]);
}

#[test]
fn sort_columns_is_stable_for_equal_names() {
    let mut rs = set(&["b", "a", "a"], vec![ints(&[1, 2, 3])]);
    rs.sort_columns();
    assert_eq!(rs.columns, vec!["a".to_string(), "a".to_string(), "b".to_string()]);
    assert_eq!(rs.rows, vec![ints(&[2, 3, 1])]);
}

#[test]
fn sort_columns_idempotent() {
    let mut once = set(&["c", "a", "b"], vec![ints(&[1, 2, 3]), ints(&[4, 5, 6])]);
    once.sort_columns();
    let mut twice = once.clone();
    twice.sort_columns();
    assert_eq!(once, twice);
}

#[test]
fn sort_columns_preserves_named_cells() {
    let mut rs = set(&["z", "y", "x"], vec![ints(&[7, 8, 9])]);
    let before: Vec<(String, SqlValue)> = rs
        .columns
        .iter()
        .cloned()
        .zip(rs.rows[0].iter().cloned())
        .collect();
    rs.sort_columns();
    let mut after: Vec<(String, SqlValue)> = rs
        .columns
        .iter()
        .cloned()
        .zip(rs.rows[0].iter().cloned())
        .collect();
    for pair in before {
        let pos = after.iter().position(|p| *p == pair).expect("pair lost by sort_columns");
        after.remove(pos);
    }
    assert!(after.is_empty());
}

#[test]
fn number_columns_renames_in_order() {
    let mut rs = set(&["x", "y", "z"], vec![ints(&[1, 2, 3])]);
    rs.number_columns();
    assert_eq!(rs.columns, vec!["0".to_string(), "1".to_string(), "2".to_string()]);
    assert_eq!(rs.rows, vec![ints(&[1, 2, 3])]);
}

#[test]
fn number_columns_idempotent() {
    let mut once = set(&["p", "q"], vec![ints(&[1, 2])]);
    once.number_columns();
    let mut twice = once.clone();
    twice.number_columns();
    assert_eq!(once, twice);
}

#[test]
fn number_columns_many_columns_decimal_names() {
    let names: Vec<String> = (0..12).map(|i| format!("c{}", i)).collect();
    let mut rs = ResultSet { columns: names, rows: vec![] };
    rs.number_columns();
    assert_eq!(rs.columns[9], "9");
    assert_eq!(rs.columns[10], "10");
    assert_eq!(rs.columns[11], "11");
}

#[test]
fn sort_rows_orders_and_keeps_duplicates() {
    let mut rs = set(&["g"], vec![ints(&[2]), ints(&[1]), ints(&[2])]);
    rs.sort_rows();
    assert_eq!(rs.rows, vec![ints(&[1]), ints(&[2]), ints(&[2])]);
    assert_eq!(rs.columns, vec!["g".to_string()]);
}

#[test]
fn sort_rows_idempotent() {
    let mut once = set(&["g"], vec![ints(&[3]), ints(&[1]), ints(&[2])]);
    once.sort_rows();
    let mut twice = once.clone();
    twice.sort_rows();
    assert_eq!(once, twice);
}

#[test]
fn sort_rows_lexicographic_on_cells() {
    let mut rs = set(
        &["a", "b"],
        vec![ints(&[2, 1]), ints(&[1, 9]), ints(&[1, 3])],
    );
    rs.sort_rows();
    assert_eq!(rs.rows, vec![ints(&[1, 3]), ints(&[1, 9]), ints(&[2, 1])]);
}

#[test]
fn sort_rows_ranks_variants_bool_int_float_text() {
    let mut rs = set(
        &["v"],
        vec![
            vec![SqlValue::Text("x".to_string())],
            vec![SqlValue::Float(1.5f64.to_bits())],
            vec![SqlValue::Int(7)],
            vec![SqlValue::Bool(true)],
        ],
    );
    rs.sort_rows();
    assert_eq!(
        rs.rows,
        vec![
            vec![SqlValue::Bool(true)],
            vec![SqlValue::Int(7)],
            vec![SqlValue::Float(1.5f64.to_bits())],
            vec![SqlValue::Text("x".to_string())],
        ]
    );
}

#[test]
fn sort_rows_orders_negative_floats_below_positive() {
    let mut rs = set(
        &["f"],
        vec![
            vec![SqlValue::Float(1.5f64.to_bits())],
            vec![SqlValue::Float((-1.5f64).to_bits())],
            vec![SqlValue::Float(0.0f64.to_bits())],
        ],
    );
    rs.sort_rows();
    assert_eq!(
        rs.rows,
        vec![
            vec![SqlValue::Float((-1.5f64).to_bits())],
            vec![SqlValue::Float(0.0f64.to_bits())],
            vec![SqlValue::Float(1.5f64.to_bits())],
        ]
    );
}

#[test]
fn normalization_pair_is_idempotent_as_a_whole() {
    let mut once = set(&["b", "a"], vec![ints(&[4, 3]), ints(&[2, 1])]);
    once.sort_columns();
    once.sort_rows();
    let mut twice = once.clone();
    twice.sort_columns();
    twice.sort_rows();
    assert_eq!(once, twice);
}

#[test]
fn sort_rows_orders_text_lexicographically() {
    let mut rs = set(
        &["s"],
        vec![
            vec![SqlValue::Text("pear".to_string())],
            vec![SqlValue::Text("apple".to_string())],
            vec![SqlValue::Text("app".to_string())],
        ],
    );
    rs.sort_rows();
    assert_eq!(
        rs.rows,
        vec![
            vec![SqlValue::Text("app".to_string())],
            vec![SqlValue::Text("apple".to_string())],
            vec![SqlValue::Text("pear".to_string())],
        ]
    );
}
