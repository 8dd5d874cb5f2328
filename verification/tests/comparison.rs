use sql_runner::api::batch_compare_one;
use sql_runner::compare::{
    compare_result_sets, result_sets_equal, ColumnNormalisation, RowNormalisation,
};
use sql_runner::result_set::ResultSet;
use sql_runner::value::SqlValue;

fn set(columns: &[&str], rows: Vec<Vec<SqlValue>>) -> ResultSet {
    ResultSet { columns: columns.iter().map(|c| c.to_string()).collect(), rows }
}

fn ints(row: &[i64]) -> Vec<SqlValue> {
    row.iter().map(|i| SqlValue::Int(*i)).collect()
}

#[test]
fn union_order_equal_under_sort_rows() {
    // What `SELECT 1 UNION SELECT 2` and `SELECT 2 UNION SELECT 1` return.
    let solution = set(&["?column?"], vec![ints(&[1]), ints(&[2])]);
    let submission = set(&["?column?"], vec![ints(&[2]), ints(&[1])]);
    let (_, _, equal) = compare_result_sets(
        solution,
        submission,
        RowNormalisation::SortRows,
        ColumnNormalisation::NumberColumnsByOrder,
    );
    assert!(equal);
}

#[test]
fn row_order_differs_without_sort_rows() {
    let solution = set(&["?column?"], vec![ints(&[1]), ints(&[2])]);
    let submission = set(&["?column?"], vec![ints(&[2]), ints(&[1])]);
    let (_, _, equal) = compare_result_sets(
        solution,
        submission,
        RowNormalisation::NoNormalization,
        ColumnNormalisation::NumberColumnsByOrder,
    );
    assert!(!equal);
}

#[test]
fn column_names_differ_unless_numbered() {
    let a = set(&["total"], vec![ints(&[5])]);
    let b = set(&["sum"], vec![ints(&[5])]);
    let (na, nb, equal) = compare_result_sets(
        a,
        b,
        RowNormalisation::NoNormalization,
        ColumnNormalisation::NoNormalization,
    );
    assert!(!equal);
    let (_, _, equal_numbered) = compare_result_sets(
        na,
        nb,
        RowNormalisation::NoNormalization,
        ColumnNormalisation::NumberColumnsByOrder,
    );
    assert!(equal_numbered);
}

#[test]
fn comparison_is_symmetric() {
    let a = set(&["x"], vec![ints(&[1]), ints(&[2])]);
    let b = set(&["x"], vec![ints(&[2]), ints(&[3])]);
    let (_, _, ab) = compare_result_sets(
        a.clone(),
        b.clone(),
        RowNormalisation::SortRows,
        ColumnNormalisation::SortColumnsByName,
    );
    let (_, _, ba) = compare_result_sets(
        b,
        a,
        RowNormalisation::SortRows,
        ColumnNormalisation::SortColumnsByName,
    );
    assert_eq!(ab, ba);
}

#[test]
fn same_query_compares_equal() {
    let a = set(&["x", "y"], vec![ints(&[1, 2]), ints(&[3, 4])]);
    let (_, _, equal) = compare_result_sets(
        a.clone(),
        a,
        RowNormalisation::SortRows,
        ColumnNormalisation::SortColumnsByName,
    );
    assert!(equal);
}

#[test]
fn float_equality_is_ieee_zeroes_equal() {
    let a = set(&["f"], vec![vec![SqlValue::Float(0.0f64.to_bits())]]);
    let b = set(&["f"], vec![vec![SqlValue::Float((-0.0f64).to_bits())]]);
    assert!(result_sets_equal(&a, &b));
}

#[test]
fn float_equality_is_ieee_nan_unequal_to_itself() {
    let nan = f64::NAN.to_bits();
    let a = set(&["f"], vec![vec![SqlValue::Float(nan)]]);
    assert!(!result_sets_equal(&a, &a));
}

#[test]
fn cross_variant_cells_never_equal() {
    let a = set(&["v"], vec![vec![SqlValue::Int(1)]]);
    let b = set(&["v"], vec![vec![SqlValue::Text("1".to_string())]]);
    assert!(!result_sets_equal(&a, &b));
}

#[test]
fn batch_compare_one_returns_solution_set_on_request() {
    let solution = set(&["a"], vec![ints(&[2]), ints(&[1])]);
    let submission = set(&["a"], vec![ints(&[1]), ints(&[2])]);
    let (resp, normalized_submission) = batch_compare_one(
        solution,
        submission,
        RowNormalisation::SortRows,
        ColumnNormalisation::NumberColumnsByOrder,
        true,
    );
    assert!(resp.eq);
    let returned = resp.result_set.expect("result set was requested");
    assert_eq!(returned.columns, vec!["0".to_string()]);
    assert_eq!(returned.rows, vec![ints(&[1]), ints(&[2])]);
    assert_eq!(normalized_submission.rows, vec![ints(&[1]), ints(&[2])]);
}

#[test]
fn batch_compare_one_withholds_solution_set_by_default() {
    let solution = set(&["a"], vec![ints(&[1])]);
    let submission = set(&["a"], vec![ints(&[9])]);
    let (resp, _) = batch_compare_one(
        solution,
        submission,
        RowNormalisation::NoNormalization,
        ColumnNormalisation::NumberColumnsByOrder,
        false,
    );
    assert!(!resp.eq);
    assert!(resp.result_set.is_none());
}
