use sql_runner::decode::{build_result_set, decode_cell, ProbedCell};
use sql_runner::error::SqlExecutionError;
use sql_runner::value::SqlValue;

fn empty_cell() -> ProbedCell {
    ProbedCell {
        text: None,
        decimal: None,
        float8: None,
        float4: None,
        int8: None,
        int4: None,
        boolean: None,
        timestamp: None,
        date: None,
    }
}

fn int4_cell(i: i32) -> ProbedCell {
    ProbedCell { int4: Some(i), ..empty_cell() }
}

#[test]
fn scalar_roundtrip_int_real_text_bool() {
    // The row `(1, 2.5, 'x', true)` from a table `t(i INT, f REAL, s TEXT, b BOOL)`,
    // as the driver presents it probe by probe.
    let row = vec![
        int4_cell(1),
        ProbedCell { float4: Some(((2.5f32) as f64).to_bits()), ..empty_cell() },
        ProbedCell { text: Some("x".to_string()), ..empty_cell() },
        ProbedCell { boolean: Some(true), ..empty_cell() },
    ];
    let columns = vec!["i".to_string(), "f".to_string(), "s".to_string(), "b".to_string()];
    let rs = build_result_set(columns, vec![row], 1000).expect("row decodes");
    assert_eq!(rs.columns, vec!["i", "f", "s", "b"]);
    assert_eq!(
        rs.rows,
        vec![vec![
            SqlValue::Int(1),
            SqlValue::Float(2.5f64.to_bits()),
            SqlValue::Text("x".to_string()),
            SqlValue::Bool(true),
        ]]
    );
}

#[test]
fn row_cap_truncates_silently() {
    let rows: Vec<Vec<ProbedCell>> = (0..5000).map(|i| vec![int4_cell(i)]).collect();
    let rs = build_result_set(vec!["g".to_string()], rows, 1000).expect("rows decode");
    assert_eq!(rs.rows.len(), 1000);
    assert_eq!(rs.rows[999], vec![SqlValue::Int(999)]);
}

#[test]
fn row_cap_leaves_short_results_whole() {
    let rows: Vec<Vec<ProbedCell>> = (0..5).map(|i| vec![int4_cell(i)]).collect();
    let rs = build_result_set(vec!["g".to_string()], rows, 1000).expect("rows decode");
    assert_eq!(rs.rows.len(), 5);
}

#[test]
fn every_row_has_column_arity() {
    let rows: Vec<Vec<ProbedCell>> = (0..4).map(|i| vec![int4_cell(i), int4_cell(-i)]).collect();
    let rs = build_result_set(vec!["a".to_string(), "b".to_string()], rows, 3).expect("decodes");
    for row in &rs.rows {
        assert_eq!(row.len(), rs.columns.len());
    }
}

#[test]
fn empty_result_has_no_columns() {
    let rs = build_result_set(vec!["a".to_string()], vec![], 1000).expect("empty decodes");
    assert!(rs.columns.is_empty());
    assert!(rs.rows.is_empty());
}

#[test]
fn text_probe_wins_over_every_other() {
    let cell = ProbedCell {
        text: Some("uuid-like".to_string()),
        int8: Some(5),
        boolean: Some(false),
        ..empty_cell()
    };
    assert_eq!(decode_cell(cell, "c").unwrap(), SqlValue::Text("uuid-like".to_string()));
}

#[test]
fn decimal_probe_wins_over_float_probes() {
    let cell = ProbedCell {
        decimal: Some(Some(3.25f64.to_bits())),
        float8: Some(9.0f64.to_bits()),
        ..empty_cell()
    };
    assert_eq!(decode_cell(cell, "c").unwrap(), SqlValue::Float(3.25f64.to_bits()));
}

#[test]
fn int8_probe_wins_over_int4() {
    let cell = ProbedCell { int8: Some(1 << 40), int4: Some(7), ..empty_cell() };
    assert_eq!(decode_cell(cell, "c").unwrap(), SqlValue::Int(1 << 40));
}

#[test]
fn datetime_probe_becomes_text() {
    let cell = ProbedCell { timestamp: Some("2024-01-02 03:04:05".to_string()), ..empty_cell() };
    assert_eq!(
        decode_cell(cell, "c").unwrap(),
        SqlValue::Text("2024-01-02 03:04:05".to_string())
    );
}

#[test]
fn unrepresentable_decimal_names_its_column() {
    let cell = ProbedCell { decimal: Some(None), ..empty_cell() };
    match decode_cell(cell, "amount") {
        Err(SqlExecutionError::ColumnDecodeError(c)) => assert_eq!(c, "amount"),
        other => panic!("expected a column decode error, got {:?}", other),
    }
}

#[test]
fn undecodable_cell_fails_whole_build() {
    let rows = vec![vec![int4_cell(1)], vec![empty_cell()]];
    match build_result_set(vec!["v".to_string()], rows, 1000) {
        Err(SqlExecutionError::ColumnDecodeError(c)) => assert_eq!(c, "v"),
        other => panic!("expected a column decode error, got {:?}", other),
    }
}

#[test]
fn undecodable_row_beyond_cap_is_ignored() {
    let rows = vec![vec![int4_cell(1)], vec![empty_cell()]];
    let rs = build_result_set(vec!["v".to_string()], rows, 1).expect("capped build decodes");
    assert_eq!(rs.rows, vec![vec![SqlValue::Int(1)]]);
}
