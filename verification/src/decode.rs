use vstd::prelude::*;

verus! {

use crate::error::{SqlErrorModel, SqlExecutionError};
use crate::result_set::{cols_view, ResultSet};
use crate::value::{row_view, SqlValue, SqlValueModel};

/// What the driver-level probes of one cell revealed, in plain values. The
/// unverified edge attempts every probe; the decoder here chooses among
/// them by the fixed priority order.
pub struct ProbedCell {
    /// UTF-8 string decode.
    pub text: Option<String>,
    /// Arbitrary-precision decimal: `Some(Some(bits))` when convertible to
    /// a 64-bit float, `Some(None)` when its magnitude cannot be
    /// represented.
    pub decimal: Option<Option<u64>>,
    /// 64-bit float, as its bit pattern.
    pub float8: Option<u64>,
    /// 32-bit float, widened losslessly to a 64-bit float, as its bit
    /// pattern.
    pub float4: Option<u64>,
    /// 64-bit signed integer.
    pub int8: Option<i64>,
    /// 32-bit signed integer.
    pub int4: Option<i32>,
    /// Boolean.
    pub boolean: Option<bool>,
    /// Date-time without time zone, in its canonical text rendering.
    pub timestamp: Option<String>,
    /// Date without time zone, in its canonical text rendering.
    pub date: Option<String>,
}

/// The decoded value of a probed cell under the fixed probing order —
/// text, decimal, 64-bit float, 32-bit float, 64-bit integer, 32-bit
/// integer, boolean, date-time, date — or `None` where no probe succeeded
/// or the decimal payload is unrepresentable.
pub open spec fn spec_decode_cell(p: ProbedCell) -> Option<SqlValueModel> {
    if p.text is Some {
        Some(SqlValueModel::Text(p.text->0@))
    } else if p.decimal is Some {
        match p.decimal->0 {
            Some(bits) => Some(SqlValueModel::Float(bits)),
            None => None,
        }
    } else if p.float8 is Some {
        Some(SqlValueModel::Float(p.float8->0))
    } else if p.float4 is Some {
        Some(SqlValueModel::Float(p.float4->0))
    } else if p.int8 is Some {
        Some(SqlValueModel::Int(p.int8->0 as int))
    } else if p.int4 is Some {
        Some(SqlValueModel::Int(p.int4->0 as int))
    } else if p.boolean is Some {
        Some(SqlValueModel::Bool(p.boolean->0))
    } else if p.timestamp is Some {
        Some(SqlValueModel::Text(p.timestamp->0@))
    } else if p.date is Some {
        Some(SqlValueModel::Text(p.date->0@))
    } else {
        None
    }
}

/// The decoded cells of a whole row, or `None` if any cell fails.
pub open spec fn spec_decode_row(cells: Seq<ProbedCell>) -> Option<Seq<SqlValueModel>> {
    if forall|k: int| 0 <= k < cells.len() ==> (#[trigger] spec_decode_cell(cells[k])) is Some {
        Some(Seq::new(cells.len(), |k: int| spec_decode_cell(cells[k])->0))
    } else {
        None
    }
}

/// Decodes one cell by the fixed probing order; an undecodable cell fails
/// with the name of its column.
pub fn decode_cell(p: ProbedCell, column: &str) -> (r: Result<SqlValue, SqlExecutionError>)
    ensures
        match spec_decode_cell(p) {
            Some(v) => r is Ok && r->Ok_0@ == v,
            None => r is Err && r->Err_0@ == SqlErrorModel::ColumnDecode(column@),
        },
{
    let ProbedCell { text, decimal, float8, float4, int8, int4, boolean, timestamp, date } = p;
    match text {
        Some(s) => {
            return Ok(SqlValue::Text(s));
        },
        None => {},
    }
    match decimal {
        Some(Some(bits)) => {
            return Ok(SqlValue::Float(bits));
        },
        Some(None) => {
            return Err(SqlExecutionError::ColumnDecodeError(column.to_owned()));
        },
        None => {},
    }
    match float8 {
        Some(bits) => {
            return Ok(SqlValue::Float(bits));
        },
        None => {},
    }
    match float4 {
        Some(bits) => {
            return Ok(SqlValue::Float(bits));
        },
        None => {},
    }
    match int8 {
        Some(i) => {
            return Ok(SqlValue::Int(i));
        },
        None => {},
    }
    match int4 {
        Some(i) => {
            return Ok(SqlValue::Int(i as i64));
        },
        None => {},
    }
    match boolean {
        Some(b) => {
            return Ok(SqlValue::Bool(b));
        },
        None => {},
    }
    match timestamp {
        Some(s) => {
            return Ok(SqlValue::Text(s));
        },
        None => {},
    }
    match date {
        Some(s) => {
            return Ok(SqlValue::Text(s));
        },
        None => {},
    }
    Err(SqlExecutionError::ColumnDecodeError(column.to_owned()))
}

/// Decodes a whole row; cell `k` is named after column `k` on failure.
#[verifier::loop_isolation(false)]
pub fn decode_row(cells: Vec<ProbedCell>, columns: &Vec<String>) -> (r: Result<
    Vec<SqlValue>,
    SqlExecutionError,
>)
    requires
        cells@.len() == columns@.len(),
    ensures
        match spec_decode_row(cells@) {
            Some(vs) => r is Ok && row_view(r->Ok_0@) == vs && r->Ok_0@.len() == cells@.len(),
            None => r is Err && exists|k: int|
                0 <= k < cells@.len() && spec_decode_cell(#[trigger] cells@[k]) is None
                    && r->Err_0@ == SqlErrorModel::ColumnDecode(columns@[k]@),
        },
{
    let ghost orig = cells@;
    let mut cells = cells;
    let total = cells.len();
    let mut out: Vec<SqlValue> = Vec::new();
    let mut i: usize = 0;
    while cells.len() > 0
        invariant
            out@.len() == i,
            i + cells@.len() == orig.len(),
            orig.len() == columns@.len(),
            cells@ =~= orig.skip(i as int),
            forall|k: int|
                0 <= k < i ==> (#[trigger] spec_decode_cell(orig[k])) is Some && out@[k]@
                    == spec_decode_cell(orig[k])->0,
        decreases cells@.len(),
    {
        let ghost pre = cells@;
        let cell = cells.remove(0);
        proof {
            assert(cell == orig[i as int]);
            assert(cells@ =~= orig.skip(i as int + 1));
        }
        match decode_cell(cell, columns[i].as_str()) {
            Ok(v) => {
                out.push(v);
            },
            Err(e) => {
                proof {
                    assert(spec_decode_cell(orig[i as int]) is None);
                    assert(spec_decode_row(orig) is None);
                }
                return Err(e);
            },
        }
        i += 1;
    }
    proof {
        assert(spec_decode_row(orig) is Some);
        assert(row_view(out@) =~= spec_decode_row(orig)->0);
    }
    Ok(out)
}

/// Builds the decoded result set of the executor: keeps at most `max_rows`
/// rows (silent truncation, never an error), decodes each kept row, and
/// represents an empty result as empty columns and no rows. Every produced
/// result set satisfies the arity invariant.
#[verifier::loop_isolation(false)]
pub fn build_result_set(columns: Vec<String>, rows: Vec<Vec<ProbedCell>>, max_rows: usize) -> (r:
    Result<ResultSet, SqlExecutionError>)
    requires
        forall|i: int| 0 <= i < rows@.len() ==> (#[trigger] rows@[i])@.len() == columns@.len(),
    ensures
        ({
            let m = if rows@.len() <= max_rows {
                rows@.len() as int
            } else {
                max_rows as int
            };
            &&& (r is Ok <==> forall|i: int|
                0 <= i < m ==> (#[trigger] spec_decode_row(rows@[i]@)) is Some)
            &&& (r is Ok && m == 0 ==> r->Ok_0@.columns.len() == 0 && r->Ok_0@.rows.len() == 0)
            &&& (r is Ok && m > 0 ==> r->Ok_0@.columns == cols_view(columns@) && r->Ok_0@.rows.len()
                == m && forall|i: int|
                0 <= i < m ==> r->Ok_0@.rows[i] == spec_decode_row(#[trigger] rows@[i]@)->0)
            &&& (r is Ok ==> r->Ok_0@.rows.len() == m && r->Ok_0@.wf())
            &&& (r is Err ==> exists|i: int, k: int|
                0 <= i < m && 0 <= k < columns@.len() && spec_decode_cell(
                    #[trigger] rows@[i]@[k],
                ) is None && r->Err_0@ == SqlErrorModel::ColumnDecode(columns@[k]@))
        }),
{
    let ghost orig = rows@;
    let mut rows = rows;
    rows.truncate(max_rows);
    let ghost m = rows@.len() as int;
    proof {
        assert(forall|i: int| 0 <= i < m ==> rows@[i] == orig[i]);
    }
    if rows.len() == 0 {
        let rs = ResultSet { columns: Vec::new(), rows: Vec::new() };
        proof {
            assert(rs@.columns =~= Seq::<Seq<char>>::empty());
            assert(rs@.rows =~= Seq::<Seq<SqlValueModel>>::empty());
        }
        return Ok(rs);
    }
    let total = rows.len();
    let mut out_rows: Vec<Vec<SqlValue>> = Vec::new();
    let mut i: usize = 0;
    let ghost kept = rows@;
    while rows.len() > 0
        invariant
            out_rows@.len() == i,
            kept.len() == total,
            i + rows@.len() == kept.len(),
            rows@ =~= kept.skip(i as int),
            forall|k: int| 0 <= k < kept.len() ==> #[trigger] kept[k] == orig[k],
            forall|k: int| 0 <= k < kept.len() ==> (#[trigger] kept[k])@.len() == columns@.len(),
            forall|k: int|
                0 <= k < i ==> (#[trigger] spec_decode_row(kept[k]@)) is Some && row_view(
                    out_rows@[k]@,
                ) == spec_decode_row(kept[k]@)->0 && out_rows@[k]@.len() == columns@.len(),
        decreases rows@.len(),
    {
        let row = rows.remove(0);
        proof {
            assert(row == kept[i as int]);
            assert(rows@ =~= kept.skip(i as int + 1));
        }
        match decode_row(row, &columns) {
            Ok(v) => {
                out_rows.push(v);
            },
            Err(e) => {
                proof {
                    assert(spec_decode_row(kept[i as int]@) is None);
                    assert(spec_decode_row(orig[i as int]@) is None);
                    let k = choose|k: int|
                        0 <= k < row@.len() && spec_decode_cell(#[trigger] row@[k]) is None && e@
                            == SqlErrorModel::ColumnDecode(columns@[k]@);
                    assert(orig[i as int]@[k] == row@[k]);
                    assert(spec_decode_cell(orig[i as int]@[k]) is None);
                }
                return Err(e);
            },
        }
        i += 1;
    }
    let rs = ResultSet { columns, rows: out_rows };
    proof {
        assert(rs@.rows.len() == m);
        assert(forall|k: int|
            0 <= k < m ==> #[trigger] rs@.rows[k] == spec_decode_row(orig[k]@)->0);
        assert(rs@.wf()) by {
            assert(forall|k: int|
                0 <= k < m ==> (#[trigger] rs@.rows[k]).len() == rs@.columns.len());
        }
    }
    Ok(rs)
}

} // verus!
