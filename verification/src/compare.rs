use vstd::prelude::*;

verus! {

use vstd::relations::sorted_by;
use crate::result_set::{
    columns_name_sorted, lemma_col_perm_is_perm, lemma_number_columns_wf,
    lemma_sort_columns_of_sorted, lemma_sort_columns_wf, lemma_sort_rows_of_sorted,
    lemma_sort_rows_wf, lemma_sorted_columns_names_sorted, numbered_columns, sorted_columns,
    sorted_rows, ResultSet, ResultSetExtension, ResultSetModel,
};
use crate::value::row_le_rel;
use crate::value::{float_is_nan, row_view, value_eq, SqlValue, SqlValueModel};

/// How rows are normalized before comparison.
#[derive(Debug, Copy, Clone, Ord, PartialOrd, Eq, PartialEq)]
pub enum RowNormalisation {
    NoNormalization,
    SortRows,
}

/// How columns are normalized before comparison.
#[derive(Debug, Copy, Clone, Ord, PartialOrd, Eq, PartialEq)]
pub enum ColumnNormalisation {
    NoNormalization,
    SortColumnsByName,
    NumberColumnsByOrder,
}

/// The canonical form the comparator reduces a result set to: the column
/// normalization first, then the row normalization.
pub open spec fn spec_normalized(
    rs: ResultSetModel,
    row_norm: RowNormalisation,
    col_norm: ColumnNormalisation,
) -> ResultSetModel {
    let c = match col_norm {
        ColumnNormalisation::NoNormalization => rs,
        ColumnNormalisation::SortColumnsByName => sorted_columns(rs),
        ColumnNormalisation::NumberColumnsByOrder => numbered_columns(rs),
    };
    match row_norm {
        RowNormalisation::NoNormalization => c,
        RowNormalisation::SortRows => sorted_rows(c),
    }
}

/// Applies the requested normalizations in place, columns before rows.
pub fn normalize_result_set(
    rs: &mut ResultSet,
    row_norm: RowNormalisation,
    col_norm: ColumnNormalisation,
)
    requires
        old(rs)@.wf(),
    ensures
        final(rs)@ == spec_normalized(old(rs)@, row_norm, col_norm),
        final(rs)@.wf(),
{
    match col_norm {
        ColumnNormalisation::NoNormalization => {},
        ColumnNormalisation::SortColumnsByName => {
            proof {
                lemma_sort_columns_wf(rs@);
            }
            rs.sort_columns();
        },
        ColumnNormalisation::NumberColumnsByOrder => {
            proof {
                lemma_number_columns_wf(rs@);
            }
            rs.number_columns();
        },
    }
    match row_norm {
        RowNormalisation::NoNormalization => {},
        RowNormalisation::SortRows => {
            proof {
                lemma_sort_rows_wf(rs@);
            }
            rs.sort_rows();
        },
    }
}

/// Cell-wise equality of two rows, with IEEE semantics on float cells.
pub open spec fn row_eq(a: Seq<SqlValueModel>, b: Seq<SqlValueModel>) -> bool {
    a.len() == b.len() && forall|k: int| 0 <= k < a.len() ==> value_eq(#[trigger] a[k], b[k])
}

/// Structural equality of two result sets as the comparator tests it:
/// identical column names and cell-wise equal rows in the same order.
pub open spec fn result_sets_eq(a: ResultSetModel, b: ResultSetModel) -> bool {
    &&& a.columns == b.columns
    &&& a.rows.len() == b.rows.len()
    &&& forall|i: int| 0 <= i < a.rows.len() ==> row_eq(#[trigger] a.rows[i], b.rows[i])
}

/// Decides `row_eq` on two cell vectors.
fn rows_equal(a: &Vec<SqlValue>, b: &Vec<SqlValue>) -> (r: bool)
    ensures
        r == row_eq(row_view(a@), row_view(b@)),
{
    if a.len() != b.len() {
        return false;
    }
    let mut k: usize = 0;
    while k < a.len()
        invariant
            k <= a@.len(),
            a@.len() == b@.len(),
            forall|j: int| 0 <= j < k ==> value_eq(#[trigger] row_view(a@)[j], row_view(b@)[j]),
        decreases a@.len() - k,
    {
        if !a[k].equal_cell(&b[k]) {
            proof {
                assert(row_view(a@)[k as int] == a@[k as int]@);
                assert(row_view(b@)[k as int] == b@[k as int]@);
            }
            return false;
        }
        proof {
            assert(row_view(a@)[k as int] == a@[k as int]@);
            assert(row_view(b@)[k as int] == b@[k as int]@);
        }
        k += 1;
    }
    true
}

/// Decides `result_sets_eq` on two result sets.
pub fn result_sets_equal(a: &ResultSet, b: &ResultSet) -> (r: bool)
    ensures
        r == result_sets_eq(a@, b@),
{
    if a.columns.len() != b.columns.len() {
        proof {
            assert(a@.columns.len() == a.columns@.len());
            assert(b@.columns.len() == b.columns@.len());
            assert(a@.columns != b@.columns);
        }
        return false;
    }
    let mut c: usize = 0;
    while c < a.columns.len()
        invariant
            c <= a.columns@.len(),
            a.columns@.len() == b.columns@.len(),
            forall|j: int| 0 <= j < c ==> #[trigger] a@.columns[j] == b@.columns[j],
        decreases a.columns@.len() - c,
    {
        if !crate::value::str_equal(a.columns[c].as_str(), b.columns[c].as_str()) {
            proof {
                assert(a@.columns[c as int] != b@.columns[c as int]);
            }
            return false;
        }
        c += 1;
    }
    proof {
        assert(a@.columns =~= b@.columns);
    }
    if a.rows.len() != b.rows.len() {
        return false;
    }
    let mut i: usize = 0;
    while i < a.rows.len()
        invariant
            i <= a.rows@.len(),
            a.rows@.len() == b.rows@.len(),
            a@.columns == b@.columns,
            forall|j: int| 0 <= j < i ==> row_eq(#[trigger] a@.rows[j], b@.rows[j]),
        decreases a.rows@.len() - i,
    {
        if !rows_equal(&a.rows[i], &b.rows[i]) {
            proof {
                assert(a@.rows[i as int] == row_view(a.rows@[i as int]@));
                assert(b@.rows[i as int] == row_view(b.rows@[i as int]@));
            }
            return false;
        }
        proof {
            assert(a@.rows[i as int] == row_view(a.rows@[i as int]@));
            assert(b@.rows[i as int] == row_view(b.rows@[i as int]@));
        }
        i += 1;
    }
    true
}

/// The comparison core: normalizes both result sets the same way — columns
/// first, then rows — and tests structural equality.
pub fn compare_result_sets(
    solution: ResultSet,
    submission: ResultSet,
    row_norm: RowNormalisation,
    col_norm: ColumnNormalisation,
) -> (r: (ResultSet, ResultSet, bool))
    requires
        solution@.wf(),
        submission@.wf(),
    ensures
        r.0@ == spec_normalized(solution@, row_norm, col_norm),
        r.1@ == spec_normalized(submission@, row_norm, col_norm),
        r.0@.wf(),
        r.1@.wf(),
        r.2 == result_sets_eq(r.0@, r.1@),
{
    let mut a = solution;
    let mut b = submission;
    normalize_result_set(&mut a, row_norm, col_norm);
    normalize_result_set(&mut b, row_norm, col_norm);
    let eq = result_sets_equal(&a, &b);
    (a, b, eq)
}

/// A cell that is not an IEEE NaN; only such cells are equal to
/// themselves.
pub open spec fn cell_not_nan(v: SqlValueModel) -> bool {
    match v {
        SqlValueModel::Float(bits) => !float_is_nan(bits),
        _ => true,
    }
}

/// No cell of the result set is a NaN.
pub open spec fn no_nan(rs: ResultSetModel) -> bool {
    forall|i: int, k: int|
        0 <= i < rs.rows.len() && 0 <= k < rs.rows[i].len() ==> cell_not_nan(
            #[trigger] rs.rows[i][k],
        )
}

/// Result-set equality is symmetric in its two arguments.
pub proof fn lemma_result_sets_eq_symmetric(a: ResultSetModel, b: ResultSetModel)
    ensures
        result_sets_eq(a, b) == result_sets_eq(b, a),
{
    if result_sets_eq(a, b) {
        lemma_result_sets_eq_one_direction(a, b);
    }
    if result_sets_eq(b, a) {
        lemma_result_sets_eq_one_direction(b, a);
    }
}

proof fn lemma_result_sets_eq_one_direction(a: ResultSetModel, b: ResultSetModel)
    requires
        result_sets_eq(a, b),
    ensures
        result_sets_eq(b, a),
{
    assert forall|i: int| 0 <= i < b.rows.len() implies row_eq(#[trigger] b.rows[i], a.rows[i]) by {
        assert(row_eq(a.rows[i], b.rows[i]));
        assert forall|k: int| 0 <= k < b.rows[i].len() implies value_eq(
            #[trigger] b.rows[i][k],
            a.rows[i][k],
        ) by {
            assert(value_eq(a.rows[i][k], b.rows[i][k]));
        }
    }
}

/// A result set without NaN cells is equal to itself.
pub proof fn lemma_result_sets_eq_reflexive(a: ResultSetModel)
    requires
        no_nan(a),
    ensures
        result_sets_eq(a, a),
{
    assert forall|i: int| 0 <= i < a.rows.len() implies row_eq(#[trigger] a.rows[i], a.rows[i]) by {
        assert forall|k: int| 0 <= k < a.rows[i].len() implies value_eq(
            #[trigger] a.rows[i][k],
            a.rows[i][k],
        ) by {
            assert(cell_not_nan(a.rows[i][k]));
        }
    }
}

/// Normalization never introduces a NaN cell.
pub proof fn lemma_normalized_no_nan(
    rs: ResultSetModel,
    row_norm: RowNormalisation,
    col_norm: ColumnNormalisation,
)
    requires
        rs.wf(),
        no_nan(rs),
    ensures
        no_nan(spec_normalized(rs, row_norm, col_norm)),
{
    let c = match col_norm {
        ColumnNormalisation::NoNormalization => rs,
        ColumnNormalisation::SortColumnsByName => sorted_columns(rs),
        ColumnNormalisation::NumberColumnsByOrder => numbered_columns(rs),
    };
    assert(no_nan(c)) by {
        if col_norm is SortColumnsByName {
            lemma_col_perm_is_perm(rs.columns);
            assert forall|i: int, k: int|
                0 <= i < c.rows.len() && 0 <= k < c.rows[i].len() implies cell_not_nan(
                #[trigger] c.rows[i][k],
            ) by {
                assert(c.rows[i][k] == rs.rows[i][col_perm_at(rs.columns, k)]);
                assert(cell_not_nan(rs.rows[i][col_perm_at(rs.columns, k)]));
            }
        }
    }
    match row_norm {
        RowNormalisation::NoNormalization => {},
        RowNormalisation::SortRows => {
            lemma_sorted_rows_no_nan(c);
        },
    }
}

/// The entry of the column permutation at position `k`.
pub open spec fn col_perm_at(cols: Seq<Seq<char>>, k: int) -> int {
    crate::result_set::col_perm(cols)[k]
}

proof fn lemma_sorted_rows_no_nan(rs: ResultSetModel)
    requires
        no_nan(rs),
    ensures
        no_nan(sorted_rows(rs)),
{
    broadcast use vstd::multiset::group_multiset_axioms;

    crate::value::lemma_row_le_total_ordering();
    rs.rows.lemma_sort_by_ensures(crate::value::row_le_rel());
    let s = rs.rows.sort_by(crate::value::row_le_rel());
    s.to_multiset_ensures();
    rs.rows.to_multiset_ensures();
    assert forall|i: int, k: int|
        0 <= i < s.len() && 0 <= k < s[i].len() implies cell_not_nan(#[trigger] s[i][k]) by {
        assert(s.contains(s[i]));
        assert(s.to_multiset().count(s[i]) > 0);
        assert(rs.rows.contains(s[i]));
        let j = choose|j: int| 0 <= j < rs.rows.len() && rs.rows[j] == s[i];
        assert(cell_not_nan(rs.rows[j][k]));
    }
}

/// The comparator's canonicalization is idempotent as a whole: applying
/// the chosen normalization pair a second time changes nothing, so the
/// pair yields a single canonical form.
pub proof fn lemma_normalized_idempotent(
    rs: ResultSetModel,
    row_norm: RowNormalisation,
    col_norm: ColumnNormalisation,
)
    requires
        rs.wf(),
    ensures
        spec_normalized(spec_normalized(rs, row_norm, col_norm), row_norm, col_norm)
            == spec_normalized(rs, row_norm, col_norm),
{
    let c = match col_norm {
        ColumnNormalisation::NoNormalization => rs,
        ColumnNormalisation::SortColumnsByName => sorted_columns(rs),
        ColumnNormalisation::NumberColumnsByOrder => numbered_columns(rs),
    };
    let y = spec_normalized(rs, row_norm, col_norm);
    assert(c.wf()) by {
        match col_norm {
            ColumnNormalisation::NoNormalization => {},
            ColumnNormalisation::SortColumnsByName => {
                lemma_sort_columns_wf(rs);
            },
            ColumnNormalisation::NumberColumnsByOrder => {
                lemma_number_columns_wf(rs);
            },
        }
    }
    assert(y.wf() && y.columns == c.columns) by {
        match row_norm {
            RowNormalisation::NoNormalization => {},
            RowNormalisation::SortRows => {
                lemma_sort_rows_wf(c);
            },
        }
    }
    let c2 = match col_norm {
        ColumnNormalisation::NoNormalization => y,
        ColumnNormalisation::SortColumnsByName => sorted_columns(y),
        ColumnNormalisation::NumberColumnsByOrder => numbered_columns(y),
    };
    assert(c2 == y) by {
        match col_norm {
            ColumnNormalisation::NoNormalization => {},
            ColumnNormalisation::SortColumnsByName => {
                lemma_sorted_columns_names_sorted(rs);
                lemma_sort_columns_of_sorted(y);
            },
            ColumnNormalisation::NumberColumnsByOrder => {
                assert(numbered_columns(y).columns =~= y.columns);
            },
        }
    }
    match row_norm {
        RowNormalisation::NoNormalization => {},
        RowNormalisation::SortRows => {
            assert(sorted_by(y.rows, row_le_rel())) by {
                crate::value::lemma_row_le_total_ordering();
                c.rows.lemma_sort_by_ensures(row_le_rel());
            }
            lemma_sort_rows_of_sorted(y);
        },
    }
}

/// Comparing the result of a deterministic query with itself reports
/// equality, under any normalization pair, as long as no cell is a NaN.
pub proof fn lemma_compare_same_result(
    rs: ResultSetModel,
    row_norm: RowNormalisation,
    col_norm: ColumnNormalisation,
)
    requires
        rs.wf(),
        no_nan(rs),
    ensures
        result_sets_eq(
            spec_normalized(rs, row_norm, col_norm),
            spec_normalized(rs, row_norm, col_norm),
        ),
{
    lemma_normalized_no_nan(rs, row_norm, col_norm);
    lemma_result_sets_eq_reflexive(spec_normalized(rs, row_norm, col_norm));
}

} // verus!
