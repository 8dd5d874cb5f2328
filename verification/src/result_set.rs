use vstd::prelude::*;

verus! {

use vstd::relations::{sorted_by, total_ordering};
use vstd::seq_lib::lemma_sorted_unique;
use crate::order::{
    lemma_lex_le_antisymmetric, lemma_lex_le_reflexive, lemma_lex_le_strongly_connected,
    lemma_lex_le_transitive, lemma_map_values_push, lemma_map_values_remove,
};
use crate::text::dec_str;
use crate::value::{
    char_le_rel, chars_le, chars_lt, lemma_char_le_total_ordering, lemma_row_le_connected,
    lemma_row_le_reflexive, lemma_row_le_total_ordering, lemma_row_le_transitive, row_le,
    row_le_exec, row_le_rel, row_view, SqlValue, SqlValueModel,
};

/// Mathematical model of a result set: a sequence of column names and a
/// sequence of rows, each row a sequence of cell values.
pub struct ResultSetModel {
    pub columns: Seq<Seq<char>>,
    pub rows: Seq<Seq<SqlValueModel>>,
}

impl ResultSetModel {
    /// Arity invariant: every row has exactly as many cells as there are
    /// columns.
    pub open spec fn wf(self) -> bool {
        forall|i: int|
            0 <= i < self.rows.len() ==> (#[trigger] self.rows[i]).len() == self.columns.len()
    }
}

/// The view of a sequence of column names.
pub open spec fn cols_view(s: Seq<String>) -> Seq<Seq<char>> {
    s.map_values(|c: String| c@)
}

/// The view of a sequence of rows.
pub open spec fn rows_view(s: Seq<Vec<SqlValue>>) -> Seq<Seq<SqlValueModel>> {
    s.map_values(|r: Vec<SqlValue>| row_view(r@))
}

/// A decoded result set: ordered column names and ordered rows of tagged
/// scalar cells.
#[derive(Debug, PartialEq)]
pub struct ResultSet {
    pub columns: Vec<String>,
    pub rows: Vec<Vec<SqlValue>>,
}

impl View for ResultSet {
    type V = ResultSetModel;

    open spec fn view(&self) -> ResultSetModel {
        ResultSetModel { columns: cols_view(self.columns@), rows: rows_view(self.rows@) }
    }
}

impl Clone for ResultSet {
    fn clone(&self) -> (res: Self)
        ensures
            res@ == self@,
    {
        let mut columns: Vec<String> = Vec::new();
        let mut i: usize = 0;
        while i < self.columns.len()
            invariant
                i <= self.columns@.len(),
                columns@.len() == i,
                forall|k: int| 0 <= k < i ==> columns@[k]@ == self.columns@[k]@,
            decreases self.columns@.len() - i,
        {
            columns.push(self.columns[i].clone());
            i += 1;
        }
        let mut rows: Vec<Vec<SqlValue>> = Vec::new();
        let mut r: usize = 0;
        while r < self.rows.len()
            invariant
                r <= self.rows@.len(),
                rows@.len() == r,
                forall|k: int| 0 <= k < r ==> row_view(rows@[k]@) == row_view(self.rows@[k]@),
            decreases self.rows@.len() - r,
        {
            let row = &self.rows[r];
            let mut new_row: Vec<SqlValue> = Vec::new();
            let mut j: usize = 0;
            while j < row.len()
                invariant
                    j <= row@.len(),
                    new_row@.len() == j,
                    forall|k: int| 0 <= k < j ==> new_row@[k]@ == row@[k]@,
                decreases row@.len() - j,
            {
                new_row.push(row[j].clone());
                j += 1;
            }
            proof {
                assert(row_view(new_row@) =~= row_view(row@));
            }
            rows.push(new_row);
            r += 1;
        }
        let res = ResultSet { columns, rows };
        proof {
            assert(cols_view(res.columns@) =~= cols_view(self.columns@));
            assert(rows_view(res.rows@) =~= rows_view(self.rows@));
        }
        res
    }
}

impl ResultSet {
    /// Decides the arity invariant: every row as wide as the column list.
    pub fn arity_ok(&self) -> (r: bool)
        ensures
            r == self@.wf(),
    {
        let n = self.columns.len();
        let mut i: usize = 0;
        while i < self.rows.len()
            invariant
                i <= self.rows@.len(),
                n == self.columns@.len(),
                forall|k: int| 0 <= k < i ==> (#[trigger] self@.rows[k]).len() == n,
            decreases self.rows@.len() - i,
        {
            if self.rows[i].len() != n {
                proof {
                    assert(self@.rows[i as int].len() == self.rows@[i as int]@.len());
                }
                return false;
            }
            proof {
                assert(self@.rows[i as int].len() == self.rows@[i as int]@.len());
            }
            i += 1;
        }
        true
    }
}

/// The order on column positions used by `sort_columns`: by name first,
/// breaking ties between equal names by the position itself, which makes
/// the sort stable.
pub open spec fn col_order(cols: Seq<Seq<char>>) -> spec_fn(int, int) -> bool {
    |i: int, j: int| chars_lt(cols[i], cols[j]) || (cols[i] == cols[j] && i <= j)
}

/// The sequence `0, 1, ..., n - 1`.
pub open spec fn ident_seq(n: nat) -> Seq<int> {
    Seq::new(n, |k: int| k)
}

/// The permutation applied by `sort_columns`: the positions of the columns,
/// reordered stably by column name.
pub open spec fn col_perm(cols: Seq<Seq<char>>) -> Seq<int> {
    ident_seq(cols.len()).sort_by(col_order(cols))
}

/// What `sort_columns` computes: columns reordered by `col_perm`, and every
/// row permuted identically, so each cell keeps its column.
pub open spec fn sorted_columns(rs: ResultSetModel) -> ResultSetModel {
    let p = col_perm(rs.columns);
    let n = rs.columns.len();
    ResultSetModel {
        columns: Seq::new(n, |j: int| rs.columns[p[j]]),
        rows: rs.rows.map_values(|row: Seq<SqlValueModel>| Seq::new(n, |j: int| row[p[j]])),
    }
}

/// What `number_columns` computes: each column name replaced by its
/// zero-based position in decimal; rows untouched.
pub open spec fn numbered_columns(rs: ResultSetModel) -> ResultSetModel {
    ResultSetModel {
        columns: Seq::new(rs.columns.len(), |j: int| dec_str(j as nat)),
        rows: rs.rows,
    }
}

/// What `sort_rows` computes: the rows sorted by the total row order;
/// columns untouched.
pub open spec fn sorted_rows(rs: ResultSetModel) -> ResultSetModel {
    ResultSetModel { columns: rs.columns, rows: rs.rows.sort_by(row_le_rel()) }
}

/// The column-position order is a total order.
pub proof fn lemma_col_order_total_ordering(cols: Seq<Seq<char>>)
    ensures
        total_ordering(col_order(cols)),
{
    lemma_char_le_total_ordering();
    let ord = col_order(cols);
    assert forall|i: int| #[trigger] ord(i, i) by {}
    assert forall|i: int, j: int| #[trigger] ord(i, j) && #[trigger] ord(j, i) implies i == j by {
        if cols[i] != cols[j] {
            lemma_lex_le_antisymmetric(cols[i], cols[j], char_le_rel());
        }
    }
    assert forall|i: int, j: int, k: int|
        #[trigger] ord(i, j) && #[trigger] ord(j, k) implies ord(i, k) by {
        if cols[i] != cols[j] && cols[j] != cols[k] {
            lemma_lex_le_transitive(cols[i], cols[j], cols[k], char_le_rel());
            if cols[i] == cols[k] {
                lemma_lex_le_antisymmetric(cols[i], cols[j], char_le_rel());
            }
        }
    }
    assert forall|i: int, j: int| #[trigger] ord(i, j) || #[trigger] ord(j, i) by {
        if cols[i] != cols[j] {
            lemma_lex_le_strongly_connected(cols[i], cols[j], char_le_rel());
        }
    }
}

/// Decides the column-position order for two positions of `names`.
fn col_key_le(names: &Vec<String>, x: usize, y: usize) -> (r: bool)
    requires
        x < names@.len(),
        y < names@.len(),
    ensures
        r == col_order(cols_view(names@))(x as int, y as int),
{
    let sx = &names[x];
    let sy = &names[y];
    if crate::value::str_equal(sx.as_str(), sy.as_str()) {
        x <= y
    } else {
        crate::value::str_le(sx.as_str(), sy.as_str())
    }
}

/// The view of an index vector as a sequence of mathematical integers.
pub open spec fn perm_ints(s: Seq<usize>) -> Seq<int> {
    s.map_values(|u: usize| u as int)
}

/// Computes the stable name-sort permutation of the column positions:
/// exactly `col_perm` of the column-name views.
fn sort_col_indices(names: &Vec<String>) -> (perm: Vec<usize>)
    ensures
        perm@.len() == names@.len(),
        forall|j: int| 0 <= j < perm@.len() ==> (#[trigger] perm@[j]) < names@.len(),
        perm_ints(perm@) == col_perm(cols_view(names@)),
{
    let n = names.len();
    let ghost cols = cols_view(names@);
    let ghost ord = col_order(cols);
    proof {
        lemma_col_order_total_ordering(cols);
    }
    let mut work: Vec<usize> = Vec::new();
    let mut k: usize = 0;
    while k < n
        invariant
            k <= n,
            work@.len() == k,
            forall|j: int| 0 <= j < k ==> #[trigger] work@[j] == j,
        decreases n - k,
    {
        work.push(k);
        k += 1;
    }
    proof {
        assert(perm_ints(work@) =~= ident_seq(n as nat));
    }
    let mut out: Vec<usize> = Vec::new();
    proof {
        broadcast use vstd::multiset::group_multiset_axioms;

        assert(perm_ints(out@) =~= Seq::<int>::empty());
        perm_ints(out@).to_multiset_ensures();
        assert(forall|x: int| perm_ints(out@).to_multiset().count(x) == 0);
        assert(perm_ints(out@).to_multiset().add(perm_ints(work@).to_multiset()) =~= perm_ints(
            work@,
        ).to_multiset());
    }
    while work.len() > 0
        invariant
            n == names@.len(),
            cols == cols_view(names@),
            ord == col_order(cols),
            total_ordering(ord),
            out@.len() + work@.len() == n,
            forall|j: int| 0 <= j < out@.len() ==> (#[trigger] out@[j]) < n,
            forall|j: int| 0 <= j < work@.len() ==> (#[trigger] work@[j]) < n,
            perm_ints(out@).to_multiset().add(perm_ints(work@).to_multiset()) == ident_seq(
                n as nat,
            ).to_multiset(),
            sorted_by(perm_ints(out@), ord),
            forall|i: int, j: int|
                0 <= i < out@.len() && 0 <= j < work@.len() ==> ord(
                    #[trigger] out@[i] as int,
                    #[trigger] work@[j] as int,
                ),
        decreases work@.len(),
    {
        let mut m: usize = 0;
        let mut t: usize = 1;
        while t < work.len()
            invariant
                n == names@.len(),
                cols == cols_view(names@),
                ord == col_order(cols),
                total_ordering(ord),
                forall|j: int| 0 <= j < work@.len() ==> (#[trigger] work@[j]) < n,
                work@.len() > 0,
                m < work@.len(),
                t <= work@.len(),
                forall|j: int| 0 <= j < t ==> ord(work@[m as int] as int, #[trigger] work@[j] as int),
            decreases work@.len() - t,
        {
            let ghost m_old = m as int;
            if !col_key_le(names, work[m], work[t]) {
                proof {
                    assert(ord(work@[t as int] as int, work@[m_old] as int));
                }
                m = t;
            }
            proof {
                assert forall|j: int| 0 <= j < t + 1 implies ord(
                    work@[m as int] as int,
                    work@[j] as int,
                ) by {
                    if j < t {
                        assert(ord(work@[m_old] as int, work@[j] as int));
                        if m_old != m as int {
                            assert(ord(work@[m as int] as int, work@[m_old] as int));
                        }
                    } else {
                        if m_old == m as int {
                            assert(ord(work@[m_old] as int, work@[t as int] as int));
                        } else {
                            assert(ord(work@[m as int] as int, work@[m as int] as int));
                        }
                    }
                }
            }
            t += 1;
        }
        let ghost old_work = work@;
        let ghost old_out = out@;
        let chosen = work.remove(m);
        out.push(chosen);
        proof {
            broadcast use vstd::multiset::group_multiset_axioms;

            lemma_map_values_remove(old_work, |u: usize| u as int, m as int);
            lemma_map_values_push(old_out, |u: usize| u as int, chosen);
            perm_ints(old_work).to_multiset_ensures();
            perm_ints(old_out).to_multiset_ensures();
            assert(perm_ints(work@) =~= perm_ints(old_work).remove(m as int));
            assert(perm_ints(out@) =~= perm_ints(old_out).push(chosen as int));
            assert(perm_ints(old_work)[m as int] == chosen as int);
            assert(perm_ints(old_work).remove(m as int).to_multiset() =~= perm_ints(
                old_work,
            ).to_multiset().remove(chosen as int));
            assert(perm_ints(old_out).push(chosen as int).to_multiset() =~= perm_ints(
                old_out,
            ).to_multiset().insert(chosen as int));
            assert(perm_ints(old_work).to_multiset().count(chosen as int) > 0) by {
                assert(perm_ints(old_work)[m as int] == chosen as int);
                assert(perm_ints(old_work).contains(chosen as int));
            }
            assert(perm_ints(out@).to_multiset().add(perm_ints(work@).to_multiset())
                =~= perm_ints(old_out).to_multiset().add(perm_ints(old_work).to_multiset()));
            assert forall|i: int, j: int|
                0 <= i < out@.len() && 0 <= j < work@.len() implies ord(
                #[trigger] out@[i] as int,
                #[trigger] work@[j] as int,
            ) by {
                assert(work@[j] == old_work[if j < m { j } else { j + 1 }]);
                if i < old_out.len() {
                    assert(ord(out@[i] as int, work@[j] as int));
                } else {
                    assert(out@[i] == chosen);
                    assert(ord(chosen as int, work@[j] as int));
                }
            }
            assert(sorted_by(perm_ints(out@), ord)) by {
                assert forall|i: int, j: int|
                    0 <= i < j < perm_ints(out@).len() implies ord(
                    perm_ints(out@)[i],
                    perm_ints(out@)[j],
                ) by {
                    if j < old_out.len() {
                        assert(ord(perm_ints(old_out)[i], perm_ints(old_out)[j]));
                    } else {
                        assert(out@[j] == chosen);
                        assert(ord(old_out[i] as int, old_work[m as int] as int));
                    }
                }
            }
        }
    }
    proof {
        broadcast use vstd::multiset::group_multiset_axioms;

        assert(perm_ints(out@).to_multiset() == ident_seq(n as nat).to_multiset()) by {
            assert(perm_ints(work@) =~= Seq::<int>::empty());
            perm_ints(work@).to_multiset_ensures();
            assert(perm_ints(work@).to_multiset().len() == 0);
            assert(forall|x: int| perm_ints(work@).to_multiset().count(x) == 0);
            assert(perm_ints(out@).to_multiset().add(perm_ints(work@).to_multiset())
                =~= perm_ints(out@).to_multiset());
        }
        ident_seq(n as nat).lemma_sort_by_ensures(ord);
        lemma_sorted_unique(perm_ints(out@), col_perm(cols), ord);
    }
    out
}

/// The column permutation is a permutation of the column positions, sorted
/// by the column-position order.
pub proof fn lemma_col_perm_is_perm(cols: Seq<Seq<char>>)
    ensures
        col_perm(cols).len() == cols.len(),
        forall|j: int| 0 <= j < cols.len() ==> 0 <= #[trigger] col_perm(cols)[j] < cols.len(),
        col_perm(cols).to_multiset() == ident_seq(cols.len()).to_multiset(),
        sorted_by(col_perm(cols), col_order(cols)),
{
    broadcast use vstd::multiset::group_multiset_axioms;

    let n = cols.len();
    let p = col_perm(cols);
    lemma_col_order_total_ordering(cols);
    ident_seq(n).lemma_sort_by_ensures(col_order(cols));
    p.to_multiset_ensures();
    ident_seq(n).to_multiset_ensures();
    assert(p.len() == n);
    assert forall|j: int| 0 <= j < n implies 0 <= #[trigger] p[j] < n by {
        assert(p.contains(p[j]));
        assert(p.to_multiset().count(p[j]) > 0);
        assert(ident_seq(n).contains(p[j]));
        let k = choose|k: int| 0 <= k < n && ident_seq(n)[k] == p[j];
        assert(ident_seq(n)[k] == k);
    }
}

/// Sorting columns preserves the arity invariant.
pub proof fn lemma_sort_columns_wf(rs: ResultSetModel)
    requires
        rs.wf(),
    ensures
        sorted_columns(rs).wf(),
{
}

/// Renumbering columns preserves the arity invariant.
pub proof fn lemma_number_columns_wf(rs: ResultSetModel)
    requires
        rs.wf(),
    ensures
        numbered_columns(rs).wf(),
{
}

/// Sorting rows preserves the arity invariant.
pub proof fn lemma_sort_rows_wf(rs: ResultSetModel)
    requires
        rs.wf(),
    ensures
        sorted_rows(rs).wf(),
{
    broadcast use vstd::multiset::group_multiset_axioms;

    lemma_row_le_total_ordering();
    rs.rows.lemma_sort_by_ensures(row_le_rel());
    let s = rs.rows.sort_by(row_le_rel());
    s.to_multiset_ensures();
    rs.rows.to_multiset_ensures();
    assert forall|i: int| 0 <= i < s.len() implies (#[trigger] s[i]).len() == rs.columns.len() by {
        assert(s.contains(s[i]));
        assert(s.to_multiset().count(s[i]) > 0);
        assert(rs.rows.contains(s[i]));
        let k = choose|k: int| 0 <= k < rs.rows.len() && rs.rows[k] == s[i];
        assert(rs.rows[k].len() == rs.columns.len());
    }
}

/// Weakly ascending column names.
pub open spec fn columns_name_sorted(cols: Seq<Seq<char>>) -> bool {
    forall|i: int, j: int|
        0 <= i < j < cols.len() ==> chars_le(#[trigger] cols[i], #[trigger] cols[j])
}

/// After `sort_columns`, the column names ascend weakly.
pub proof fn lemma_sorted_columns_names_sorted(rs: ResultSetModel)
    ensures
        columns_name_sorted(sorted_columns(rs).columns),
{
    let cols = rs.columns;
    let n = cols.len();
    let p = col_perm(cols);
    lemma_col_perm_is_perm(cols);
    let c2 = sorted_columns(rs).columns;
    assert forall|i: int, j: int| 0 <= i < j < c2.len() implies chars_le(
        #[trigger] c2[i],
        #[trigger] c2[j],
    ) by {
        assert(col_order(cols)(p[i], p[j]));
        if cols[p[i]] == cols[p[j]] {
            lemma_lex_le_reflexive(cols[p[i]], char_le_rel());
        }
    }
}

/// A result set whose column names already ascend is a fixed point of
/// `sort_columns`.
pub proof fn lemma_sort_columns_of_sorted(rs: ResultSetModel)
    requires
        rs.wf(),
        columns_name_sorted(rs.columns),
    ensures
        sorted_columns(rs) == rs,
{
    let cols = rs.columns;
    let n = cols.len();
    lemma_col_order_total_ordering(cols);
    let ord = col_order(cols);
    assert(sorted_by(ident_seq(n), ord)) by {
        assert forall|i: int, j: int| 0 <= i < j < n implies #[trigger] ord(
            ident_seq(n)[i],
            ident_seq(n)[j],
        ) by {
            assert(chars_le(cols[i], cols[j]));
        }
    }
    ident_seq(n).lemma_sort_by_ensures(ord);
    lemma_sorted_unique(col_perm(cols), ident_seq(n), ord);
    assert(col_perm(cols) == ident_seq(n));
    let rs1 = sorted_columns(rs);
    assert(rs1.columns =~= rs.columns);
    assert(rs1.rows =~= rs.rows) by {
        assert forall|i: int| 0 <= i < rs.rows.len() implies #[trigger] rs1.rows[i]
            == rs.rows[i] by {
            assert(rs.rows[i].len() == n);
            assert(rs1.rows[i] == Seq::new(n, |q: int| rs.rows[i][col_perm(cols)[q]]));
            assert(rs1.rows[i] =~= rs.rows[i]);
        }
    }
}

/// Sorting columns is idempotent.
pub proof fn lemma_sort_columns_idempotent(rs: ResultSetModel)
    requires
        rs.wf(),
    ensures
        sorted_columns(sorted_columns(rs)) == sorted_columns(rs),
{
    lemma_sorted_columns_names_sorted(rs);
    lemma_sort_columns_wf(rs);
    lemma_sort_columns_of_sorted(sorted_columns(rs));
}

/// A result set whose rows are already in order is a fixed point of
/// `sort_rows`.
pub proof fn lemma_sort_rows_of_sorted(rs: ResultSetModel)
    requires
        sorted_by(rs.rows, row_le_rel()),
    ensures
        sorted_rows(rs) == rs,
{
    lemma_row_le_total_ordering();
    rs.rows.lemma_sort_by_ensures(row_le_rel());
    lemma_sorted_unique(rs.rows.sort_by(row_le_rel()), rs.rows, row_le_rel());
}

/// Renumbering columns is idempotent.
pub proof fn lemma_number_columns_idempotent(rs: ResultSetModel)
    ensures
        numbered_columns(numbered_columns(rs)) == numbered_columns(rs),
{
    assert(numbered_columns(numbered_columns(rs)).columns =~= numbered_columns(rs).columns);
}

/// Sorting rows is idempotent.
pub proof fn lemma_sort_rows_idempotent(rs: ResultSetModel)
    ensures
        sorted_rows(sorted_rows(rs)) == sorted_rows(rs),
{
    lemma_row_le_total_ordering();
    rs.rows.lemma_sort_by_ensures(row_le_rel());
    lemma_sort_rows_of_sorted(sorted_rows(rs));
}

/// The pairing of each cell of a row with its column name.
pub open spec fn named_cells(cols: Seq<Seq<char>>, row: Seq<SqlValueModel>) -> Seq<
    (Seq<char>, SqlValueModel),
> {
    Seq::new(cols.len(), |j: int| (cols[j], row[j]))
}

/// Sorting columns preserves, for every row, the multiset of
/// (column name, cell) pairs: only the column order and the per-row cell
/// order change, never which cell belongs to which column.
pub proof fn lemma_sort_columns_preserves_cells(rs: ResultSetModel, i: int)
    requires
        rs.wf(),
        0 <= i < rs.rows.len(),
    ensures
        named_cells(sorted_columns(rs).columns, sorted_columns(rs).rows[i]).to_multiset()
            == named_cells(rs.columns, rs.rows[i]).to_multiset(),
{
    let cols = rs.columns;
    let n = cols.len();
    let p = col_perm(cols);
    lemma_col_perm_is_perm(cols);
    let s = named_cells(cols, rs.rows[i]);
    let t = named_cells(sorted_columns(rs).columns, sorted_columns(rs).rows[i]);
    assert(t =~= p.map_values(|j: int| s[j])) by {
        assert forall|k: int| 0 <= k < n implies t[k] == p.map_values(|j: int| s[j])[k] by {
            assert(t[k] == (cols[p[k]], rs.rows[i][p[k]]));
            assert(s[p[k]] == (cols[p[k]], rs.rows[i][p[k]]));
        }
    }
    crate::order::lemma_index_map_multiset(s, p);
}

/// Sorting rows preserves the multiset of rows.
pub proof fn lemma_sort_rows_preserves_rows(rs: ResultSetModel)
    ensures
        sorted_rows(rs).rows.to_multiset() == rs.rows.to_multiset(),
{
    lemma_row_le_total_ordering();
    rs.rows.lemma_sort_by_ensures(row_le_rel());
}

/// The three in-place normalizations of a result set.
pub trait ResultSetExtension: View<V = ResultSetModel> {
    /// Stable-sorts the columns lexicographically by name and permutes every
    /// row identically, so each cell keeps its column.
    fn sort_columns(&mut self)
        requires
            old(self)@.wf(),
        ensures
            final(self)@ == sorted_columns(old(self)@),
    ;

    /// Replaces each column name by its zero-based position in decimal; rows
    /// are untouched.
    fn number_columns(&mut self)
        ensures
            final(self)@ == numbered_columns(old(self)@),
    ;

    /// Sorts the rows by the total row order; columns are untouched.
    fn sort_rows(&mut self)
        ensures
            final(self)@ == sorted_rows(old(self)@),
    ;
}

impl ResultSetExtension for ResultSet {
    fn sort_columns(&mut self) {
        let ghost rs0 = self@;
        let perm = sort_col_indices(&self.columns);
        let ghost p = col_perm(cols_view(self.columns@));
        let n = self.columns.len();
        let mut new_columns: Vec<String> = Vec::new();
        let mut j: usize = 0;
        while j < n
            invariant
                j <= n,
                n == self.columns@.len(),
                rs0 == self@,
                perm@.len() == n,
                forall|k: int| 0 <= k < n ==> (#[trigger] perm@[k]) < n,
                perm_ints(perm@) == p,
                p == col_perm(cols_view(self.columns@)),
                new_columns@.len() == j,
                forall|k: int|
                    0 <= k < j ==> (#[trigger] new_columns@[k])@ == rs0.columns[p[k]],
            decreases n - j,
        {
            let idx = perm[j];
            new_columns.push(self.columns[idx].clone());
            j += 1;
        }
        let mut new_rows: Vec<Vec<SqlValue>> = Vec::new();
        let mut i: usize = 0;
        while i < self.rows.len()
            invariant
                i <= self.rows@.len(),
                n == self.columns@.len(),
                rs0 == self@,
                rs0.wf(),
                perm@.len() == n,
                forall|k: int| 0 <= k < n ==> (#[trigger] perm@[k]) < n,
                perm_ints(perm@) == p,
                p == col_perm(cols_view(self.columns@)),
                new_rows@.len() == i,
                forall|k: int|
                    0 <= k < i ==> row_view((#[trigger] new_rows@[k])@) == Seq::new(
                        n as nat,
                        |q: int| rs0.rows[k][p[q]],
                    ),
            decreases self.rows@.len() - i,
        {
            let row = &self.rows[i];
            proof {
                assert(rs0.rows[i as int] == row_view(row@));
                assert(row_view(row@).len() == n);
                assert(row@.len() == n);
            }
            let mut new_row: Vec<SqlValue> = Vec::new();
            let mut q: usize = 0;
            while q < n
                invariant
                    q <= n,
                    row@.len() == n,
                    perm@.len() == n,
                    forall|k: int| 0 <= k < n ==> (#[trigger] perm@[k]) < n,
                    new_row@.len() == q,
                    forall|k: int|
                        0 <= k < q ==> (#[trigger] new_row@[k])@ == row@[perm@[k] as int]@,
                decreases n - q,
            {
                new_row.push(row[perm[q]].clone());
                q += 1;
            }
            proof {
                assert(row_view(new_row@) =~= Seq::new(n as nat, |q: int| rs0.rows[i as int][p[q]]))
                    by {
                    assert forall|k: int| 0 <= k < n implies row_view(new_row@)[k]
                        == rs0.rows[i as int][p[k]] by {
                        assert(new_row@[k]@ == row@[perm@[k] as int]@);
                        assert(rs0.rows[i as int][p[k]] == row_view(row@)[p[k]]);
                    }
                }
            }
            new_rows.push(new_row);
            i += 1;
        }
        self.columns = new_columns;
        self.rows = new_rows;
        proof {
            assert(self@.columns =~= sorted_columns(rs0).columns);
            assert(self@.rows =~= sorted_columns(rs0).rows) by {
                assert forall|k: int| 0 <= k < rs0.rows.len() implies rows_view(self.rows@)[k]
                    == sorted_columns(rs0).rows[k] by {
                    assert(rows_view(self.rows@)[k] == row_view(self.rows@[k]@));
                    assert(sorted_columns(rs0).rows[k] == Seq::new(
                        rs0.columns.len(),
                        |q: int| rs0.rows[k][col_perm(rs0.columns)[q]],
                    ));
                    assert(row_view(self.rows@[k]@) =~= Seq::new(
                        rs0.columns.len(),
                        |q: int| rs0.rows[k][col_perm(rs0.columns)[q]],
                    ));
                }
            }
        }
    }

    fn number_columns(&mut self) {
        let ghost rs0 = self@;
        let n = self.columns.len();
        let mut cols: Vec<String> = Vec::new();
        let mut j: usize = 0;
        while j < n
            invariant
                j <= n,
                cols@.len() == j,
                forall|k: int| 0 <= k < j ==> (#[trigger] cols@[k])@ == dec_str(k as nat),
            decreases n - j,
        {
            cols.push(crate::text::u64_to_dec(j as u64));
            j += 1;
        }
        self.columns = cols;
        proof {
            assert(self@.columns =~= numbered_columns(rs0).columns);
        }
    }

    fn sort_rows(&mut self) {
        let ghost rs0 = self@;
        proof {
            lemma_row_le_total_ordering();
        }
        let mut work: Vec<Vec<SqlValue>> = Vec::new();
        core::mem::swap(&mut work, &mut self.rows);
        let mut out: Vec<Vec<SqlValue>> = Vec::new();
        proof {
            broadcast use vstd::multiset::group_multiset_axioms;

            assert(rows_view(out@) =~= Seq::<Seq<SqlValueModel>>::empty());
            rows_view(out@).to_multiset_ensures();
            assert(forall|x: Seq<SqlValueModel>| rows_view(out@).to_multiset().count(x) == 0);
            assert(rows_view(out@).to_multiset().add(rows_view(work@).to_multiset()) =~= rows_view(
                work@,
            ).to_multiset());
            assert(rows_view(work@) == rs0.rows);
        }
        while work.len() > 0
            invariant
                rows_view(out@).to_multiset().add(rows_view(work@).to_multiset())
                    == rs0.rows.to_multiset(),
                sorted_by(rows_view(out@), row_le_rel()),
                forall|i: int, j: int|
                    0 <= i < out@.len() && 0 <= j < work@.len() ==> row_le(
                        row_view((#[trigger] out@[i])@),
                        row_view((#[trigger] work@[j])@),
                    ),
            decreases work@.len(),
        {
            let mut m: usize = 0;
            let mut t: usize = 1;
            proof {
                lemma_row_le_reflexive(row_view(work@[0]@));
            }
            while t < work.len()
                invariant
                    work@.len() > 0,
                    m < work@.len(),
                    t <= work@.len(),
                    forall|j: int|
                        0 <= j < t ==> row_le(
                            row_view(work@[m as int]@),
                            row_view((#[trigger] work@[j])@),
                        ),
                decreases work@.len() - t,
            {
                let ghost m_old = m as int;
                if !row_le_exec(&work[m], &work[t]) {
                    proof {
                        lemma_row_le_connected(
                            row_view(work@[m_old]@),
                            row_view(work@[t as int]@),
                        );
                    }
                    m = t;
                }
                proof {
                    assert forall|j: int| 0 <= j < t + 1 implies row_le(
                        row_view(work@[m as int]@),
                        row_view(work@[j]@),
                    ) by {
                        if j < t {
                            if m_old != m as int {
                                lemma_row_le_transitive(
                                    row_view(work@[m as int]@),
                                    row_view(work@[m_old]@),
                                    row_view(work@[j]@),
                                );
                            }
                        } else {
                            if m_old == m as int {
                                assert(row_le(row_view(work@[m_old]@), row_view(work@[t as int]@)));
                            } else {
                                lemma_row_le_reflexive(row_view(work@[m as int]@));
                            }
                        }
                    }
                }
                t += 1;
            }
            let ghost old_work = work@;
            let ghost old_out = out@;
            let chosen = work.remove(m);
            out.push(chosen);
            proof {
                broadcast use vstd::multiset::group_multiset_axioms;

                let f = |r: Vec<SqlValue>| row_view(r@);
                lemma_map_values_remove(old_work, f, m as int);
                lemma_map_values_push(old_out, f, chosen);
                rows_view(old_work).to_multiset_ensures();
                rows_view(old_out).to_multiset_ensures();
                assert(rows_view(work@) =~= rows_view(old_work).remove(m as int));
                assert(rows_view(out@) =~= rows_view(old_out).push(row_view(chosen@)));
                assert(rows_view(old_work)[m as int] == row_view(chosen@));
                assert(rows_view(old_work).remove(m as int).to_multiset() =~= rows_view(
                    old_work,
                ).to_multiset().remove(row_view(chosen@)));
                assert(rows_view(old_out).push(row_view(chosen@)).to_multiset() =~= rows_view(
                    old_out,
                ).to_multiset().insert(row_view(chosen@)));
                assert(rows_view(out@).to_multiset().add(rows_view(work@).to_multiset())
                    =~= rows_view(old_out).to_multiset().add(rows_view(old_work).to_multiset()));
                assert forall|i: int, j: int|
                    0 <= i < out@.len() && 0 <= j < work@.len() implies row_le(
                    row_view((#[trigger] out@[i])@),
                    row_view((#[trigger] work@[j])@),
                ) by {
                    assert(work@[j] == old_work[if j < m { j } else { j + 1 }]);
                    if i < old_out.len() {
                        assert(out@[i] == old_out[i]);
                    } else {
                        assert(out@[i] == chosen);
                        assert(row_le(row_view(chosen@), row_view(work@[j]@)));
                    }
                }
                assert(sorted_by(rows_view(out@), row_le_rel())) by {
                    assert forall|i: int, j: int|
                        0 <= i < j < rows_view(out@).len() implies row_le_rel()(
                        rows_view(out@)[i],
                        rows_view(out@)[j],
                    ) by {
                        if j < old_out.len() {
                            assert(row_le_rel()(rows_view(old_out)[i], rows_view(old_out)[j]));
                        } else {
                            assert(out@[j] == chosen);
                            assert(row_le(
                                row_view(old_out[i]@),
                                row_view(old_work[m as int]@),
                            ));
                        }
                    }
                }
            }
        }
        self.rows = out;
        proof {
            broadcast use vstd::multiset::group_multiset_axioms;

            assert(rows_view(self.rows@).to_multiset() == rs0.rows.to_multiset()) by {
                assert(rows_view(work@) =~= Seq::<Seq<SqlValueModel>>::empty());
                rows_view(work@).to_multiset_ensures();
                assert(forall|x: Seq<SqlValueModel>| rows_view(work@).to_multiset().count(x) == 0);
                assert(rows_view(out@).to_multiset().add(rows_view(work@).to_multiset())
                    =~= rows_view(out@).to_multiset());
            }
            rs0.rows.lemma_sort_by_ensures(row_le_rel());
            lemma_sorted_unique(rows_view(self.rows@), rs0.rows.sort_by(row_le_rel()), row_le_rel());
            assert(self@.rows == sorted_rows(rs0).rows);
            assert(self@.columns == rs0.columns);
        }
    }
}

} // verus!
