use vstd::prelude::*;

verus! {

use vstd::relations::total_ordering;
use crate::order::{
    lex_le, lemma_lex_le_antisymmetric, lemma_lex_le_common_prefix, lemma_lex_le_reflexive,
    lemma_lex_le_strongly_connected, lemma_lex_le_transitive,
};

/// Mathematical model of a scalar SQL value. The `Float` case carries the
/// IEEE 754 bit pattern of the 64-bit float payload; the `Text` case the
/// character sequence of the string payload.
pub enum SqlValueModel {
    Bool(bool),
    Int(int),
    Float(u64),
    Text(Seq<char>),
}

/// A tagged scalar cell of a result set. Exactly four cases; the `Float`
/// case holds the IEEE 754 bit pattern of a 64-bit float, so that equality
/// and ordering over cells are defined bit-exactly here, while reading and
/// printing the numeric payload is left to unverified callers.
#[derive(Debug, PartialEq)]
pub enum SqlValue {
    Bool(bool),
    Int(i64),
    Float(u64),
    Text(String),
}

impl View for SqlValue {
    type V = SqlValueModel;

    open spec fn view(&self) -> SqlValueModel {
        match self {
            SqlValue::Bool(b) => SqlValueModel::Bool(*b),
            SqlValue::Int(i) => SqlValueModel::Int(*i as int),
            SqlValue::Float(bits) => SqlValueModel::Float(*bits),
            SqlValue::Text(s) => SqlValueModel::Text(s@),
        }
    }
}

impl Clone for SqlValue {
    fn clone(&self) -> (res: Self)
        ensures
            res@ == self@,
    {
        match self {
            SqlValue::Bool(b) => SqlValue::Bool(*b),
            SqlValue::Int(i) => SqlValue::Int(*i),
            SqlValue::Float(bits) => SqlValue::Float(*bits),
            SqlValue::Text(s) => SqlValue::Text(s.clone()),
        }
    }
}

/// The view of a sequence of cells, cell by cell.
pub open spec fn row_view(r: Seq<SqlValue>) -> Seq<SqlValueModel> {
    r.map_values(|v: SqlValue| v@)
}

/// An IEEE 754 64-bit NaN: all exponent bits set and a non-zero fraction.
pub open spec fn float_is_nan(bits: u64) -> bool {
    bits & 0x7ff0_0000_0000_0000 == 0x7ff0_0000_0000_0000 && bits & 0x000f_ffff_ffff_ffff != 0
}

/// An IEEE 754 64-bit zero of either sign.
pub open spec fn float_is_zero(bits: u64) -> bool {
    bits & 0x7fff_ffff_ffff_ffff == 0
}

/// IEEE 754 equality on 64-bit floats, expressed on bit patterns: NaN is
/// equal to nothing (itself included), the two zeroes are equal to each
/// other, and every other value only to its own bit pattern.
pub open spec fn float_eq_bits(a: u64, b: u64) -> bool {
    &&& !float_is_nan(a)
    &&& !float_is_nan(b)
    &&& (a == b || (float_is_zero(a) && float_is_zero(b)))
}

/// Equality of cells as the comparator uses it: payload equality within a
/// variant — IEEE equality for floats — and inequality across variants.
pub open spec fn value_eq(a: SqlValueModel, b: SqlValueModel) -> bool {
    match (a, b) {
        (SqlValueModel::Bool(x), SqlValueModel::Bool(y)) => x == y,
        (SqlValueModel::Int(x), SqlValueModel::Int(y)) => x == y,
        (SqlValueModel::Float(x), SqlValueModel::Float(y)) => float_eq_bits(x, y),
        (SqlValueModel::Text(x), SqlValueModel::Text(y)) => x == y,
        _ => false,
    }
}

/// Order-preserving injection of IEEE 754 bit patterns into the unsigned
/// integers: negatives (sign bit set) are mapped, reversed, below the
/// non-negatives, so that the induced order matches the IEEE order on
/// ordinary values and gives NaN payloads fixed places at the extremes.
pub open spec fn float_sort_key(bits: u64) -> u64 {
    if bits >= 0x8000_0000_0000_0000 {
        (0xffff_ffff_ffff_ffff - bits) as u64
    } else {
        (bits + 0x8000_0000_0000_0000) as u64
    }
}

/// Variant rank used as the synthetic cross-variant tie-break of the row
/// order: Bool before Int before Float before Text.
pub open spec fn value_rank(a: SqlValueModel) -> int {
    match a {
        SqlValueModel::Bool(_) => 0,
        SqlValueModel::Int(_) => 1,
        SqlValueModel::Float(_) => 2,
        SqlValueModel::Text(_) => 3,
    }
}

pub open spec fn char_le(a: char, b: char) -> bool {
    (a as int) <= (b as int)
}

pub open spec fn char_le_rel() -> spec_fn(char, char) -> bool {
    |a: char, b: char| char_le(a, b)
}

/// Lexicographic order on strings by character value.
pub open spec fn chars_le(a: Seq<char>, b: Seq<char>) -> bool {
    lex_le(a, b, char_le_rel())
}

/// Strictly-before on strings.
pub open spec fn chars_lt(a: Seq<char>, b: Seq<char>) -> bool {
    chars_le(a, b) && a != b
}

/// The total order on cells used by `sort_rows`: variant rank first, then
/// the natural payload order within a variant.
pub open spec fn value_le(a: SqlValueModel, b: SqlValueModel) -> bool {
    if value_rank(a) != value_rank(b) {
        value_rank(a) < value_rank(b)
    } else {
        match (a, b) {
            (SqlValueModel::Bool(x), SqlValueModel::Bool(y)) => !x || y,
            (SqlValueModel::Int(x), SqlValueModel::Int(y)) => x <= y,
            (SqlValueModel::Float(x), SqlValueModel::Float(y)) => float_sort_key(x)
                <= float_sort_key(y),
            (SqlValueModel::Text(x), SqlValueModel::Text(y)) => chars_le(x, y),
            _ => true,
        }
    }
}

pub open spec fn value_le_rel() -> spec_fn(SqlValueModel, SqlValueModel) -> bool {
    |a: SqlValueModel, b: SqlValueModel| value_le(a, b)
}

/// The row order of `sort_rows`: lexicographic comparison of the cell
/// sequences under the cell order.
pub open spec fn row_le(a: Seq<SqlValueModel>, b: Seq<SqlValueModel>) -> bool {
    lex_le(a, b, value_le_rel())
}

pub open spec fn row_le_rel() -> spec_fn(Seq<SqlValueModel>, Seq<SqlValueModel>) -> bool {
    |a: Seq<SqlValueModel>, b: Seq<SqlValueModel>| row_le(a, b)
}

pub proof fn lemma_char_le_total_ordering()
    ensures
        total_ordering(char_le_rel()),
{
}

/// The float sort key is injective, so key order is antisymmetric.
pub proof fn lemma_float_sort_key_injective(a: u64, b: u64)
    requires
        float_sort_key(a) == float_sort_key(b),
    ensures
        a == b,
{
}

/// The cell order is a total order.
pub proof fn lemma_value_le_total_ordering()
    ensures
        total_ordering(value_le_rel()),
{
    let g = value_le_rel();
    assert forall|a: SqlValueModel| #[trigger] g(a, a) by {
        if let SqlValueModel::Text(x) = a {
            lemma_lex_le_reflexive(x, char_le_rel());
        }
    }
    assert forall|a: SqlValueModel, b: SqlValueModel|
        #[trigger] g(a, b) && #[trigger] g(b, a) implies a == b by {
        match (a, b) {
            (SqlValueModel::Text(x), SqlValueModel::Text(y)) => {
                lemma_lex_le_antisymmetric(x, y, char_le_rel());
            },
            (SqlValueModel::Float(x), SqlValueModel::Float(y)) => {
                lemma_float_sort_key_injective(x, y);
            },
            _ => {},
        }
    }
    assert forall|a: SqlValueModel, b: SqlValueModel, c: SqlValueModel|
        #[trigger] g(a, b) && #[trigger] g(b, c) implies g(a, c) by {
        match (a, b, c) {
            (SqlValueModel::Text(x), SqlValueModel::Text(y), SqlValueModel::Text(z)) => {
                lemma_lex_le_transitive(x, y, z, char_le_rel());
            },
            _ => {},
        }
    }
    assert forall|a: SqlValueModel, b: SqlValueModel| #[trigger] g(a, b) || #[trigger] g(b, a) by {
        match (a, b) {
            (SqlValueModel::Text(x), SqlValueModel::Text(y)) => {
                lemma_lex_le_strongly_connected(x, y, char_le_rel());
            },
            _ => {},
        }
    }
}

/// Executable form of `float_sort_key`.
pub fn float_key(bits: u64) -> (r: u64)
    ensures
        r == float_sort_key(bits),
{
    if bits >= 0x8000_0000_0000_0000 {
        0xffff_ffff_ffff_ffff - bits
    } else {
        bits + 0x8000_0000_0000_0000
    }
}

/// Executable form of `float_eq_bits`.
pub fn float_equal(a: u64, b: u64) -> (r: bool)
    ensures
        r == float_eq_bits(a, b),
{
    let a_nan = a & 0x7ff0_0000_0000_0000 == 0x7ff0_0000_0000_0000 && a & 0x000f_ffff_ffff_ffff
        != 0;
    let b_nan = b & 0x7ff0_0000_0000_0000 == 0x7ff0_0000_0000_0000 && b & 0x000f_ffff_ffff_ffff
        != 0;
    !a_nan && !b_nan && (a == b || (a & 0x7fff_ffff_ffff_ffff == 0 && b & 0x7fff_ffff_ffff_ffff
        == 0))
}

/// Character-for-character equality of two strings.
pub fn str_equal(a: &str, b: &str) -> (r: bool)
    ensures
        r == (a@ == b@),
{
    let alen = a.unicode_len();
    let blen = b.unicode_len();
    if alen != blen {
        return false;
    }
    let mut i: usize = 0;
    while i < alen
        invariant
            i <= alen,
            alen == a@.len(),
            alen == b@.len(),
            forall|k: int| 0 <= k < i ==> a@[k] == b@[k],
        decreases alen - i,
    {
        if a.get_char(i) != b.get_char(i) {
            return false;
        }
        i += 1;
    }
    proof {
        assert(a@ =~= b@);
    }
    true
}

/// Decides the lexicographic string order `chars_le`.
pub fn str_le(a: &str, b: &str) -> (r: bool)
    ensures
        r == chars_le(a@, b@),
{
    let alen = a.unicode_len();
    let blen = b.unicode_len();
    let mut i: usize = 0;
    loop
        invariant
            i <= alen,
            i <= blen,
            alen == a@.len(),
            blen == b@.len(),
            forall|k: int| 0 <= k < i ==> a@[k] == b@[k],
        decreases alen - i,
    {
        proof {
            lemma_lex_le_common_prefix(a@, b@, char_le_rel(), i as int);
        }
        if i == alen {
            return true;
        }
        if i == blen {
            return false;
        }
        let ca = a.get_char(i);
        let cb = b.get_char(i);
        if ca != cb {
            return ca <= cb;
        }
        i += 1;
    }
}

impl SqlValue {
    /// Structural equality of two cells: same variant, identical payload
    /// (floats by bit pattern).
    pub fn same_as(&self, other: &SqlValue) -> (r: bool)
        ensures
            r == (self@ == other@),
    {
        match (self, other) {
            (SqlValue::Bool(x), SqlValue::Bool(y)) => x == y,
            (SqlValue::Int(x), SqlValue::Int(y)) => x == y,
            (SqlValue::Float(x), SqlValue::Float(y)) => x == y,
            (SqlValue::Text(x), SqlValue::Text(y)) => str_equal(x.as_str(), y.as_str()),
            _ => false,
        }
    }

    /// Decides `value_eq`: equality as the comparator sees it, with IEEE
    /// semantics on float payloads.
    pub fn equal_cell(&self, other: &SqlValue) -> (r: bool)
        ensures
            r == value_eq(self@, other@),
    {
        match (self, other) {
            (SqlValue::Bool(x), SqlValue::Bool(y)) => x == y,
            (SqlValue::Int(x), SqlValue::Int(y)) => x == y,
            (SqlValue::Float(x), SqlValue::Float(y)) => float_equal(*x, *y),
            (SqlValue::Text(x), SqlValue::Text(y)) => str_equal(x.as_str(), y.as_str()),
            _ => false,
        }
    }

    /// Decides the cell order `value_le`.
    pub fn le_cell(&self, other: &SqlValue) -> (r: bool)
        ensures
            r == value_le(self@, other@),
    {
        match (self, other) {
            (SqlValue::Bool(x), SqlValue::Bool(y)) => !*x || *y,
            (SqlValue::Int(x), SqlValue::Int(y)) => x <= y,
            (SqlValue::Float(x), SqlValue::Float(y)) => float_key(*x) <= float_key(*y),
            (SqlValue::Text(x), SqlValue::Text(y)) => str_le(x.as_str(), y.as_str()),
            (x, y) => x.rank_cell() < y.rank_cell(),
        }
    }

    /// Executable form of `value_rank`.
    pub fn rank_cell(&self) -> (r: u8)
        ensures
            r as int == value_rank(self@),
    {
        match self {
            SqlValue::Bool(_) => 0,
            SqlValue::Int(_) => 1,
            SqlValue::Float(_) => 2,
            SqlValue::Text(_) => 3,
        }
    }
}

/// Decides the row order `row_le` on two cell vectors.
pub fn row_le_exec(a: &Vec<SqlValue>, b: &Vec<SqlValue>) -> (r: bool)
    ensures
        r == row_le(row_view(a@), row_view(b@)),
{
    let alen = a.len();
    let blen = b.len();
    let mut i: usize = 0;
    loop
        invariant
            i <= alen,
            i <= blen,
            alen == a@.len(),
            blen == b@.len(),
            forall|k: int| 0 <= k < i ==> row_view(a@)[k] == row_view(b@)[k],
        decreases alen - i,
    {
        proof {
            lemma_lex_le_common_prefix(row_view(a@), row_view(b@), value_le_rel(), i as int);
        }
        if i == alen {
            return true;
        }
        if i == blen {
            return false;
        }
        if !a[i].same_as(&b[i]) {
            proof {
                assert(row_view(a@)[i as int] == a@[i as int]@);
                assert(row_view(b@)[i as int] == b@[i as int]@);
            }
            return a[i].le_cell(&b[i]);
        }
        proof {
            assert(row_view(a@)[i as int] == a@[i as int]@);
            assert(row_view(b@)[i as int] == b@[i as int]@);
        }
        i += 1;
    }
}

pub proof fn lemma_row_le_reflexive(a: Seq<SqlValueModel>)
    ensures
        row_le(a, a),
{
    lemma_lex_le_reflexive(a, value_le_rel());
}

pub proof fn lemma_row_le_transitive(
    a: Seq<SqlValueModel>,
    b: Seq<SqlValueModel>,
    c: Seq<SqlValueModel>,
)
    requires
        row_le(a, b),
        row_le(b, c),
    ensures
        row_le(a, c),
{
    lemma_value_le_total_ordering();
    lemma_lex_le_transitive(a, b, c, value_le_rel());
}

pub proof fn lemma_row_le_connected(a: Seq<SqlValueModel>, b: Seq<SqlValueModel>)
    ensures
        row_le(a, b) || row_le(b, a),
{
    lemma_value_le_total_ordering();
    lemma_lex_le_strongly_connected(a, b, value_le_rel());
}

/// The row order is a total order.
pub proof fn lemma_row_le_total_ordering()
    ensures
        total_ordering(row_le_rel()),
{
    lemma_value_le_total_ordering();
    let le = value_le_rel();
    let g = row_le_rel();
    assert forall|a: Seq<SqlValueModel>| #[trigger] g(a, a) by {
        lemma_lex_le_reflexive(a, le);
    }
    assert forall|a: Seq<SqlValueModel>, b: Seq<SqlValueModel>|
        #[trigger] g(a, b) && #[trigger] g(b, a) implies a == b by {
        lemma_lex_le_antisymmetric(a, b, le);
    }
    assert forall|a: Seq<SqlValueModel>, b: Seq<SqlValueModel>, c: Seq<SqlValueModel>|
        #[trigger] g(a, b) && #[trigger] g(b, c) implies g(a, c) by {
        lemma_lex_le_transitive(a, b, c, le);
    }
    assert forall|a: Seq<SqlValueModel>, b: Seq<SqlValueModel>|
        #[trigger] g(a, b) || #[trigger] g(b, a) by {
        lemma_lex_le_strongly_connected(a, b, le);
    }
}

} // verus!
