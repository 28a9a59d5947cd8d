use vstd::prelude::*;
use vstd::string::StringExecFns;

use crate::record::{models, LogRecord, RecordModel};
use crate::timestamp::Timestamp;

verus! {

/// One positional parameter of a statement: a text column value, or an
/// instant for the timestamp column.
#[derive(Clone, Debug, PartialEq, Eq)]
pub enum SqlParam {
    Text(String),
    Time(Timestamp),
}

/// The model of a parameter.
pub enum ParamModel {
    Text(Seq<char>),
    Time((i64, u32)),
}

impl View for SqlParam {
    type V = ParamModel;

    open spec fn view(&self) -> ParamModel {
        match self {
            SqlParam::Text(s) => ParamModel::Text(s@),
            SqlParam::Time(t) => ParamModel::Time(t@),
        }
    }
}

/// The models of a parameter list, in order.
pub open spec fn params_model(ps: Seq<SqlParam>) -> Seq<ParamModel> {
    ps.map_values(|p: SqlParam| p@)
}

/// One rendered multi-row insert: the SQL text with positional
/// placeholders, and the values to bind, in placeholder order.
#[derive(Clone, Debug, PartialEq, Eq)]
pub struct InsertStatement {
    pub sql: String,
    pub params: Vec<SqlParam>,
}

/// The three parameters one record binds, in column order: pod name,
/// message, instant.
pub open spec fn row_params(r: RecordModel) -> Seq<ParamModel> {
    seq![
        ParamModel::Text(r.pod_name),
        ParamModel::Text(r.message),
        ParamModel::Time(r.created_at),
    ]
}

/// All parameters of a batch: three per record, in record order.
pub open spec fn flat_params(rs: Seq<RecordModel>) -> Seq<ParamModel>
    decreases rs.len(),
{
    if rs.len() == 0 {
        Seq::empty()
    } else {
        flat_params(rs.drop_last()) + row_params(rs.last())
    }
}

/// A batch of `k` records binds exactly `3 k` parameters.
pub proof fn lemma_flat_params_len(rs: Seq<RecordModel>)
    ensures
        flat_params(rs).len() == 3 * rs.len(),
    decreases rs.len(),
{
    if rs.len() > 0 {
        lemma_flat_params_len(rs.drop_last());
    }
}

/// Record `i` of a batch binds placeholders `3 i + 1`, `3 i + 2` and
/// `3 i + 3`: its fields stand at positions `3 i` through `3 i + 2` of
/// the parameter list, in the order pod name, message, instant — no
/// renumbering and no gaps.
pub proof fn lemma_param_positions(rs: Seq<RecordModel>, i: int)
    requires
        0 <= i < rs.len(),
    ensures
        flat_params(rs).len() == 3 * rs.len(),
        flat_params(rs)[3 * i] == ParamModel::Text(rs[i].pod_name),
        flat_params(rs)[3 * i + 1] == ParamModel::Text(rs[i].message),
        flat_params(rs)[3 * i + 2] == ParamModel::Time(rs[i].created_at),
    decreases rs.len(),
{
    lemma_flat_params_len(rs);
    lemma_flat_params_len(rs.drop_last());
    if i < rs.len() - 1 {
        lemma_param_positions(rs.drop_last(), i);
    }
}

/// The character of one decimal digit.
pub open spec fn digit_char(d: nat) -> char
    recommends
        d < 10,
{
    if d == 0 {
        '0'
    } else if d == 1 {
        '1'
    } else if d == 2 {
        '2'
    } else if d == 3 {
        '3'
    } else if d == 4 {
        '4'
    } else if d == 5 {
        '5'
    } else if d == 6 {
        '6'
    } else if d == 7 {
        '7'
    } else if d == 8 {
        '8'
    } else {
        '9'
    }
}

/// The decimal rendering of `n`, most significant digit first, without
/// leading zeroes (a single `0` for zero).
pub open spec fn dec_digits(n: nat) -> Seq<char>
    decreases n,
{
    if n < 10 {
        seq![digit_char(n)]
    } else {
        dec_digits(n / 10).push(digit_char(n % 10))
    }
}

/// The placeholder group of row `i` (0-indexed): `($a,$b,$c)` with
/// `a = 3 i + 1`, `b = 3 i + 2`, `c = 3 i + 3`.
pub open spec fn row_placeholder(i: nat) -> Seq<char> {
    "($"@ + dec_digits(3 * i + 1) + ",$"@ + dec_digits(3 * i + 2) + ",$"@ + dec_digits(3 * i + 3)
        + ")"@
}

/// The placeholder groups of `k` rows, comma-separated, in row order.
pub open spec fn placeholders(k: nat) -> Seq<char>
    decreases k,
{
    if k == 0 {
        Seq::empty()
    } else if k == 1 {
        row_placeholder(0)
    } else {
        placeholders((k - 1) as nat) + ","@ + row_placeholder((k - 1) as nat)
    }
}

/// The statement text binding `k` rows.
pub open spec fn insert_sql(k: nat) -> Seq<char> {
    "insert into sematext_logs(pod_name, message, created_at) values "@ + placeholders(k)
}

/// The statement renders the batch: its text is the insert for the
/// batch's size, and its parameters are the batch's, in placeholder
/// order.
pub open spec fn renders(s: InsertStatement, rs: Seq<RecordModel>) -> bool {
    &&& s.sql@ == insert_sql(rs.len())
    &&& params_model(s.params@) == flat_params(rs)
}

/// The one-character text of a decimal digit.
fn digit_str(d: u64) -> (r: &'static str)
    requires
        d < 10,
    ensures
        r@ == seq![digit_char(d as nat)],
{
    let r: &'static str = if d == 0 {
        "0"
    } else if d == 1 {
        "1"
    } else if d == 2 {
        "2"
    } else if d == 3 {
        "3"
    } else if d == 4 {
        "4"
    } else if d == 5 {
        "5"
    } else if d == 6 {
        "6"
    } else if d == 7 {
        "7"
    } else if d == 8 {
        "8"
    } else {
        "9"
    };
    proof {
        reveal_strlit("0");
        reveal_strlit("1");
        reveal_strlit("2");
        reveal_strlit("3");
        reveal_strlit("4");
        reveal_strlit("5");
        reveal_strlit("6");
        reveal_strlit("7");
        reveal_strlit("8");
        reveal_strlit("9");
        assert(r@ =~= seq![digit_char(d as nat)]);
    }
    r
}

/// The decimal rendering of `n`.
fn dec_string(n: u64) -> (r: String)
    ensures
        r@ == dec_digits(n as nat),
    decreases n,
{
    if n < 10 {
        let mut s = String::new();
        s.append(digit_str(n));
        proof {
            assert(s@ =~= dec_digits(n as nat));
        }
        s
    } else {
        let mut s = dec_string(n / 10);
        s.append(digit_str(n % 10));
        proof {
            assert(s@ =~= dec_digits(n as nat));
        }
        s
    }
}

/// Render a batch as one multi-row parameterized insert. The batch must
/// not be empty (a zero-row insert would be malformed text; flushing an
/// empty buffer never reaches this point).
pub fn build_statement(records: &Vec<LogRecord>) -> (r: InsertStatement)
    requires
        records@.len() >= 1,
        records@.len() * 3 + 3 <= u64::MAX,
    ensures
        renders(r, models(records@)),
{
    let ghost rs = models(records@);
    let n = records.len();
    let mut sql = String::from_str(
        "insert into sematext_logs(pod_name, message, created_at) values ",
    );
    let mut params: Vec<SqlParam> = Vec::new();
    proof {
        assert(placeholders(0) =~= Seq::<char>::empty());
        assert(sql@ =~= insert_sql(0));
        assert(rs.take(0) =~= Seq::<RecordModel>::empty());
        assert(params_model(params@) =~= flat_params(rs.take(0)));
    }
    let mut i: usize = 0;
    while i < n
        invariant
            n == records@.len(),
            i <= n,
            rs == models(records@),
            rs.len() == n,
            n * 3 + 3 <= u64::MAX,
            sql@ == insert_sql(i as nat),
            params_model(params@) == flat_params(rs.take(i as int)),
        decreases n - i,
    {
        if i > 0 {
            sql.append(",");
        }
        sql.append("($");
        let a = dec_string(3 * (i as u64) + 1);
        sql.append(a.as_str());
        sql.append(",$");
        let b = dec_string(3 * (i as u64) + 2);
        sql.append(b.as_str());
        sql.append(",$");
        let c = dec_string(3 * (i as u64) + 3);
        sql.append(c.as_str());
        sql.append(")");
        let rec = &records[i];
        params.push(SqlParam::Text(rec.pod_name.clone()));
        params.push(SqlParam::Text(rec.message.clone()));
        params.push(SqlParam::Time(rec.created_at));
        proof {
            assert(rs[i as int] == records@[i as int]@);
            assert(sql@ =~= insert_sql((i + 1) as nat));
            assert(rs.take(i as int + 1).drop_last() =~= rs.take(i as int));
            assert(rs.take(i as int + 1).last() == rs[i as int]);
            assert(params_model(params@) =~= flat_params(rs.take(i as int + 1)));
        }
        i = i + 1;
    }
    proof {
        assert(rs.take(n as int) =~= rs);
    }
    InsertStatement { sql, params }
}

} // verus!
