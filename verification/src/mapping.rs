//! The column-keyed sample structure a capture or an ingestion produces.
//!
//! A capture hands back a row-major matrix (rows are channels, columns are
//! time-ordered samples); CSV ingestion hands back parsed fields row by row.
//! Both are reshaped here into a mapping from a stable channel key, derived
//! from the row index, to an ordered sequence of samples. The sample type is
//! a parameter: the logic rules only over order and shape, never over the
//! values themselves.

use vstd::prelude::*;
use vstd::string::StringExecFns;

use crate::decimal::spec_decimal;
use crate::decimal::decimal_string;
use crate::decimal::lemma_decimal_injective;

verus! {

/// CSV ingestion reads at most this many fields of each row.
pub const COLUMN_CAP: usize = 32;

/// Malformed numeric text was met during ingestion; no partial mapping is
/// ever handed out.
#[derive(Clone, Copy, Debug, PartialEq, Eq, Structural)]
pub struct ParseError;

/// The textual key of one channel row: the letter `c` followed by the row
/// index in decimal.
pub open spec fn spec_channel_key(i: nat) -> Seq<char> {
    seq!['c'] + spec_decimal(i)
}

/// Every sequence of `s` has length `n`.
pub open spec fn spec_uniform<T>(s: Seq<Seq<T>>, n: nat) -> bool {
    forall|i: int| 0 <= i < s.len() ==> s[i].len() == n
}

/// Mapping from channel key to the ordered samples of that channel. Keys are
/// implicit in the order: entry `i` is keyed `c<i>`.
#[derive(Debug)]
pub struct SampleMapping<T> {
    columns: Vec<Vec<T>>,
}

impl<T> View for SampleMapping<T> {
    type V = Seq<Seq<T>>;

    closed spec fn view(&self) -> Seq<Seq<T>> {
        self.columns@.map_values(|c: Vec<T>| c@)
    }
}

impl<T> SampleMapping<T> {
    /// Reshapes a captured row-major matrix: channel row `i` of the matrix
    /// becomes the sequence keyed `c<i>`, with row order and sample order
    /// preserved and nothing added or dropped.
    pub fn from_matrix(rows: Vec<Vec<T>>) -> (m: SampleMapping<T>)
        ensures
            m@ == rows@.map_values(|r: Vec<T>| r@),
            m@.len() == rows@.len(),
            forall|i: int| 0 <= i < rows@.len() ==> m@[i] == rows@[i]@,
    {
        let m = SampleMapping { columns: rows };
        proof {
            assert(m@ =~= m.columns@.map_values(|c: Vec<T>| c@));
        }
        m
    }

    /// How many channels the mapping holds: exactly one per channel row.
    pub fn channel_count(&self) -> (n: usize)
        ensures
            n == self@.len(),
    {
        self.columns.len()
    }

    /// The samples of one channel, in captured order.
    pub fn samples_of(&self, i: usize) -> (v: &Vec<T>)
        requires
            i < self@.len(),
        ensures
            v@ == self@[i as int],
    {
        &self.columns[i]
    }

    /// The key of channel `i`.
    pub fn key_of(i: usize) -> (k: String)
        ensures
            k@ == spec_channel_key(i as nat),
    {
        proof {
            reveal_strlit("c");
        }
        let mut k = String::from_str("c");
        let digits = decimal_string(i);
        k.append(digits.as_str());
        proof {
            assert(k@ =~= spec_channel_key(i as nat));
        }
        k
    }
}

/// Channel keys are injective: two different row indices never render to the
/// same key, so the mapping has exactly one key per channel row.
pub proof fn lemma_channel_key_injective(a: nat, b: nat)
    requires
        spec_channel_key(a) == spec_channel_key(b),
    ensures
        a == b,
{
    assert(spec_channel_key(a).skip(1) =~= spec_decimal(a));
    assert(spec_channel_key(b).skip(1) =~= spec_decimal(b));
    lemma_decimal_injective(a, b);
}

/// Row `row` carries a malformed field among those ingestion reads.
pub open spec fn spec_row_bad<T>(row: Seq<Option<T>>, cap: nat) -> bool {
    exists|j: int| 0 <= j < row.len() && j < cap && row[j] is None
}

/// Some row carries a malformed field among those ingestion reads.
pub open spec fn spec_any_bad<T>(rows: Seq<Seq<Option<T>>>, cap: nat) -> bool {
    exists|i: int| 0 <= i < rows.len() && spec_row_bad(rows[i], cap)
}

/// How many columns ingestion produces: the widest row, capped.
pub open spec fn spec_width<T>(rows: Seq<Seq<Option<T>>>, cap: nat) -> nat
    decreases rows.len(),
{
    if rows.len() == 0 {
        0
    } else {
        let rest = spec_width(rows.drop_last(), cap);
        let last = if rows.last().len() > cap {
            cap
        } else {
            rows.last().len()
        };
        if last > rest {
            last
        } else {
            rest
        }
    }
}

/// Column `j` of the ingested mapping: the `j`-th field of every row wide
/// enough to have one, in row order.
pub open spec fn spec_column<T>(rows: Seq<Seq<Option<T>>>, j: int) -> Seq<T>
    decreases rows.len(),
{
    if rows.len() == 0 {
        Seq::empty()
    } else {
        let rest = spec_column(rows.drop_last(), j);
        if 0 <= j < rows.last().len() {
            rest + seq![rows.last()[j].unwrap()]
        } else {
            rest
        }
    }
}

proof fn lemma_width_le_cap<T>(rows: Seq<Seq<Option<T>>>, cap: nat)
    ensures
        spec_width(rows, cap) <= cap,
    decreases rows.len(),
{
    if rows.len() > 0 {
        lemma_width_le_cap(rows.drop_last(), cap);
    }
}

/// Builds the column-keyed mapping out of parsed CSV fields: `rows[i][j]` is
/// the `j`-th field of row `i`, already parsed, with `None` standing for
/// malformed numeric text. At most `COLUMN_CAP` fields of each row are read.
/// A malformed field anywhere among those aborts ingestion with `ParseError`
/// and no partial mapping is returned; otherwise column `j` collects the
/// `j`-th field of every row wide enough to have one, in row order.
pub fn ingest_records<T: Copy>(rows: &Vec<Vec<Option<T>>>) -> (r: Result<
    SampleMapping<T>,
    ParseError,
>)
    ensures
        r is Err <==> spec_any_bad(rows@.map_values(|v: Vec<Option<T>>| v@), COLUMN_CAP as nat),
        r matches Ok(m) ==> {
            let rs = rows@.map_values(|v: Vec<Option<T>>| v@);
            &&& m@.len() == spec_width(rs, COLUMN_CAP as nat)
            &&& forall|j: int| 0 <= j < m@.len() ==> m@[j] == spec_column(rs, j)
        },
{
    let ghost rs = rows@.map_values(|v: Vec<Option<T>>| v@);
    let mut width: usize = 0;
    for i in 0..rows.len()
        invariant
            rs == rows@.map_values(|v: Vec<Option<T>>| v@),
            rs.len() == rows@.len(),
            forall|k: int| 0 <= k < i ==> !spec_row_bad(rs[k], COLUMN_CAP as nat),
            width == spec_width(rs.take(i as int), COLUMN_CAP as nat),
    {
        let row = &rows[i];
        let w = if row.len() > COLUMN_CAP {
            COLUMN_CAP
        } else {
            row.len()
        };
        for j in 0..w
            invariant
                rs == rows@.map_values(|v: Vec<Option<T>>| v@),
                rs.len() == rows@.len(),
                i < rows@.len(),
                row == rows@[i as int],
                w <= row@.len(),
                w <= COLUMN_CAP,
                forall|k: int| 0 <= k < j ==> rs[i as int][k] is Some,
        {
            if row[j].is_none() {
                proof {
                    assert(spec_row_bad(rs[i as int], COLUMN_CAP as nat));
                    assert(spec_any_bad(rs, COLUMN_CAP as nat));
                }
                return Err(ParseError);
            }
        }
        proof {
            let ghost ri = rs[i as int];
            assert forall|k: int| 0 <= k < ri.len() && k < COLUMN_CAP as nat implies ri[k]
                is Some by {
                assert(k < w);
            }
            assert(!spec_row_bad(rs[i as int], COLUMN_CAP as nat));
            assert(rs.take(i + 1).drop_last() =~= rs.take(i as int));
            assert(rs.take(i + 1).last() == rs[i as int]);
        }
        if w > width {
            width = w;
        }
    }
    proof {
        assert(rs.take(rs.len() as int) =~= rs);
        assert(!spec_any_bad(rs, COLUMN_CAP as nat));
        lemma_width_le_cap(rs, COLUMN_CAP as nat);
    }
    let mut columns: Vec<Vec<T>> = Vec::new();
    for j in 0..width
        invariant
            rs == rows@.map_values(|v: Vec<Option<T>>| v@),
            rs.len() == rows@.len(),
            !spec_any_bad(rs, COLUMN_CAP as nat),
            width == spec_width(rs, COLUMN_CAP as nat),
            width <= COLUMN_CAP,
            columns@.len() == j,
            forall|k: int| 0 <= k < j ==> columns@[k]@ == spec_column(rs, k),
    {
        let mut col: Vec<T> = Vec::new();
        for i in 0..rows.len()
            invariant
                rs == rows@.map_values(|v: Vec<Option<T>>| v@),
                rs.len() == rows@.len(),
                !spec_any_bad(rs, COLUMN_CAP as nat),
                j < width <= COLUMN_CAP,
                col@ == spec_column(rs.take(i as int), j as int),
        {
            let row = &rows[i];
            if j < row.len() {
                match row[j] {
                    Option::Some(v) => {
                        col.push(v);
                    },
                    Option::None => {
                        proof {
                            assert(spec_row_bad(rs[i as int], COLUMN_CAP as nat));
                            assert(spec_any_bad(rs, COLUMN_CAP as nat));
                        }
                        unreached()
                    },
                }
            }
            proof {
                assert(rs.take(i + 1).drop_last() =~= rs.take(i as int));
                assert(rs.take(i + 1).last() == rs[i as int]);
            }
        }
        proof {
            assert(rs.take(rs.len() as int) =~= rs);
        }
        columns.push(col);
    }
    let m = SampleMapping { columns };
    proof {
        assert(m@ =~= m.columns@.map_values(|c: Vec<T>| c@));
    }
    Ok(m)
}

/// When every ingested row carries the same number of fields — at most the
/// column cap — every produced column holds one sample per row: ingesting `K`
/// well-formed rows of `len` fields each gives `len` columns of length `K`.
pub proof fn lemma_uniform_rows_uniform_columns<T>(rows: Seq<Seq<Option<T>>>, len: nat, j: int)
    requires
        forall|i: int| 0 <= i < rows.len() ==> rows[i].len() == len,
        len <= COLUMN_CAP as nat,
        0 <= j < len,
    ensures
        spec_column(rows, j).len() == rows.len(),
        rows.len() > 0 ==> spec_width(rows, COLUMN_CAP as nat) == len,
    decreases rows.len(),
{
    if rows.len() > 0 {
        let rest = rows.drop_last();
        assert forall|i: int| 0 <= i < rest.len() implies rest[i].len() == len by {
            assert(rest[i] == rows[i]);
        }
        if rows.len() == 1 {
            assert(spec_width(rest, COLUMN_CAP as nat) == 0);
            assert(spec_column(rest, j).len() == 0);
        } else {
            lemma_uniform_rows_uniform_columns(rest, len, j);
        }
        assert(rows.last().len() == len);
        assert(spec_column(rows, j) == spec_column(rest, j) + seq![rows.last()[j].unwrap()]);
    }
}

} // verus!
