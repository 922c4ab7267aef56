//! Construction, mutation and queries on the [`Dataset`] struct.

use vstd::prelude::*;

use crate::text::Stringifiable;
use crate::Datapoint;
use crate::Dataset;

verus! {

/// Relies on std's `TryFrom<Vec<T>>` for arrays: the conversion succeeds
/// exactly when the vector's length is `N` and keeps the elements in order.
#[verifier::external_body]
fn strings_into_array<const N: usize>(v: Vec<String>) -> (r: [String; N])
    requires
        v@.len() == N,
    ensures
        r@ == v@,
{
    v.try_into().expect("the length was checked by the caller")
}

/// The number of full rows that a family of columns can supply: the length
/// of its shortest column.
pub open spec fn min_col_len<E>(cols: Seq<Vec<E>>) -> nat
    decreases cols.len(),
{
    if cols.len() == 0 {
        0
    } else if cols.len() == 1 {
        cols[0]@.len()
    } else {
        let rest = min_col_len(cols.drop_last());
        let last = cols.last()@.len();
        if last < rest {
            last
        } else {
            rest
        }
    }
}

proof fn lemma_min_col_len_le<E>(cols: Seq<Vec<E>>, i: int)
    requires
        0 <= i < cols.len(),
    ensures
        min_col_len(cols) <= cols[i]@.len(),
    decreases cols.len(),
{
    if cols.len() > 1 && i < cols.len() - 1 {
        lemma_min_col_len_le(cols.drop_last(), i);
    }
}

/// What the column-oriented constructors guarantee of the records they
/// build from a family of columns: one record per full row, the `k`-th
/// record holding the `k`-th element of each column in column order.
pub open spec fn column_data_post<const COLS: usize, E>(
    data: Seq<[E; COLS]>,
    cols: Seq<Vec<E>>,
) -> bool {
    &&& data.len() == min_col_len(cols)
    &&& forall|k: int, i: int|
        0 <= k < data.len() && 0 <= i < COLS ==> #[trigger] data[k]@[i] == cols[i]@[k]
}

impl<const COLS: usize, Data: Datapoint<COLS>> Dataset<COLS, Data> {
    /// The number of datapoints held.
    pub open spec fn spec_n_datapoints(&self) -> nat {
        self.datapoints().len()
    }

    /// The number of rows an emitted file would have: the datapoints, plus
    /// the label row when one is set.
    pub open spec fn spec_n_rows(&self) -> nat {
        self.spec_n_datapoints() + (if self.labels_view() is Some {
            1nat
        } else {
            0nat
        })
    }

    /// The same dataset with its labels cleared.
    pub closed spec fn without_labels(self) -> Self {
        Dataset { labels: Option::None, data: self.data }
    }

    /// Create a new, empty dataset with no labels.
    pub fn new() -> (d: Self)
        ensures
            d.labels_view() is None,
            d.datapoints() == Seq::<Data>::empty(),
    {
        Self { labels: Option::None, data: Vec::new() }
    }

    /// Append one datapoint to the dataset.
    pub fn push(&mut self, datapoint: Data)
        ensures
            final(self).datapoints() == old(self).datapoints().push(datapoint),
            final(self).labels_view() == old(self).labels_view(),
    {
        self.data.push(datapoint);
    }

    /// The number of rows an emitted file would have: the number of
    /// datapoints, plus one if a label row is set.
    pub fn n_rows(&self) -> (n: usize)
        requires
            self.spec_n_rows() <= usize::MAX,
        ensures
            n == self.spec_n_rows(),
    {
        match &self.labels {
            Option::Some(_) => self.data.len() + 1,
            Option::None => self.data.len(),
        }
    }

    /// The number of datapoints in the dataset.
    pub fn n_datapoints(&self) -> (n: usize)
        ensures
            n == self.spec_n_datapoints(),
    {
        self.data.len()
    }

    /// The number of columns of the dataset.
    pub fn n_columns(&self) -> (n: usize)
        ensures
            n == COLS,
    {
        COLS
    }

    /// The current labels, if any are set.
    pub fn get_labels(&self) -> (r: Option<&[String; COLS]>)
        ensures
            match r {
                Option::None => self.labels_view() is None,
                Option::Some(ls) => self.labels_view() == Option::Some(
                    ls@.map_values(|s: String| s@),
                ),
            },
    {
        match &self.labels {
            Option::None => Option::None,
            Option::Some(ls) => Option::Some(ls),
        }
    }

    /// Set the labels of the dataset, converting each label to its string
    /// form, or clear them when `labels` is `None`.
    pub fn set_labels(&mut self, labels: Option<[&str; COLS]>)
        ensures
            final(self).datapoints() == old(self).datapoints(),
            labels is None ==> *final(self) == old(self).without_labels(),
            match labels {
                Option::None => final(self).labels_view() is None,
                Option::Some(ls) => final(self).labels_view() == Option::Some(
                    ls@.map_values(|s: &str| s@),
                ),
            },
    {
        match labels {
            Option::None => {
                self.labels = Option::None;
            },
            Option::Some(ls) => {
                let mut v: Vec<String> = Vec::new();
                for i in 0..COLS
                    invariant
                        v@.len() == i,
                        forall|k: int| 0 <= k < i ==> #[trigger] v@[k]@ == ls@[k]@,
                {
                    v.push(ls[i].to_owned());
                }
                let arr: [String; COLS] = strings_into_array(v);
                self.labels = Option::Some(arr);
                proof {
                    assert(arr@.map_values(|s: String| s@) =~= ls@.map_values(|s: &str| s@));
                }
            },
        }
    }

    /// Set the labels and hand the dataset back, for chained construction.
    pub fn with_labels(self, labels: Option<[&str; COLS]>) -> (r: Self)
        ensures
            r.datapoints() == self.datapoints(),
            labels is None ==> r == self.without_labels(),
            match labels {
                Option::None => r.labels_view() is None,
                Option::Some(ls) => r.labels_view() == Option::Some(
                    ls@.map_values(|s: &str| s@),
                ),
            },
    {
        let mut d = self;
        d.set_labels(labels);
        d
    }

    /// Create a dataset holding the given datapoints, in order, with no
    /// labels.
    pub fn from_datapoints(rows: Vec<Data>) -> (d: Self)
        ensures
            d.labels_view() is None,
            d.datapoints() == rows@,
    {
        Self { labels: Option::None, data: rows }
    }
}

impl<const COLS: usize, Data: Datapoint<COLS>> Default for Dataset<COLS, Data> {
    /// Equivalent to `new`.
    fn default() -> (d: Self)
        ensures
            d.labels_view() is None,
            d.datapoints() == Seq::<Data>::empty(),
    {
        Self::new()
    }
}

impl<const COLS: usize, E: Stringifiable + Copy> Dataset<COLS, [E; COLS]> {
    /// Create an unlabelled dataset from `COLS` parallel columns,
    /// interleaving them into one record per row and stopping at the end of
    /// the shortest column.
    pub fn from_columns(columns: [Vec<E>; COLS]) -> (d: Self)
        ensures
            d.labels_view() is None,
            column_data_post(d.datapoints(), columns@),
    {
        if COLS == 0 {
            return Self { labels: Option::None, data: Vec::new() };
        }
        let mut m: usize = columns[0].len();
        proof {
            assert(columns@.take(1) =~= seq![columns@[0]]);
        }
        for i in 1..COLS
            invariant
                1 <= i <= COLS,
                COLS == columns@.len(),
                m == min_col_len(columns@.take(i as int)),
        {
            let li: usize = columns[i].len();
            proof {
                assert(columns@.take(i + 1).drop_last() =~= columns@.take(i as int));
                assert(columns@.take(i + 1).last() == columns@[i as int]);
            }
            if li < m {
                m = li;
            }
        }
        proof {
            assert(columns@.take(COLS as int) =~= columns@);
        }
        let mut data: Vec<[E; COLS]> = Vec::new();
        for k in 0..m
            invariant
                COLS >= 1,
                COLS == columns@.len(),
                m == min_col_len(columns@),
                data@.len() == k,
                forall|kk: int, ii: int|
                    0 <= kk < k && 0 <= ii < COLS ==> #[trigger] data@[kk]@[ii] == columns@[ii]@[kk],
        {
            proof {
                lemma_min_col_len_le(columns@, 0);
            }
            let seed: E = columns[0][k];
            let mut row: [E; COLS] = [seed; COLS];
            for i in 1..COLS
                invariant
                    COLS == columns@.len(),
                    m == min_col_len(columns@),
                    k < m,
                    row@.len() == COLS,
                    forall|ii: int| 0 <= ii < i ==> #[trigger] row@[ii] == columns@[ii]@[k as int],
            {
                proof {
                    lemma_min_col_len_le(columns@, i as int);
                }
                row[i] = columns[i][k];
            }
            data.push(row);
        }
        Self { labels: Option::None, data }
    }

    /// Create a dataset from `COLS` parallel columns and an optional set of
    /// labels: the same records as `from_columns`, with the labels attached.
    pub fn columns(columns: [Vec<E>; COLS], labels: Option<[&str; COLS]>) -> (d: Self)
        ensures
            column_data_post(d.datapoints(), columns@),
            match labels {
                Option::None => d.labels_view() is None,
                Option::Some(ls) => d.labels_view() == Option::Some(
                    ls@.map_values(|s: &str| s@),
                ),
            },
    {
        Self::from_columns(columns).with_labels(labels)
    }
}

/// The row count of a dataset is its datapoint count when no labels are
/// set, and one more when they are.
pub proof fn lemma_row_count<const COLS: usize, Data: Datapoint<COLS>>(d: Dataset<COLS, Data>)
    ensures
        d.labels_view() is None ==> d.spec_n_rows() == d.spec_n_datapoints(),
        d.labels_view() is Some ==> d.spec_n_rows() == d.spec_n_datapoints() + 1,
{
}

/// Clearing the labels keeps the datapoints and leaves the labels absent.
pub proof fn lemma_without_labels<const COLS: usize, Data: Datapoint<COLS>>(d: Dataset<COLS, Data>)
    ensures
        d.without_labels().labels_view() is None,
        d.without_labels().datapoints() == d.datapoints(),
{
}

/// Clearing the labels is idempotent: a dataset whose labels were cleared
/// is unchanged by clearing them again.
pub proof fn lemma_clear_labels_idempotent<const COLS: usize, Data: Datapoint<COLS>>(d: Dataset<COLS, Data>)
    ensures
        d.without_labels().without_labels() == d.without_labels(),
{
}

/// Pairing each label with its column is the same as building from the
/// columns first and attaching the labels afterwards: any two datasets
/// meeting the column contract for the same columns and carrying the same
/// label text hold exactly the same records and labels.
pub proof fn lemma_labelled_columns_agree<const COLS: usize, E>(
    d1: Dataset<COLS, [E; COLS]>,
    d2: Dataset<COLS, [E; COLS]>,
    cols: Seq<Vec<E>>,
    ls: Seq<Seq<char>>,
)
    requires
        column_data_post(d1.datapoints(), cols),
        column_data_post(d2.datapoints(), cols),
        d1.labels_view() == Option::Some(ls),
        d2.labels_view() == Option::Some(ls),
    ensures
        d1.datapoints() == d2.datapoints(),
        d1.labels_view() == d2.labels_view(),
{
    assert forall|k: int|
        0 <= k < d1.datapoints().len() implies d1.datapoints()[k] == d2.datapoints()[k] by {
        assert(forall|i: int| 0 <= i < COLS ==> d1.datapoints()[k]@[i] == d2.datapoints()[k]@[i]);
        assert(d1.datapoints()[k]@ =~= d2.datapoints()[k]@);
        assert(d1.datapoints()[k] =~= d2.datapoints()[k]);
    }
    assert(d1.datapoints() =~= d2.datapoints());
}

} // verus!
