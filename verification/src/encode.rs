//! Serialization of a dataset to CSV bytes.
//!
//! Field-level quoting, escaping and line termination are delegated to the
//! external CSV encoder; the library guarantees which rows reach it and in
//! which order, and that every row it hands over has exactly `COLS` fields.

use vstd::prelude::*;

use crate::Datapoint;
use crate::Dataset;

verus! {

/// The bytes the CSV encoder produces for one record, as a function of the
/// record's fields: the fields in order, delimited, quoted where needed,
/// and terminated by the encoder's line separator.
pub uninterp spec fn csv_record_bytes(fields: Seq<Seq<char>>) -> Seq<u8>;

/// The bytes of a whole CSV document: each row's record encoding, in order.
pub open spec fn csv_doc(rows: Seq<Seq<Seq<char>>>) -> Seq<u8>
    decreases rows.len(),
{
    if rows.len() == 0 {
        Seq::empty()
    } else {
        csv_doc(rows.drop_last()) + csv_record_bytes(rows.last())
    }
}

/// A character that never makes the encoder quote a field: an ASCII
/// character other than the delimiter, the quote and the line breaks.
pub open spec fn plain_char(c: char) -> bool {
    &&& (c as u32) < 128
    &&& c != ','
    &&& c != '"'
    &&& c != '\n'
    &&& c != '\r'
}

/// A field the encoder writes verbatim, without quoting.
pub open spec fn plain_field(f: Seq<char>) -> bool {
    forall|i: int| 0 <= i < f.len() ==> plain_char(#[trigger] f[i])
}

/// A record the encoder writes without any quoting: at least one field,
/// not a single empty field (which the encoder quotes to keep the record
/// visible), and every field plain.
pub open spec fn plain_record(fields: Seq<Seq<char>>) -> bool {
    &&& fields.len() >= 1
    &&& !(fields.len() == 1 && fields[0].len() == 0)
    &&& forall|i: int| 0 <= i < fields.len() ==> plain_field(#[trigger] fields[i])
}

/// The bytes of one plain field: its ASCII characters, byte for byte.
pub open spec fn ascii_bytes(f: Seq<char>) -> Seq<u8> {
    f.map_values(|c: char| (c as u32) as u8)
}

/// The bytes of one unquoted record: the fields joined by the delimiter
/// and terminated by a line feed.
pub open spec fn plain_record_bytes(fields: Seq<Seq<char>>) -> Seq<u8>
    decreases fields.len(),
{
    if fields.len() <= 1 {
        if fields.len() == 0 {
            seq![10u8]
        } else {
            ascii_bytes(fields[0]) + seq![10u8]
        }
    } else {
        ascii_bytes(fields.first()) + seq![44u8] + plain_record_bytes(fields.drop_first())
    }
}

/// The bytes of a whole document of unquoted records.
pub open spec fn plain_doc(rows: Seq<Seq<Seq<char>>>) -> Seq<u8>
    decreases rows.len(),
{
    if rows.len() == 0 {
        Seq::empty()
    } else {
        plain_doc(rows.drop_last()) + plain_record_bytes(rows.last())
    }
}

/// A table in which every record is plain.
pub open spec fn plain_table(rows: Seq<Seq<Seq<char>>>) -> bool {
    forall|t: int| 0 <= t < rows.len() ==> plain_record(#[trigger] rows[t])
}

/// The given row is a possible rendering of the given datapoint: some
/// result that `record` may return for it, one text per field.
pub open spec fn renders_to<const COLS: usize, Data: Datapoint<COLS>>(
    dp: Data,
    row: Seq<Seq<char>>,
) -> bool {
    exists|w: Vec<String>|
        call_ensures(Data::record, (&dp,), w) && row == w@.map_values(|s: String| s@)
}

/// Relies on `csv::Writer` over an in-memory buffer: writing one record to
/// a fresh writer with default settings cannot fail, the bytes produced
/// are a function of the record's fields alone, and a record of plain
/// fields is written verbatim, comma-delimited and newline-terminated.
#[verifier::external_body]
fn csv_encode_record(fields: &Vec<String>) -> (r: Vec<u8>)
    ensures
        r@ == csv_record_bytes(fields@.map_values(|s: String| s@)),
        plain_record(fields@.map_values(|s: String| s@)) ==> r@ == plain_record_bytes(
            fields@.map_values(|s: String| s@),
        ),
{
    let mut w = csv::Writer::from_writer(Vec::new());
    w.write_record(fields).expect("an in-memory record write does not fail");
    w.into_inner().expect("an in-memory flush does not fail")
}

/// Encode a table of already-stringified rows as one CSV document; a table
/// of plain records is encoded verbatim.
pub fn encode_rows(rows: &Vec<Vec<String>>) -> (r: Vec<u8>)
    ensures
        r@ == csv_doc(rows@.map_values(|row: Vec<String>| row@.map_values(|s: String| s@))),
        plain_table(rows@.map_values(|row: Vec<String>| row@.map_values(|s: String| s@)))
            ==> r@ == plain_doc(
            rows@.map_values(|row: Vec<String>| row@.map_values(|s: String| s@)),
        ),
{
    let ghost table = rows@.map_values(|row: Vec<String>| row@.map_values(|s: String| s@));
    let mut r: Vec<u8> = Vec::new();
    for i in 0..rows.len()
        invariant
            table == rows@.map_values(|row: Vec<String>| row@.map_values(|s: String| s@)),
            r@ == csv_doc(table.take(i as int)),
            plain_table(table) ==> r@ == plain_doc(table.take(i as int)),
    {
        let mut enc = csv_encode_record(&rows[i]);
        r.append(&mut enc);
        proof {
            assert(table.take(i + 1).drop_last() =~= table.take(i as int));
            assert(table.take(i + 1).last() == table[i as int]);
        }
    }
    proof {
        assert(table.take(rows@.len() as int) =~= table);
    }
    r
}

impl<const COLS: usize, Data: Datapoint<COLS>> Dataset<COLS, Data> {
    /// The table the writer emits for this dataset: the label row first
    /// when one is set, then, per datapoint in insertion order, a row that
    /// is a possible result of rendering that datapoint; every row has
    /// exactly `COLS` fields.
    pub open spec fn emitted_table(&self, rows: Seq<Seq<Seq<char>>>) -> bool {
        &&& rows.len() == self.spec_n_rows()
        &&& forall|i: int| 0 <= i < rows.len() ==> #[trigger] rows[i].len() == COLS
        &&& match self.labels_view() {
            Option::Some(ls) => {
                &&& rows.len() >= 1
                &&& rows[0] == ls
                &&& forall|j: int|
                    0 <= j < self.spec_n_datapoints() ==> #[trigger] renders_to::<COLS, Data>(
                        self.datapoints()[j],
                        rows[1 + j],
                    )
            },
            Option::None => forall|j: int|
                0 <= j < self.spec_n_datapoints() ==> #[trigger] renders_to::<COLS, Data>(
                    self.datapoints()[j],
                    rows[j],
                ),
        }
    }

    /// Render the dataset as the bytes of a CSV document, consuming it: the
    /// bytes encode exactly the dataset's emitted table, and a table of
    /// plain fields is encoded verbatim.
    pub fn to_csv_bytes(self) -> (r: Vec<u8>)
        ensures
            exists|rows: Seq<Seq<Seq<char>>>|
                {
                    &&& r@ == csv_doc(rows)
                    &&& self.emitted_table(rows)
                    &&& (plain_table(rows) ==> r@ == plain_doc(rows))
                },
    {
        let mut table: Vec<Vec<String>> = Vec::new();
        match &self.labels {
            Option::Some(arr) => {
                let mut lr: Vec<String> = Vec::new();
                for i in 0..COLS
                    invariant
                        lr@.len() == i,
                        forall|k: int| 0 <= k < i ==> #[trigger] lr@[k] == arr@[k],
                {
                    lr.push(arr[i].clone());
                }
                proof {
                    assert(lr@.map_values(|s: String| s@) =~= arr@.map_values(|s: String| s@));
                }
                table.push(lr);
                proof {
                    assert(table@.len() == 1);
                    assert(table@[0]@.len() == COLS);
                    assert(table@[0]@.map_values(|s: String| s@) == self.labels_view()->0);
                }
            },
            Option::None => {},
        }
        let ghost head = table@;
        proof {
            if self.labels_view() is Some {
                assert(head.len() == 1);
                assert(head[0]@.len() == COLS);
                assert(head[0]@.map_values(|s: String| s@) == self.labels_view()->0);
            } else {
                assert(head.len() == 0);
            }
        }
        let n: usize = self.data.len();
        for j in 0..n
            invariant
                n == self.datapoints().len(),
                table@.len() == head.len() + j,
                table@.take(head.len() as int) == head,
                forall|t: int|
                    head.len() <= t < table@.len() ==> #[trigger] table@[t]@.len() == COLS,
                forall|t: int|
                    head.len() <= t < table@.len() ==> call_ensures(
                        Data::record,
                        (&self.datapoints()[t - head.len()],),
                        #[trigger] table@[t],
                    ),
        {
            let w = self.data[j].record();
            proof {
                assert(call_ensures(Data::record, (&self.datapoints()[j as int],), w));
            }
            table.push(w);
            proof {
                assert(table@.take(head.len() as int) =~= head);
            }
        }
        let r = encode_rows(&table);
        proof {
            let rows = table@.map_values(|row: Vec<String>| row@.map_values(|s: String| s@));
            assert(rows.len() == self.spec_n_rows());
            assert forall|i: int| 0 <= i < rows.len() implies #[trigger] rows[i].len()
                == COLS by {
                assert(table@[i]@.len() == COLS);
            }
            if self.labels_view() is Some {
                assert(rows[0] == self.labels_view()->0);
                assert forall|j: int| 0 <= j < self.spec_n_datapoints() implies
                    #[trigger] renders_to::<COLS, Data>(self.datapoints()[j], rows[1 + j]) by {
                    let w = table@[1 + j];
                    assert(call_ensures(Data::record, (&self.datapoints()[j],), w));
                    assert(rows[1 + j] == w@.map_values(|s: String| s@));
                }
            } else {
                assert forall|j: int| 0 <= j < self.spec_n_datapoints() implies
                    #[trigger] renders_to::<COLS, Data>(self.datapoints()[j], rows[j]) by {
                    let w = table@[j];
                    assert(call_ensures(Data::record, (&self.datapoints()[j],), w));
                    assert(rows[j] == w@.map_values(|s: String| s@));
                }
            }
            assert(self.emitted_table(rows));
            assert({
                &&& r@ == csv_doc(rows)
                &&& self.emitted_table(rows)
                &&& (plain_table(rows) ==> r@ == plain_doc(rows))
            });
        }
        r
    }
}

} // verus!
