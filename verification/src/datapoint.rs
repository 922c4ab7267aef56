//! Implementations of the [`Datapoint`] capability.
//!
//! The library supplies the capability for fixed-length arrays of
//! stringifiable elements and for short heterogeneous tuples; user-defined
//! record types implement the trait by hand, one field per column in
//! declaration order.

use vstd::prelude::*;

use crate::Datapoint;
use crate::text::char_to_string;
use crate::text::Stringifiable;

verus! {

impl<const N: usize, E: Stringifiable> Datapoint<N> for [E; N] {
    fn record(&self) -> (r: Vec<String>)
        ensures
            forall|i: int| 0 <= i < N ==> r@[i]@ == self@[i].text(),
    {
        let mut r: Vec<String> = Vec::new();
        for i in 0..N
            invariant
                r@.len() == i,
                forall|k: int| 0 <= k < i ==> r@[k]@ == self@[k].text(),
        {
            r.push(self[i].to_text());
        }
        r
    }
}

impl<D1: Stringifiable> Datapoint<1> for (D1,) {
    fn record(&self) -> (r: Vec<String>)
        ensures
            r@[0]@ == self.0.text(),
    {
        let mut r: Vec<String> = Vec::new();
        r.push(self.0.to_text());
        r
    }
}

impl<D1: Stringifiable, D2: Stringifiable> Datapoint<2> for (D1, D2) {
    fn record(&self) -> (r: Vec<String>)
        ensures
            r@[0]@ == self.0.text(),
            r@[1]@ == self.1.text(),
    {
        let mut r: Vec<String> = Vec::new();
        r.push(self.0.to_text());
        r.push(self.1.to_text());
        r
    }
}

impl<D1: Stringifiable, D2: Stringifiable, D3: Stringifiable> Datapoint<3> for (D1, D2, D3) {
    fn record(&self) -> (r: Vec<String>)
        ensures
            r@[0]@ == self.0.text(),
            r@[1]@ == self.1.text(),
            r@[2]@ == self.2.text(),
    {
        let mut r: Vec<String> = Vec::new();
        r.push(self.0.to_text());
        r.push(self.1.to_text());
        r.push(self.2.to_text());
        r
    }
}

/// The fields of one row joined into a single line of text, with the given
/// delimiter between neighbouring fields.
pub open spec fn join_texts(fields: Seq<Seq<char>>, delimiter: char) -> Seq<char>
    decreases fields.len(),
{
    if fields.len() == 0 {
        Seq::empty()
    } else if fields.len() == 1 {
        fields[0]
    } else {
        join_texts(fields.drop_last(), delimiter).push(delimiter) + fields.last()
    }
}

/// Join the fields of a rendered row with a delimiter character.
pub fn join_fields(fields: &Vec<String>, delimiter: char) -> (r: String)
    ensures
        r@ == join_texts(fields@.map_values(|s: String| s@), delimiter),
{
    let ghost texts = fields@.map_values(|s: String| s@);
    let sep = char_to_string(delimiter);
    let mut r = String::new();
    for i in 0..fields.len()
        invariant
            texts == fields@.map_values(|s: String| s@),
            sep@ == seq![delimiter],
            r@ == join_texts(texts.take(i as int), delimiter),
    {
        if i > 0 {
            r.append(sep.as_str());
        }
        r.append(fields[i].as_str());
        proof {
            let prev = texts.take(i as int);
            let cur = texts.take(i + 1);
            if i == 0 {
                assert(cur =~= seq![texts[0]]);
                assert(r@ =~= join_texts(cur, delimiter));
            } else {
                assert(cur.drop_last() =~= prev);
                assert(join_texts(cur, delimiter) == join_texts(prev, delimiter).push(
                    delimiter,
                ) + texts[i as int]);
                assert(r@ =~= join_texts(cur, delimiter));
            }
        }
    }
    proof {
        assert(texts.take(fields@.len() as int) =~= texts);
    }
    r
}

} // verus!
