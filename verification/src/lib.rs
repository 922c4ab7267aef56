//! A small library for emitting tabular data as CSV with minimal ceremony.
//!
//! The crate is built around two concepts:
//! - the [`Datapoint`]: a value that renders to a fixed number of textual fields;
//! - the [`Dataset`]: an ordered collection of datapoints with an optional label row.

use vstd::prelude::*;

pub mod datapoint;
pub mod dataset;
pub mod encode;
pub mod text;

verus! {

/// A collection of datapoints, all rendering to exactly `COLS` fields,
/// together with an optional row of `COLS` column labels.
#[derive(Debug, Clone)]
pub struct Dataset<const COLS: usize, Data> {
    pub(crate) labels: Option<[String; COLS]>,
    pub(crate) data: Vec<Data>,
}

/// The record capability: a value of an implementing type renders to
/// exactly `N` textual fields, in a fixed order.
pub trait Datapoint<const N: usize> {
    /// Render the value as one row of `N` fields.
    fn record(&self) -> (r: Vec<String>)
        ensures
            r@.len() == N,
    ;
}

impl<const COLS: usize, Data> Dataset<COLS, Data> {
    /// The ordered records held by the dataset.
    pub closed spec fn datapoints(&self) -> Seq<Data> {
        self.data@
    }

    /// The label row, if one is set, as a sequence of `COLS` texts.
    pub closed spec fn labels_view(&self) -> Option<Seq<Seq<char>>> {
        match self.labels {
            Option::None => Option::<Seq<Seq<char>>>::None,
            Option::Some(ls) => Option::Some(ls@.map_values(|s: String| s@)),
        }
    }
}

} // verus!
