//! The values that travel between the service and the record store: the
//! parameters of a statement and the cells of a row.

use crate::timestamp::{Civil, Timestamp};
use vstd::prelude::*;

verus! {

/// One statement parameter or one cell of a row.
#[derive(Clone, Debug, PartialEq, Eq)]
pub enum Value {
    Int(i32),
    Text(String),
    Time(Timestamp),
}

/// What a `Value` stands for.
pub enum Datum {
    Int(int),
    Text(Seq<char>),
    Time(Civil),
}

impl View for Value {
    type V = Datum;

    open spec fn view(&self) -> Datum {
        match self {
            Value::Int(n) => Datum::Int(*n as int),
            Value::Text(s) => Datum::Text(s@),
            Value::Time(t) => Datum::Time(t@),
        }
    }
}

impl DeepView for Value {
    type V = Datum;

    open spec fn deep_view(&self) -> Datum {
        self@
    }
}

} // verus!
