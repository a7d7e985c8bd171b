//! Boolean values.

use vstd::prelude::*;
use vstd::std_specs::convert::FromSpecImpl;

use crate::value::{Cell, Value};

verus! {

/// The cell of a boolean: one of the two kinds that carry no payload.
pub open spec fn boolean_cell(value: bool) -> Cell {
    if value {
        Cell::True
    } else {
        Cell::False
    }
}

impl From<bool> for Value {
    fn from(value: bool) -> (r: Value) {
        if value {
            Value::new(Cell::True)
        } else {
            Value::new(Cell::False)
        }
    }
}

impl FromSpecImpl<bool> for Value {
    open spec fn obeys_from_spec() -> bool {
        true
    }

    open spec fn from_spec(value: bool) -> Value {
        Value::spec_new(boolean_cell(value))
    }
}

} // verus!
