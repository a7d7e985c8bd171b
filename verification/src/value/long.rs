//! Integer values.

use vstd::prelude::*;
use vstd::std_specs::convert::FromSpecImpl;

use crate::value::{Cell, Value};

verus! {

impl From<i64> for Value {
    fn from(value: i64) -> (r: Value) {
        Value::new(Cell::Long(value))
    }
}

impl FromSpecImpl<i64> for Value {
    open spec fn obeys_from_spec() -> bool {
        true
    }

    open spec fn from_spec(value: i64) -> Value {
        Value::spec_new(Cell::Long(value))
    }
}

} // verus!
