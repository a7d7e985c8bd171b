//! Values of the embedded runtime: one tagged cell each, read through typed
//! accessors.

use vstd::prelude::*;

use crate::sys::{IS_ARRAY, IS_DOUBLE, IS_FALSE, IS_LONG, IS_NULL, IS_STRING, IS_TRUE};
use crate::value::array::Array;
use crate::value::boolean::boolean_cell;

pub mod array;
pub mod boolean;
pub mod checked;
pub mod long;
pub mod string;

verus! {

/// The runtime's tagged cell: a discriminant and the payload it selects.
pub enum Cell {
    Null,
    False,
    True,
    /// A signed 64-bit integer.
    Long(i64),
    /// A double, held as its IEEE 754 bit pattern.
    Double(u64),
    /// The bytes of a runtime string.
    String(Vec<u8>),
    /// An ordered array.
    Array(Array),
    /// A cell of a kind that this library does not read, with its type byte.
    Other(u8),
}

impl Cell {
    /// The type byte of the cell.
    pub open spec fn tag(self) -> u8 {
        match self {
            Cell::Null => IS_NULL,
            Cell::False => IS_FALSE,
            Cell::True => IS_TRUE,
            Cell::Long(_) => IS_LONG,
            Cell::Double(_) => IS_DOUBLE,
            Cell::String(_) => IS_STRING,
            Cell::Array(_) => IS_ARRAY,
            Cell::Other(t) => t,
        }
    }

    /// An unread kind never carries the type byte of a kind that is read.
    pub open spec fn well_tagged(self) -> bool {
        match self {
            Cell::Other(t) => t < IS_NULL || t > IS_ARRAY,
            _ => true,
        }
    }
}

/// The name that `get_type_name` gives to a type byte.
pub open spec fn kind_name(tag: u8) -> Seq<char> {
    if tag == IS_LONG {
        "int"@
    } else if tag == IS_DOUBLE {
        "float"@
    } else if tag == IS_NULL {
        "null"@
    } else if tag == IS_STRING {
        "string"@
    } else {
        "unknown"@
    }
}

/// Owns exactly one cell of the runtime.
pub struct Value {
    ptr: Box<Cell>,
}

impl Value {
    #[verifier::type_invariant]
    spec fn inv(self) -> bool {
        self.ptr.well_tagged()
    }

    /// The cell that the value owns.
    pub closed spec fn cell(self) -> Cell {
        *self.ptr
    }

    /// The type byte of the owned cell.
    pub open spec fn tag(self) -> u8 {
        self.cell().tag()
    }

    /// The value that owns `cell`.
    pub closed spec fn spec_new(cell: Cell) -> Value {
        Value { ptr: Box::new(cell) }
    }

    /// The value made of a cell owns that cell.
    pub broadcast proof fn lemma_spec_new_cell(cell: Cell)
        ensures
            (#[trigger] Value::spec_new(cell)).cell() == cell,
    {
    }

    /// Create a new Value that takes ownership of an existing cell.
    pub fn new(cell: Cell) -> (value: Value)
        requires
            cell.well_tagged(),
        ensures
            value == Value::spec_new(cell),
            value.cell() == cell,
    {
        Value { ptr: Box::new(cell) }
    }

    /// Get the type byte that represents the type of the value.
    pub fn get_type(&self) -> (tag: u8)
        ensures
            tag == self.tag(),
            self.cell().well_tagged(),
    {
        proof {
            use_type_invariant(self);
        }
        match &*self.ptr {
            Cell::Null => IS_NULL,
            Cell::False => IS_FALSE,
            Cell::True => IS_TRUE,
            Cell::Long(_) => IS_LONG,
            Cell::Double(_) => IS_DOUBLE,
            Cell::String(_) => IS_STRING,
            Cell::Array(_) => IS_ARRAY,
            Cell::Other(t) => *t,
        }
    }

    pub open spec fn spec_is_int(&self) -> bool {
        self.tag() == IS_LONG
    }

    /// Check if the value is an integer (long).
    #[verifier::when_used_as_spec(spec_is_int)]
    pub fn is_int(&self) -> (r: bool)
        ensures
            r == self.spec_is_int(),
            r == (self.cell() is Long),
    {
        proof {
            use_type_invariant(self);
        }
        self.get_type() == IS_LONG
    }

    pub open spec fn spec_is_float(&self) -> bool {
        self.tag() == IS_DOUBLE
    }

    /// Check if the value is a float (double).
    #[verifier::when_used_as_spec(spec_is_float)]
    pub fn is_float(&self) -> (r: bool)
        ensures
            r == self.spec_is_float(),
            r == (self.cell() is Double),
    {
        proof {
            use_type_invariant(self);
        }
        self.get_type() == IS_DOUBLE
    }

    pub open spec fn spec_is_null(&self) -> bool {
        self.tag() == IS_NULL
    }

    /// Check if the value is null.
    #[verifier::when_used_as_spec(spec_is_null)]
    pub fn is_null(&self) -> (r: bool)
        ensures
            r == self.spec_is_null(),
            r == (self.cell() is Null),
    {
        proof {
            use_type_invariant(self);
        }
        self.get_type() == IS_NULL
    }

    pub open spec fn spec_is_string(&self) -> bool {
        self.tag() == IS_STRING
    }

    /// Check if the value is a string.
    #[verifier::when_used_as_spec(spec_is_string)]
    pub fn is_string(&self) -> (r: bool)
        ensures
            r == self.spec_is_string(),
            r == (self.cell() is String),
    {
        proof {
            use_type_invariant(self);
        }
        self.get_type() == IS_STRING
    }

    pub open spec fn spec_is_true(&self) -> bool {
        self.tag() == IS_TRUE
    }

    /// Check if the value is true.
    #[verifier::when_used_as_spec(spec_is_true)]
    pub fn is_true(&self) -> (r: bool)
        ensures
            r == self.spec_is_true(),
            r == (self.cell() is True),
    {
        proof {
            use_type_invariant(self);
        }
        self.get_type() == IS_TRUE
    }

    pub open spec fn spec_is_false(&self) -> bool {
        self.tag() == IS_FALSE
    }

    /// Check if the value is false.
    #[verifier::when_used_as_spec(spec_is_false)]
    pub fn is_false(&self) -> (r: bool)
        ensures
            r == self.spec_is_false(),
            r == (self.cell() is False),
    {
        proof {
            use_type_invariant(self);
        }
        self.get_type() == IS_FALSE
    }

    pub open spec fn spec_is_bool(&self) -> bool {
        self.is_true() || self.is_false()
    }

    /// Check if the value is a boolean.
    #[verifier::when_used_as_spec(spec_is_bool)]
    pub fn is_bool(&self) -> (r: bool)
        ensures
            r == self.spec_is_bool(),
    {
        self.is_true() || self.is_false()
    }

    pub open spec fn spec_is_array(&self) -> bool {
        self.tag() == IS_ARRAY
    }

    /// Check if the value is an array.
    #[verifier::when_used_as_spec(spec_is_array)]
    pub fn is_array(&self) -> (r: bool)
        ensures
            r == self.spec_is_array(),
            r == (self.cell() is Array),
    {
        proof {
            use_type_invariant(self);
        }
        self.get_type() == IS_ARRAY
    }

    /// Borrow the underlying cell.
    pub fn as_ptr(&self) -> (cell: &Cell)
        ensures
            *cell == self.cell(),
    {
        &*self.ptr
    }

    /// Convert the value to a 64-bit integer.
    pub fn to_int(&self) -> (n: i64)
        requires
            self.is_int(),
        ensures
            self.cell() == Cell::Long(n),
    {
        proof {
            use_type_invariant(self);
        }
        match &*self.ptr {
            Cell::Long(n) => *n,
            _ => 0,
        }
    }

    /// The bit pattern of the 64-bit floating point number that the value
    /// holds.
    pub fn to_float_bits(&self) -> (bits: u64)
        requires
            self.is_float(),
        ensures
            self.cell() == Cell::Double(bits),
    {
        proof {
            use_type_invariant(self);
        }
        match &*self.ptr {
            Cell::Double(bits) => *bits,
            _ => 0,
        }
    }

    /// Convert the value to a boolean.
    pub fn to_bool(&self) -> (b: bool)
        requires
            self.is_bool(),
        ensures
            b == self.is_true(),
    {
        self.is_true()
    }

    /// View the value as an array.
    pub fn to_array(&self) -> (array: &Array)
        requires
            self.is_array(),
        ensures
            self.cell() == Cell::Array(*array),
    {
        proof {
            use_type_invariant(self);
        }
        match &*self.ptr {
            Cell::Array(array) => array,
            _ => vstd::pervasive::unreached(),
        }
    }

    /// Convert the value to null (unit type).
    ///
    /// NOTE: This method only exists for consistency, there's no reason to use it.
    pub fn to_null(&self) {
    }

    /// Get a pretty name for the type of the value.
    pub fn get_type_name(&self) -> (name: &'static str)
        ensures
            name@ == kind_name(self.tag()),
    {
        let tag: u8 = self.get_type();
        if tag == IS_LONG {
            "int"
        } else if tag == IS_DOUBLE {
            "float"
        } else if tag == IS_NULL {
            "null"
        } else if tag == IS_STRING {
            "string"
        } else {
            "unknown"
        }
    }

    /// The null value.
    pub fn null() -> (value: Value)
        ensures
            value == Value::spec_new(Cell::Null),
            value.cell() == Cell::Null,
    {
        Value { ptr: Box::new(Cell::Null) }
    }

    /// A float value, from the bit pattern of the double.
    pub fn from_float_bits(bits: u64) -> (value: Value)
        ensures
            value == Value::spec_new(Cell::Double(bits)),
            value.cell() == Cell::Double(bits),
    {
        Value { ptr: Box::new(Cell::Double(bits)) }
    }

    /// A value that holds an array.
    pub fn from_array(array: Array) -> (value: Value)
        ensures
            value.cell() == Cell::Array(array),
    {
        Value { ptr: Box::new(Cell::Array(array)) }
    }

    /// A value made of an integer, of the bits of a double, of a boolean or
    /// of null is of that kind, and holds what it was made of.
    pub proof fn lemma_scalar_round_trip(n: i64, bits: u64, b: bool)
        ensures
            Value::spec_new(Cell::Long(n)).is_int(),
            Value::spec_new(Cell::Long(n)).cell() == Cell::Long(n),
            Value::spec_new(Cell::Double(bits)).is_float(),
            Value::spec_new(Cell::Double(bits)).cell() == Cell::Double(bits),
            Value::spec_new(boolean_cell(b)).is_bool(),
            Value::spec_new(boolean_cell(b)).is_true() == b,
            Value::spec_new(boolean_cell(b)).is_false() == !b,
            Value::spec_new(Cell::Null).is_null(),
    {
    }

    /// The type predicates exclude each other, and over the scalar kinds one
    /// of them holds.
    pub proof fn lemma_predicates_partition(self)
        ensures
            !(self.is_int() && self.is_float()),
            !(self.is_int() && self.is_null()),
            !(self.is_int() && self.is_string()),
            !(self.is_int() && self.is_true()),
            !(self.is_int() && self.is_false()),
            !(self.is_float() && self.is_null()),
            !(self.is_float() && self.is_string()),
            !(self.is_float() && self.is_true()),
            !(self.is_float() && self.is_false()),
            !(self.is_null() && self.is_string()),
            !(self.is_null() && self.is_true()),
            !(self.is_null() && self.is_false()),
            !(self.is_string() && self.is_true()),
            !(self.is_string() && self.is_false()),
            !(self.is_true() && self.is_false()),
            IS_NULL <= self.tag() <= IS_STRING <==> self.is_int() || self.is_float()
                || self.is_null() || self.is_string() || self.is_true() || self.is_false(),
    {
    }
}

} // verus!
