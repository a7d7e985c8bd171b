//! Reads that test the kind first. Each answers with what the unchecked
//! read of the same name gives where the kind is right, and says which kind
//! it found where it is not.

use vstd::prelude::*;
use vstd::string::StringSliceAdditionalSpecFns;
use vstd::utf8::{decode_utf8, valid_utf8};

use crate::sys::{IS_ARRAY, IS_DOUBLE, IS_LONG, IS_STRING};
use crate::value::array::Array;
use crate::value::string::until_nul;
use crate::value::{Cell, Value};

verus! {

/// Why a checked read gave nothing.
#[derive(Clone, Copy, Debug)]
pub enum ReadError {
    /// The value is of the kind `found`, not of the kind `expected`.
    WrongKind { expected: u8, found: u8 },
    /// The value is a string, and its bytes are not valid UTF-8.
    InvalidText,
}

impl Value {
    /// The error of a read that expected `expected`.
    pub open spec fn wrong_kind(self, expected: u8) -> ReadError {
        ReadError::WrongKind { expected, found: self.tag() }
    }

    /// The integer of an integer value.
    pub fn try_int(&self) -> (r: Result<i64, ReadError>)
        ensures
            r is Ok <==> self.is_int(),
            r matches Ok(n) ==> self.cell() == Cell::Long(n),
            r matches Err(e) ==> e == self.wrong_kind(IS_LONG),
    {
        if self.is_int() {
            Ok(self.to_int())
        } else {
            Err(ReadError::WrongKind { expected: IS_LONG, found: self.get_type() })
        }
    }

    /// The bits of the double of a float value.
    pub fn try_float_bits(&self) -> (r: Result<u64, ReadError>)
        ensures
            r is Ok <==> self.is_float(),
            r matches Ok(bits) ==> self.cell() == Cell::Double(bits),
            r matches Err(e) ==> e == self.wrong_kind(IS_DOUBLE),
    {
        if self.is_float() {
            Ok(self.to_float_bits())
        } else {
            Err(ReadError::WrongKind { expected: IS_DOUBLE, found: self.get_type() })
        }
    }

    /// The bytes of a string value, up to its first zero byte.
    pub fn try_bytes(&self) -> (r: Result<&[u8], ReadError>)
        ensures
            r is Ok <==> self.is_string(),
            r matches Ok(bytes) ==> bytes@ == until_nul(self.string_bytes()),
            r matches Err(e) ==> e == self.wrong_kind(IS_STRING),
    {
        if self.is_string() {
            Ok(self.as_bytes())
        } else {
            Err(ReadError::WrongKind { expected: IS_STRING, found: self.get_type() })
        }
    }

    /// The text of a string value, up to its first zero byte.
    pub fn try_str(&self) -> (r: Result<&str, ReadError>)
        ensures
            r is Ok <==> self.is_string() && valid_utf8(until_nul(self.string_bytes())),
            r matches Ok(text) ==> text.spec_bytes() == until_nul(self.string_bytes()) && text@
                == decode_utf8(until_nul(self.string_bytes())),
            r matches Err(e) ==> e == if self.is_string() {
                ReadError::InvalidText
            } else {
                self.wrong_kind(IS_STRING)
            },
    {
        if self.is_string() {
            match self.to_str() {
                Some(text) => Ok(text),
                None => Err(ReadError::InvalidText),
            }
        } else {
            Err(ReadError::WrongKind { expected: IS_STRING, found: self.get_type() })
        }
    }

    /// The array of an array value.
    pub fn try_array(&self) -> (r: Result<&Array, ReadError>)
        ensures
            r is Ok <==> self.is_array(),
            r matches Ok(array) ==> self.cell() == Cell::Array(*array),
            r matches Err(e) ==> e == self.wrong_kind(IS_ARRAY),
    {
        if self.is_array() {
            Ok(self.to_array())
        } else {
            Err(ReadError::WrongKind { expected: IS_ARRAY, found: self.get_type() })
        }
    }
}

} // verus!
