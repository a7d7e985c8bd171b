//! String values. The runtime hands a string out as a pointer to bytes that
//! a zero byte ends, so a string is read up to its first zero byte.

use vstd::prelude::*;
use vstd::slice::{slice_subrange, slice_to_vec};
use vstd::string::StringSliceAdditionalSpecFns;
use vstd::utf8::{decode_utf8, valid_utf8};

use crate::value::{Cell, Value};

verus! {

/// `n` is the place of the first zero byte of `bytes`, or their length where
/// none of them is zero.
pub open spec fn is_terminator(bytes: Seq<u8>, n: int) -> bool {
    &&& 0 <= n <= bytes.len()
    &&& forall|i: int| 0 <= i < n ==> bytes[i] != 0
    &&& n < bytes.len() ==> bytes[n] == 0
}

/// The number of bytes before the first zero byte.
pub open spec fn terminator(bytes: Seq<u8>) -> int {
    choose|n: int| is_terminator(bytes, n)
}

/// The bytes before the first zero byte.
pub open spec fn until_nul(bytes: Seq<u8>) -> Seq<u8> {
    bytes.take(terminator(bytes))
}

/// Whether one of the bytes is zero.
pub open spec fn has_nul(bytes: Seq<u8>) -> bool {
    exists|i: int| 0 <= i < bytes.len() && bytes[i] == 0
}

/// Every sequence of bytes has a terminator. What is read up to it is the
/// front of the bytes and holds no zero byte.
pub proof fn lemma_terminator(bytes: Seq<u8>)
    ensures
        is_terminator(bytes, terminator(bytes)),
        until_nul(bytes).is_prefix_of(bytes),
        !has_nul(until_nul(bytes)),
    decreases bytes.len(),
{
    if bytes.len() == 0 {
        assert(is_terminator(bytes, 0));
    } else {
        let front = bytes.drop_last();
        lemma_terminator(front);
        let n = terminator(front);
        assert forall|i: int| 0 <= i < n implies bytes[i] != 0 by {
            assert(bytes[i] == front[i]);
        }
        if n < front.len() {
            assert(bytes[n] == front[n]);
            assert(is_terminator(bytes, n));
        } else if bytes.last() == 0 {
            assert(is_terminator(bytes, n));
        } else {
            assert(is_terminator(bytes, bytes.len() as int));
        }
    }
}

/// There is one terminator, and `terminator` names it.
pub proof fn lemma_terminator_unique(bytes: Seq<u8>, n: int)
    requires
        is_terminator(bytes, n),
    ensures
        terminator(bytes) == n,
{
    let m = terminator(bytes);
    assert(is_terminator(bytes, m));
    if m < n {
        assert(bytes[m] == 0);
    } else if n < m {
        assert(bytes[n] == 0);
    }
}

/// Bytes without a zero byte are read whole.
pub proof fn lemma_until_nul_whole(bytes: Seq<u8>)
    requires
        !has_nul(bytes),
    ensures
        until_nul(bytes) == bytes,
{
    assert(is_terminator(bytes, bytes.len() as int));
    lemma_terminator_unique(bytes, bytes.len() as int);
    assert(bytes.take(bytes.len() as int) =~= bytes);
}

/// A string without a zero byte that is made into a value is read back byte
/// for byte, and as the same text.
pub proof fn lemma_string_round_trip(text: &str)
    requires
        !has_nul(text.spec_bytes()),
    ensures
        until_nul(text.spec_bytes()) == text.spec_bytes(),
        valid_utf8(until_nul(text.spec_bytes())),
        decode_utf8(until_nul(text.spec_bytes())) == text@,
{
    broadcast use vstd::utf8::encode_utf8_valid_utf8, vstd::utf8::encode_utf8_decode_utf8;

    lemma_until_nul_whole(text.spec_bytes());
}

/// The place of the first zero byte, or the length where there is none.
pub fn find_nul(bytes: &[u8]) -> (n: usize)
    ensures
        n <= bytes@.len(),
        n == terminator(bytes@),
        n < bytes@.len() <==> has_nul(bytes@),
{
    let mut n: usize = 0;
    while n < bytes.len() && bytes[n] != 0
        invariant
            n <= bytes@.len(),
            forall|i: int| 0 <= i < n ==> bytes@[i] != 0,
        decreases bytes@.len() - n,
    {
        n += 1;
    }
    proof {
        lemma_terminator_unique(bytes@, n as int);
    }
    n
}

/// Whether the text holds a zero byte, which no name or source text handed
/// to the runtime may.
pub fn contains_nul(text: &str) -> (found: bool)
    ensures
        found == has_nul(text.spec_bytes()),
{
    let bytes = text.as_bytes();
    find_nul(bytes) < bytes.len()
}

/// Decodes bytes as UTF-8 with `core::str::from_utf8`: it succeeds exactly
/// on valid UTF-8, and the text it returns is made of the same bytes.
#[verifier::external_body]
fn decode(bytes: &[u8]) -> (text: Result<&str, core::str::Utf8Error>)
    ensures
        text is Ok <==> valid_utf8(bytes@),
        text is Ok ==> text->Ok_0.spec_bytes() == bytes@,
{
    core::str::from_utf8(bytes)
}

/// The error of `core::str::from_utf8`, which says where the bytes stop
/// being UTF-8. Nothing here reads it.
#[verifier::external_type_specification]
#[verifier::external_body]
pub struct ExUtf8Error(core::str::Utf8Error);

impl Value {
    /// All the bytes of the string that the value holds.
    pub open spec fn string_bytes(self) -> Seq<u8> {
        self.cell()->String_0@
    }

    /// A string value that holds a copy of the bytes of `value`.
    pub fn from_str(value: &str) -> (r: Value)
        requires
            !has_nul(value.spec_bytes()),
        ensures
            r.is_string(),
            r.cell() is String,
            r.string_bytes() == value.spec_bytes(),
            until_nul(r.string_bytes()) == value.spec_bytes(),
            valid_utf8(until_nul(r.string_bytes())),
            decode_utf8(until_nul(r.string_bytes())) == value@,
    {
        proof {
            lemma_string_round_trip(value);
        }
        Value::new(Cell::String(slice_to_vec(value.as_bytes())))
    }

    /// Convert the value to a slice of bytes: those before the first zero
    /// byte.
    pub fn as_bytes(&self) -> (bytes: &[u8])
        requires
            self.is_string(),
        ensures
            bytes@ == until_nul(self.string_bytes()),
    {
        match self.as_ptr() {
            Cell::String(all) => {
                let n = find_nul(all.as_slice());
                slice_subrange(all.as_slice(), 0, n)
            },
            _ => {
                proof {
                    use_type_invariant(self);
                }
                vstd::pervasive::unreached()
            },
        }
    }

    /// Convert the value to a string.
    pub fn as_str(&self) -> (text: &str)
        requires
            self.is_string(),
            valid_utf8(until_nul(self.string_bytes())),
        ensures
            text.spec_bytes() == until_nul(self.string_bytes()),
            text@ == decode_utf8(until_nul(self.string_bytes())),
    {
        let text = match decode(self.as_bytes()) {
            Ok(text) => text,
            Err(_) => vstd::pervasive::unreached(),
        };
        proof {
            broadcast use vstd::utf8::encode_utf8_decode_utf8;

        }
        text
    }

    /// The text of a string value as an owned string.
    pub fn to_string(&self) -> (text: String)
        requires
            self.is_string(),
            valid_utf8(until_nul(self.string_bytes())),
        ensures
            text@ == decode_utf8(until_nul(self.string_bytes())),
    {
        self.as_str().to_owned()
    }

    /// The text of a string value, or `None` where its bytes are not valid
    /// UTF-8.
    pub fn to_str(&self) -> (text: Option<&str>)
        requires
            self.is_string(),
        ensures
            text is Some <==> valid_utf8(until_nul(self.string_bytes())),
            text is Some ==> text->Some_0.spec_bytes() == until_nul(self.string_bytes()),
            text is Some ==> text->Some_0@ == decode_utf8(until_nul(self.string_bytes())),
    {
        proof {
            broadcast use vstd::utf8::encode_utf8_decode_utf8;

        }
        match decode(self.as_bytes()) {
            Ok(text) => Some(text),
            Err(_) => None,
        }
    }
}

} // verus!
