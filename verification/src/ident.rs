//! Twelve-byte document identifiers.

use crate::error::Error;
use vstd::prelude::*;

verus! {

/// A twelve-byte identifier, held as its leading four bytes and its trailing
/// eight bytes, both big-endian.
#[derive(Clone, Copy, Debug, PartialEq, Eq, Structural, Hash)]
pub struct Oid {
    pub hi: u32,
    pub lo: u64,
}

/// The value of one hexadecimal digit, upper or lower case.
pub open spec fn hex_value(c: char) -> Option<int> {
    if '0' <= c <= '9' {
        Some(c as int - '0' as int)
    } else if 'a' <= c <= 'f' {
        Some(c as int - 'a' as int + 10)
    } else if 'A' <= c <= 'F' {
        Some(c as int - 'A' as int + 10)
    } else {
        None
    }
}

/// Exactly twenty-four hexadecimal digits.
pub open spec fn is_oid_text(s: Seq<char>) -> bool {
    &&& s.len() == 24
    &&& forall|i: int| 0 <= i < 24 ==> (#[trigger] hex_value(s[i])) is Some
}

/// The byte that the digit pair at position `i` spells.
pub open spec fn oid_text_byte(s: Seq<char>, i: int) -> int {
    16 * hex_value(s[2 * i]).unwrap() + hex_value(s[2 * i + 1]).unwrap()
}

/// The big-endian number that `bytes[from..to]` spell.
pub open spec fn be_value(bytes: Seq<u8>, from: int, to: int) -> int
    decreases to - from,
{
    if to <= from {
        0
    } else {
        256 * be_value(bytes, from, to - 1) + bytes[to - 1] as int
    }
}

/// The identifier that twelve bytes spell.
pub open spec fn oid_of_bytes(bytes: Seq<u8>) -> Oid {
    Oid { hi: be_value(bytes, 0, 4) as u32, lo: be_value(bytes, 4, 12) as u64 }
}

/// The twelve bytes that identifier text spells.
pub open spec fn oid_text_bytes(s: Seq<char>) -> Seq<u8> {
    Seq::new(12, |i: int| oid_text_byte(s, i) as u8)
}

/// The identifier that identifier text spells.
pub open spec fn oid_of_text(s: Seq<char>) -> Oid {
    oid_of_bytes(oid_text_bytes(s))
}

/// Calls `bson::oid::ObjectId::parse_str` and hands out the identifier's
/// bytes, or the words of the refusal. The call succeeds exactly on
/// twenty-four hexadecimal digits, and each byte is then the value of its
/// digit pair.
#[verifier::external_body]
fn parse_object_id(s: &str) -> (r: Result<[u8; 12], String>)
    ensures
        r is Ok <==> is_oid_text(s@),
        r matches Ok(bytes) ==> bytes@ == oid_text_bytes(s@),
{
    match bson::oid::ObjectId::parse_str(s) {
        Ok(id) => Ok(id.bytes()),
        Err(e) => Err(e.to_string()),
    }
}

impl Oid {
    /// The identifier that `bytes` spell.
    pub fn from_bytes(bytes: [u8; 12]) -> (r: Oid)
        ensures
            r == oid_of_bytes(bytes@),
    {
        proof {
            reveal_with_fuel(be_value, 9);
        }
        let hi: u32 = ((bytes[0] as u32 * 256 + bytes[1] as u32) * 256 + bytes[2] as u32) * 256
            + bytes[3] as u32;
        let a: u64 = ((bytes[4] as u64 * 256 + bytes[5] as u64) * 256 + bytes[6] as u64) * 256
            + bytes[7] as u64;
        let b: u64 = ((bytes[8] as u64 * 256 + bytes[9] as u64) * 256 + bytes[10] as u64) * 256
            + bytes[11] as u64;
        let lo: u64 = a * 4294967296 + b;
        Oid { hi, lo }
    }

    /// The twelve bytes that spell the identifier.
    pub fn bytes(&self) -> (r: [u8; 12])
        ensures
            oid_of_bytes(r@) == *self,
    {
        let h3 = self.hi;
        let h2 = h3 / 256;
        let h1 = h2 / 256;
        let h0 = h1 / 256;
        let l7 = self.lo;
        let l6 = l7 / 256;
        let l5 = l6 / 256;
        let l4 = l5 / 256;
        let l3 = l4 / 256;
        let l2 = l3 / 256;
        let l1 = l2 / 256;
        let l0 = l1 / 256;
        let r: [u8; 12] = [
            h0 as u8,
            (h1 % 256) as u8,
            (h2 % 256) as u8,
            (h3 % 256) as u8,
            l0 as u8,
            (l1 % 256) as u8,
            (l2 % 256) as u8,
            (l3 % 256) as u8,
            (l4 % 256) as u8,
            (l5 % 256) as u8,
            (l6 % 256) as u8,
            (l7 % 256) as u8,
        ];
        proof {
            assert(be_value(r@, 0, 0) == 0);
            assert(be_value(r@, 0, 1) == h0);
            assert(be_value(r@, 0, 2) == h1);
            assert(be_value(r@, 0, 3) == h2);
            assert(be_value(r@, 0, 4) == h3);
            assert(be_value(r@, 4, 4) == 0);
            assert(be_value(r@, 4, 5) == l0);
            assert(be_value(r@, 4, 6) == l1);
            assert(be_value(r@, 4, 7) == l2);
            assert(be_value(r@, 4, 8) == l3);
            assert(be_value(r@, 4, 9) == l4);
            assert(be_value(r@, 4, 10) == l5);
            assert(be_value(r@, 4, 11) == l6);
            assert(be_value(r@, 4, 12) == l7);
        }
        r
    }

    /// Reads an identifier from its twenty-four hexadecimal digits; any other
    /// text is refused.
    pub fn parse_str(s: &str) -> (r: Result<Oid, Error>)
        ensures
            r is Ok <==> is_oid_text(s@),
            r matches Ok(id) ==> id == oid_of_text(s@),
            r matches Err(e) ==> e is BsonOidError,
    {
        match parse_object_id(s) {
            Ok(bytes) => Ok(Oid::from_bytes(bytes)),
            Err(text) => Err(Error::BsonOidError(text)),
        }
    }
}

/// Calls `bson::oid::ObjectId::new` and hands out the bytes of the new
/// identifier, which are made of the time, of the process and of a counter.
/// Nothing is promised of them. On a machine whose clock is set before 1970
/// or after 2106 the call panics.
#[verifier::external_body]
fn new_object_id() -> (r: [u8; 12]) {
    bson::oid::ObjectId::new().bytes()
}

impl Oid {
    /// A new identifier.
    pub fn new() -> (r: Oid) {
        Oid::from_bytes(new_object_id())
    }
}

} // verus!
