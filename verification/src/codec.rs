//! The register codec: structural serialization between a box register's raw
//! encoded form and the two primitive types the protocol stores in registers,
//! character strings and signed integers.
//!
//! A register value is a byte blob: a one-byte type tag followed by the
//! payload. An integer register carries the value's two's-complement bits,
//! little endian; a string register carries the characters' UTF-8 bytes.
//! Decoding is all-or-nothing: a blob whose shape does not match the requested
//! type yields `None`, never a partial or truncated value.

use vstd::bytes::{
    lemma_auto_spec_u64_to_from_le_bytes, spec_u64_from_le_bytes, spec_u64_to_le_bytes,
    u64_from_le_bytes, u64_to_le_bytes,
};
use vstd::prelude::*;
use vstd::slice::{slice_subrange, slice_to_vec};
use vstd::utf8::{
    decode_utf8, encode_utf8, encode_utf8_decode_utf8, encode_utf8_valid_utf8, valid_utf8,
};

verus! {

/// Leading tag byte of a register holding a signed integer.
pub const INT_TAG: u8 = 0x05;

/// Leading tag byte of a register holding a character string.
pub const STR_TAG: u8 = 0x0e;

/// The unsigned 64-bit word whose bits are the two's-complement
/// representation of `n`.
pub open spec fn u64_bits_of_i64(n: i64) -> u64 {
    if n >= 0 {
        n as u64
    } else {
        (n + 0x1_0000_0000_0000_0000) as u64
    }
}

/// The signed value whose two's-complement representation is `u`.
pub open spec fn i64_of_u64_bits(u: u64) -> i64 {
    if u < 0x8000_0000_0000_0000 {
        u as i64
    } else {
        (u - 0x1_0000_0000_0000_0000) as i64
    }
}

/// The two's-complement representations of signed values are faithful: going
/// to the unsigned word and back is the identity.
pub proof fn lemma_i64_bits_round_trip(n: i64)
    ensures
        i64_of_u64_bits(u64_bits_of_i64(n)) == n,
{
}

/// The encoded form of an integer register.
pub open spec fn int_register(n: i64) -> Seq<u8> {
    seq![INT_TAG] + spec_u64_to_le_bytes(u64_bits_of_i64(n))
}

/// Whether a blob is a well-formed integer register.
pub open spec fn is_int_register(bytes: Seq<u8>) -> bool {
    bytes.len() == 9 && bytes[0] == INT_TAG
}

/// The integer a well-formed integer register holds.
pub open spec fn int_register_value(bytes: Seq<u8>) -> i64
    recommends
        is_int_register(bytes),
{
    i64_of_u64_bits(spec_u64_from_le_bytes(bytes.skip(1)))
}

/// The encoded form of a string register.
pub open spec fn str_register(s: Seq<char>) -> Seq<u8> {
    seq![STR_TAG] + encode_utf8(s)
}

/// Whether a blob is a well-formed string register.
pub open spec fn is_str_register(bytes: Seq<u8>) -> bool {
    bytes.len() >= 1 && bytes[0] == STR_TAG && valid_utf8(bytes.skip(1))
}

/// The characters a well-formed string register holds.
pub open spec fn str_register_chars(bytes: Seq<u8>) -> Seq<char>
    recommends
        is_str_register(bytes),
{
    decode_utf8(bytes.skip(1))
}

/// Converts a signed value to the unsigned word carrying its
/// two's-complement bits.
fn i64_to_bits(n: i64) -> (u: u64)
    ensures
        u == u64_bits_of_i64(n),
{
    if n >= 0 {
        n as u64
    } else {
        let m: i64 = -(n + 1);
        u64::MAX - (m as u64)
    }
}

/// Converts an unsigned word back to the signed value whose
/// two's-complement bits it carries.
fn bits_to_i64(u: u64) -> (n: i64)
    ensures
        n == i64_of_u64_bits(u),
{
    if u < 0x8000_0000_0000_0000u64 {
        u as i64
    } else {
        let m: u64 = u64::MAX - u;
        -(m as i64) - 1
    }
}

/// Encodes a signed integer into a register blob.
pub fn encode_integer(n: i64) -> (r: Vec<u8>)
    ensures
        r@ == int_register(n),
        is_int_register(r@),
        int_register_value(r@) == n,
{
    let bits = i64_to_bits(n);
    let mut r: Vec<u8> = Vec::new();
    r.push(INT_TAG);
    let mut payload = u64_to_le_bytes(bits);
    r.append(&mut payload);
    proof {
        assert(r@ =~= int_register(n));
        lemma_int_register_round_trip(n);
    }
    r
}

/// Decodes a register blob as a signed integer. Returns `None` exactly when
/// the blob is not a well-formed integer register; a well-formed one decodes
/// to the value it holds.
pub fn decode_integer(r: &Vec<u8>) -> (o: Option<i64>)
    ensures
        o is Some <==> is_int_register(r@),
        is_int_register(r@) ==> o == Some(int_register_value(r@)),
{
    if r.len() == 9 && r[0] == INT_TAG {
        let payload = slice_subrange(r.as_slice(), 1, 9);
        proof {
            assert(payload@ =~= r@.skip(1));
        }
        let bits = u64_from_le_bytes(payload);
        Some(bits_to_i64(bits))
    } else {
        None
    }
}

/// Encodes a character string into a register blob.
pub fn encode_string(s: &str) -> (r: Vec<u8>)
    ensures
        r@ == str_register(s@),
        is_str_register(r@),
        str_register_chars(r@) == s@,
{
    let bytes: &[u8] = s.as_bytes();
    let mut r: Vec<u8> = Vec::new();
    r.push(STR_TAG);
    let mut payload = slice_to_vec(bytes);
    r.append(&mut payload);
    proof {
        assert(r@ =~= str_register(s@));
        lemma_str_register_round_trip(s@);
    }
    r
}

/// Relies on `String::from_utf8`: it succeeds exactly when the bytes are
/// valid UTF-8, and then returns the string those bytes encode.
#[verifier::external_body]
fn string_from_utf8(bytes: Vec<u8>) -> (r: Option<String>)
    ensures
        r is Some <==> valid_utf8(bytes@),
        r matches Some(s) ==> s@ == decode_utf8(bytes@),
{
    String::from_utf8(bytes).ok()
}

/// Decodes a register blob as a character string. Returns `None` exactly when
/// the blob is not a well-formed string register; a well-formed one decodes to
/// the characters it holds.
pub fn decode_string(r: &Vec<u8>) -> (o: Option<String>)
    ensures
        o is Some <==> is_str_register(r@),
        o matches Some(s) ==> s@ == str_register_chars(r@),
{
    if r.len() >= 1 && r[0] == STR_TAG {
        let payload = slice_to_vec(slice_subrange(r.as_slice(), 1, r.len()));
        proof {
            assert(payload@ =~= r@.skip(1));
        }
        string_from_utf8(payload)
    } else {
        None
    }
}

/// Law: an integer register produced by the encoder is well formed and decodes
/// back to the original value.
pub proof fn lemma_int_register_round_trip(n: i64)
    ensures
        is_int_register(int_register(n)),
        int_register_value(int_register(n)) == n,
{
    lemma_auto_spec_u64_to_from_le_bytes();
    assert(int_register(n).skip(1) =~= spec_u64_to_le_bytes(u64_bits_of_i64(n)));
    lemma_i64_bits_round_trip(n);
}

/// Law: a string register produced by the encoder is well formed and decodes
/// back to the original characters.
pub proof fn lemma_str_register_round_trip(s: Seq<char>)
    ensures
        is_str_register(str_register(s)),
        str_register_chars(str_register(s)) == s,
{
    encode_utf8_valid_utf8(s);
    encode_utf8_decode_utf8(s);
    assert(str_register(s).skip(1) =~= encode_utf8(s));
}

/// Law: the two register shapes never collide; no blob is both an integer
/// register and a string register.
pub proof fn lemma_register_shapes_disjoint(bytes: Seq<u8>)
    ensures
        !(is_int_register(bytes) && is_str_register(bytes)),
{
}

} // verus!
