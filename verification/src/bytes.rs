//! Byte-buffer primitives shared by every key and signature codec: the
//! all-zero (identity) test, byte-exact copies and comparisons, and the
//! common fixed-length deserialization step.
use vstd::prelude::*;

use crate::Error;

verus! {

/// Holds when every byte of `s` is zero: the canonical encoding of the
/// identity element of each type.
pub open spec fn all_zero(s: Seq<u8>) -> bool {
    forall|i: int| 0 <= i < s.len() ==> s[i] == 0
}

/// The all-zero byte sequence of length `n`.
pub open spec fn zero_seq(n: int) -> Seq<u8> {
    Seq::new(n as nat, |i: int| 0u8)
}

/// What deserializing a fixed-length buffer yields: the bytes themselves
/// when the length is exact (and, where the identity encoding is forbidden,
/// the bytes are not all zero), and an error otherwise.
pub open spec fn spec_deserialize_fixed(
    s: Seq<u8>,
    len: int,
    reject_identity: bool,
) -> Result<Seq<u8>, Error> {
    if s.len() == len && !(reject_identity && all_zero(s)) {
        Ok(s)
    } else {
        Err(Error::DeserializationError)
    }
}

/// Copies a byte slice into a fresh buffer.
pub(crate) fn copy_bytes(src: &[u8]) -> (r: Vec<u8>)
    ensures
        r@ == src@,
{
    let mut r: Vec<u8> = Vec::new();
    let mut i: usize = 0;
    while i < src.len()
        invariant
            i <= src@.len(),
            r@ == src@.subrange(0, i as int),
        decreases src@.len() - i,
    {
        r.push(src[i]);
        assert(r@ =~= src@.subrange(0, i + 1 as int));
        i = i + 1;
    }
    assert(r@ =~= src@);
    r
}

/// Builds a buffer of `len` copies of `value`.
pub(crate) fn repeat_bytes(len: usize, value: u8) -> (r: Vec<u8>)
    ensures
        r@.len() == len,
        forall|i: int| 0 <= i < r@.len() ==> r@[i] == value,
{
    let mut r: Vec<u8> = Vec::new();
    let mut i: usize = 0;
    while i < len
        invariant
            i <= len,
            r@.len() == i,
            forall|j: int| 0 <= j < r@.len() ==> r@[j] == value,
        decreases len - i,
    {
        r.push(value);
        i = i + 1;
    }
    r
}

/// Decides whether every byte of the slice is zero.
pub(crate) fn is_all_zero(bytes: &[u8]) -> (r: bool)
    ensures
        r <==> all_zero(bytes@),
{
    let mut i: usize = 0;
    while i < bytes.len()
        invariant
            i <= bytes@.len(),
            forall|j: int| 0 <= j < i ==> bytes@[j] == 0,
        decreases bytes@.len() - i,
    {
        if bytes[i] != 0 {
            return false;
        }
        i = i + 1;
    }
    true
}

/// Compares two byte slices for byte-exact equality.
pub(crate) fn bytes_eq(a: &[u8], b: &[u8]) -> (r: bool)
    ensures
        r <==> a@ == b@,
{
    if a.len() != b.len() {
        return false;
    }
    let mut i: usize = 0;
    while i < a.len()
        invariant
            a@.len() == b@.len(),
            i <= a@.len(),
            forall|j: int| 0 <= j < i ==> a@[j] == b@[j],
        decreases a@.len() - i,
    {
        if a[i] != b[i] {
            return false;
        }
        i = i + 1;
    }
    assert(a@ =~= b@);
    true
}

/// The shared deserialization step: demand the exact length, copy the bytes,
/// and, where `reject_identity` is set, refuse the all-zero encoding.
pub(crate) fn deserialize_fixed(
    bytes: &[u8],
    len: usize,
    reject_identity: bool,
) -> (r: Result<Vec<u8>, Error>)
    ensures
        r matches Ok(v) ==> spec_deserialize_fixed(bytes@, len as int, reject_identity)
            == Ok::<Seq<u8>, Error>(v@),
        r matches Err(e) ==> spec_deserialize_fixed(bytes@, len as int, reject_identity)
            == Err::<Seq<u8>, Error>(e),
{
    if bytes.len() != len {
        return Err(Error::DeserializationError);
    }
    if reject_identity && is_all_zero(bytes) {
        return Err(Error::DeserializationError);
    }
    Ok(copy_bytes(bytes))
}

} // verus!
