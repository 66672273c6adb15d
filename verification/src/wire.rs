//! The byte encodings of the values that records and instructions are made
//! of, as the `borsh` crate writes and reads them.

use vstd::bytes::*;
use vstd::prelude::*;
use vstd::string::*;
use vstd::utf8::*;

verus! {

/// The byte that stands for a flag.
pub open spec fn flag_byte(flag: bool) -> u8 {
    if flag {
        1u8
    } else {
        0u8
    }
}

/// The flag that one byte stands for; only 0 and 1 stand for one.
pub open spec fn flag_of(bytes: Seq<u8>) -> Option<bool> {
    if bytes.len() == 1 && bytes[0] == 0 {
        Some(false)
    } else if bytes.len() == 1 && bytes[0] == 1 {
        Some(true)
    } else {
        None
    }
}

/// The number that eight bytes stand for, least significant byte first.
pub open spec fn word_of(bytes: Seq<u8>) -> Option<u64> {
    if bytes.len() == 8 {
        Some(spec_u64_from_le_bytes(bytes))
    } else {
        None
    }
}

/// `borsh`'s `BorshSerialize::try_to_vec` on a `u64`: the eight bytes of the
/// number, least significant first. Writing into a fresh vector cannot fail.
#[verifier::external_body]
pub(crate) fn word_to_bytes(word: u64) -> (out: Vec<u8>)
    ensures
        out@ == spec_u64_to_le_bytes(word),
{
    match borsh::BorshSerialize::try_to_vec(&word) {
        Ok(bytes) => bytes,
        Err(_) => Vec::new(),
    }
}

/// `borsh`'s `BorshDeserialize::try_from_slice` for `u64`: it accepts exactly
/// eight bytes and reads them least significant first.
#[verifier::external_body]
pub(crate) fn word_from_bytes(bytes: &[u8]) -> (word: Option<u64>)
    ensures
        word == word_of(bytes@),
{
    match <u64 as borsh::BorshDeserialize>::try_from_slice(bytes) {
        Ok(word) => Some(word),
        Err(_) => None,
    }
}

/// `borsh`'s `BorshSerialize::try_to_vec` on a `bool`: one byte, 1 for true
/// and 0 for false.
#[verifier::external_body]
pub(crate) fn flag_to_bytes(flag: bool) -> (out: Vec<u8>)
    ensures
        out@ == seq![flag_byte(flag)],
{
    match borsh::BorshSerialize::try_to_vec(&flag) {
        Ok(bytes) => bytes,
        Err(_) => Vec::new(),
    }
}

/// `borsh`'s `BorshDeserialize::try_from_slice` for `bool`: it accepts one
/// byte that is 0 or 1, and nothing else.
#[verifier::external_body]
pub(crate) fn flag_from_bytes(bytes: &[u8]) -> (flag: Option<bool>)
    ensures
        flag == flag_of(bytes@),
{
    match <bool as borsh::BorshDeserialize>::try_from_slice(bytes) {
        Ok(flag) => Some(flag),
        Err(_) => None,
    }
}

/// The bytes of a text: the length of its UTF-8 encoding as four bytes,
/// least significant first, and the encoding behind it.
pub open spec fn text_bytes(text: Seq<char>) -> Seq<u8> {
    spec_u32_to_le_bytes(encode_utf8(text).len() as u32) + encode_utf8(text)
}

/// The text that `bytes` stand for: four bytes that give the length of the
/// rest, and a rest that is valid UTF-8.
pub open spec fn text_of(bytes: Seq<u8>) -> Option<Seq<char>> {
    if bytes.len() >= 4 && spec_u32_from_le_bytes(bytes.subrange(0, 4)) == bytes.len() - 4
        && valid_utf8(bytes.subrange(4, bytes.len() as int)) {
        Some(decode_utf8(bytes.subrange(4, bytes.len() as int)))
    } else {
        None
    }
}

/// `borsh`'s `BorshSerialize::try_to_vec` on a `str`: the byte length as a
/// `u32`, least significant byte first, then the bytes of the text. It
/// fails only for a text longer than a `u32` can count, which `requires`
/// leaves out.
#[verifier::external_body]
pub(crate) fn text_to_bytes(text: &str) -> (out: Vec<u8>)
    requires
        text.spec_bytes().len() <= u32::MAX,
    ensures
        out@ == text_bytes(text@),
{
    match borsh::BorshSerialize::try_to_vec(text) {
        Ok(bytes) => bytes,
        Err(_) => Vec::new(),
    }
}

/// `borsh`'s `BorshDeserialize::try_from_slice` for `String`: it reads a
/// `u32` length, then exactly that many bytes, which must be UTF-8 and the
/// end of the input.
#[verifier::external_body]
pub(crate) fn text_from_bytes(bytes: &[u8]) -> (text: Option<String>)
    ensures
        match text {
            Some(t) => text_of(bytes@) == Some(t@),
            None => text_of(bytes@) is None,
        },
{
    match <String as borsh::BorshDeserialize>::try_from_slice(bytes) {
        Ok(text) => Some(text),
        Err(_) => None,
    }
}

/// A buffer after `bytes` were written over its beginning.
pub open spec fn stored(buffer: Seq<u8>, bytes: Seq<u8>) -> Seq<u8>
    recommends
        bytes.len() <= buffer.len(),
{
    bytes + buffer.subrange(bytes.len() as int, buffer.len() as int)
}

/// Writes `bytes` over the beginning of `buffer`; what lies behind them stays.
pub(crate) fn store(buffer: &mut Vec<u8>, bytes: &[u8])
    requires
        bytes@.len() <= old(buffer)@.len(),
    ensures
        final(buffer)@ == stored(old(buffer)@, bytes@),
{
    let n: usize = bytes.len();
    let mut i: usize = 0;
    while i < n
        invariant
            i <= n,
            n == bytes@.len(),
            buffer@.len() == old(buffer)@.len(),
            n <= buffer@.len(),
            forall|j: int| 0 <= j < i ==> buffer@[j] == bytes@[j],
            forall|j: int| i <= j < buffer@.len() ==> buffer@[j] == old(buffer)@[j],
        decreases n - i,
    {
        buffer[i] = bytes[i];
        i += 1;
    }
    assert(buffer@ =~= stored(old(buffer)@, bytes@));
}

} // verus!
