//! Text at the foreign boundary: zero-terminated byte strings going out, bounded
//! buffers coming back.

use vstd::prelude::*;
use vstd::string::StringSliceAdditionalSpecFns;
use vstd::utf8::{decode_utf8, valid_utf8};
use crate::error::Error;
use crate::layout::read_bytes;

verus! {

/// `i` is the position of the first zero byte of `s`.
pub open spec fn nul_at(s: Seq<u8>, i: int) -> bool {
    &&& 0 <= i < s.len()
    &&& s[i] == 0u8
    &&& forall|j: int| 0 <= j < i ==> s[j] != 0u8
}

/// `s` holds no zero byte.
pub open spec fn nul_free(s: Seq<u8>) -> bool {
    forall|j: int| 0 <= j < s.len() ==> s[j] != 0u8
}

/// The bytes of `s` in front of its first zero byte; `None` where `s` holds none.
pub open spec fn before_nul(s: Seq<u8>) -> Option<Seq<u8>> {
    if exists|i: int| nul_at(s, i) {
        Some(s.take(choose|i: int| nul_at(s, i)))
    } else {
        None
    }
}

/// The first `len` bytes of `s`; `None` where `len` is negative or past the end.
pub open spec fn counted(s: Seq<u8>, len: int) -> Option<Seq<u8>> {
    if 0 <= len <= s.len() {
        Some(s.take(len))
    } else {
        None
    }
}

/// The first `len` bytes of `s`, where `len` is within the `limit` that was asked
/// for and within `s`; `None` where it is negative or past either.
pub open spec fn counted_within(s: Seq<u8>, len: int, limit: int) -> Option<Seq<u8>> {
    if len <= limit {
        counted(s, len)
    } else {
        None
    }
}

/// The text that the bytes `s` spell, or the reason why they spell none:
/// `s` is `None` for a buffer that was cut short, and bytes that are no UTF-8 are
/// an encoding error.
pub open spec fn spelled(s: Option<Seq<u8>>) -> Result<Seq<char>, Error> {
    match s {
        None => Err(Error::Truncated),
        Some(bytes) => if valid_utf8(bytes) {
            Ok(decode_utf8(bytes))
        } else {
            Err(Error::Encoding)
        },
    }
}

/// A result of this module against the text it ought to be.
pub open spec fn spells(r: Result<String, Error>, want: Result<Seq<char>, Error>) -> bool {
    match r {
        Ok(s) => want == Ok::<Seq<char>, Error>(s@),
        Err(e) => want == Err::<Seq<char>, Error>(e),
    }
}

/// Whether a string can cross the boundary: its bytes hold no zero byte.
pub open spec fn sendable(text: &str) -> bool {
    nul_free(text.spec_bytes())
}

/// A string as it crosses the boundary: its bytes, then one zero byte.
pub open spec fn wire(text: &str) -> Seq<u8> {
    text.spec_bytes().push(0u8)
}

/// A first zero byte, where there is one, is at one position only.
pub proof fn nul_at_unique(s: Seq<u8>, i: int, j: int)
    requires
        nul_at(s, i),
        nul_at(s, j),
    ensures
        i == j,
{
    if i < j {
        assert(s[i] != 0u8);
    } else if j < i {
        assert(s[j] != 0u8);
    }
}

/// With the first zero byte at `i`, the text in front of it is the first `i` bytes.
pub proof fn before_nul_is_take(s: Seq<u8>, i: int)
    requires
        nul_at(s, i),
    ensures
        before_nul(s) == Some(s.take(i)),
{
    let k = choose|k: int| nul_at(s, k);
    nul_at_unique(s, i, k);
}

/// A buffer without a zero byte holds no terminated text.
pub proof fn before_nul_of_nul_free(s: Seq<u8>)
    requires
        nul_free(s),
    ensures
        before_nul(s) is None,
{
    if exists|i: int| nul_at(s, i) {
        let k = choose|k: int| nul_at(s, k);
        assert(s[k] != 0u8);
    }
}

/// What is marshalled can be read back: the text in front of the first zero byte
/// of the wire form of a string that can cross the boundary is that string.
pub proof fn wire_round_trip(text: &str)
    requires
        sendable(text),
    ensures
        before_nul(wire(text)) == Some(text.spec_bytes()),
        spelled(before_nul(wire(text))) == Ok::<Seq<char>, Error>(text@),
{
    let bytes = text.spec_bytes();
    assert(nul_at(wire(text), bytes.len() as int));
    before_nul_is_take(wire(text), bytes.len() as int);
    assert(wire(text).take(bytes.len() as int) =~= bytes);
    vstd::utf8::encode_utf8_valid_utf8(text@);
    vstd::utf8::encode_utf8_decode_utf8(text@);
}

/// The position of the first zero byte of `buf`, if it holds one.
pub fn find_nul(buf: &[u8]) -> (r: Option<usize>)
    ensures
        match r {
            Some(i) => nul_at(buf@, i as int),
            None => nul_free(buf@),
        },
{
    let mut i: usize = 0;
    while i < buf.len()
        invariant
            i <= buf@.len(),
            forall|j: int| 0 <= j < i ==> buf@[j] != 0u8,
        decreases buf@.len() - i,
    {
        if buf[i] == 0 {
            return Some(i);
        }
        i += 1;
    }
    None
}

/// `String::from_utf8` of the standard library: the string that `bytes` encode,
/// and `None` exactly where they are not well-formed UTF-8.
#[verifier::external_body]
fn utf8_string(bytes: Vec<u8>) -> (r: Option<String>)
    ensures
        r is Some <==> valid_utf8(bytes@),
        r matches Some(s) ==> s@ == decode_utf8(bytes@),
{
    match String::from_utf8(bytes) {
        Ok(s) => Some(s),
        Err(_) => None,
    }
}

/// The text that `bytes` encode, or an encoding error.
pub fn decode(bytes: Vec<u8>) -> (r: Result<String, Error>)
    ensures
        spells(r, spelled(Some(bytes@))),
{
    match utf8_string(bytes) {
        Some(s) => Ok(s),
        None => Err(Error::Encoding),
    }
}

/// Marshals a string for the foreign side: its bytes, then one zero byte.
///
/// A string that itself holds a zero byte cannot cross the boundary and is
/// rejected as an encoding error.
pub fn c_string(text: &str) -> (r: Result<Vec<u8>, Error>)
    ensures
        match r {
            Ok(v) => sendable(text) && v@ == wire(text),
            Err(e) => !sendable(text) && e == Error::Encoding,
        },
{
    let bytes = text.as_bytes();
    match find_nul(bytes) {
        Some(i) => {
            assert(bytes@[i as int] == 0u8);
            Err(Error::Encoding)
        },
        None => {
            let mut v = read_bytes(bytes, 0, bytes.len());
            assert(bytes@.subrange(0, bytes@.len() as int) =~= bytes@);
            v.push(0);
            Ok(v)
        },
    }
}

/// Reads the text in front of the first zero byte of a returned buffer.
///
/// A buffer without a zero byte was cut short; bytes that are no UTF-8 are an
/// encoding error.
pub fn text_until_nul(buf: &[u8]) -> (r: Result<String, Error>)
    ensures
        spells(r, spelled(before_nul(buf@))),
{
    match find_nul(buf) {
        Some(i) => {
            proof {
                before_nul_is_take(buf@, i as int);
            }
            decode(read_bytes(buf, 0, i))
        },
        None => {
            proof {
                before_nul_of_nul_free(buf@);
            }
            Err(Error::Truncated)
        },
    }
}

/// Reads the first `len` bytes of a returned buffer as text, `len` being the
/// length that the foreign side reported.
///
/// A length that is negative or larger than the buffer is reported as truncation;
/// bytes that are no UTF-8 are an encoding error.
pub fn text_of_len(buf: &[u8], len: i32) -> (r: Result<String, Error>)
    ensures
        spells(r, spelled(counted(buf@, len as int))),
{
    if len < 0 || len as usize > buf.len() {
        Err(Error::Truncated)
    } else {
        decode(read_bytes(buf, 0, len as usize))
    }
}

} // verus!
