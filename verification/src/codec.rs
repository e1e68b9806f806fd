//! The byte format of requests and records: little-endian integers of fixed
//! width, and strings as a four-byte length followed by that many bytes of
//! UTF-8. Nothing is padded.

use vstd::prelude::*;
use vstd::slice::*;
use vstd::utf8::*;

verus! {

/// The four bytes of `x`, lowest first.
pub open spec fn u32_le_bytes(x: u32) -> Seq<u8> {
    seq![
        (x % 256) as u8,
        (x / 256 % 256) as u8,
        (x / 65536 % 256) as u8,
        (x / 16777216 % 256) as u8,
    ]
}

/// The number whose little-endian bytes are `b[at]` to `b[at + 3]`.
pub open spec fn u32_le_at(b: Seq<u8>, at: int) -> u32
    recommends
        0 <= at,
        at + 4 <= b.len(),
{
    (b[at] + 256 * b[at + 1] + 65536 * b[at + 2] + 16777216 * b[at + 3]) as u32
}

/// The eight bytes of `x`, lowest first.
pub open spec fn u64_le_bytes(x: u64) -> Seq<u8> {
    u32_le_bytes((x % 4294967296) as u32) + u32_le_bytes((x / 4294967296) as u32)
}

/// The number whose little-endian bytes are `b[at]` to `b[at + 7]`.
pub open spec fn u64_le_at(b: Seq<u8>, at: int) -> u64
    recommends
        0 <= at,
        at + 8 <= b.len(),
{
    (u32_le_at(b, at) + 4294967296 * u32_le_at(b, at + 4)) as u64
}

/// Reading back what was written gives the number again, wherever it stands
/// among other bytes.
pub proof fn lemma_u32_round_trip(before: Seq<u8>, x: u32, after: Seq<u8>)
    ensures
        u32_le_bytes(x).len() == 4,
        u32_le_at(before + u32_le_bytes(x) + after, before.len() as int) == x,
{
    let b = before + u32_le_bytes(x) + after;
    let at = before.len() as int;
    assert(b[at] == u32_le_bytes(x)[0]);
    assert(b[at + 1] == u32_le_bytes(x)[1]);
    assert(b[at + 2] == u32_le_bytes(x)[2]);
    assert(b[at + 3] == u32_le_bytes(x)[3]);
}

/// Four bytes are the little-endian bytes of the number read from them.
pub proof fn lemma_u32_bytes_round_trip(b: Seq<u8>, at: int)
    requires
        0 <= at,
        at + 4 <= b.len(),
    ensures
        u32_le_bytes(u32_le_at(b, at)) == b.subrange(at, at + 4),
{
    let x = u32_le_at(b, at);
    lemma_digits(b[at] as int, b[at + 1] as int, b[at + 2] as int, b[at + 3] as int);
    assert(u32_le_bytes(x)[0] == b[at]);
    assert(u32_le_bytes(x)[1] == b[at + 1]);
    assert(u32_le_bytes(x)[2] == b[at + 2]);
    assert(u32_le_bytes(x)[3] == b[at + 3]);
    assert(u32_le_bytes(x) =~= b.subrange(at, at + 4));
}

/// Four digits to the base 256 are the digits of the number they make.
proof fn lemma_digits(b0: int, b1: int, b2: int, b3: int)
    requires
        0 <= b0 < 256,
        0 <= b1 < 256,
        0 <= b2 < 256,
        0 <= b3 < 256,
    ensures
        0 <= b0 + 256 * b1 + 65536 * b2 + 16777216 * b3 < 4294967296,
        (b0 + 256 * b1 + 65536 * b2 + 16777216 * b3) % 256 == b0,
        (b0 + 256 * b1 + 65536 * b2 + 16777216 * b3) / 256 % 256 == b1,
        (b0 + 256 * b1 + 65536 * b2 + 16777216 * b3) / 65536 % 256 == b2,
        (b0 + 256 * b1 + 65536 * b2 + 16777216 * b3) / 16777216 % 256 == b3,
{
    let x = b0 + 256 * b1 + 65536 * b2 + 16777216 * b3;
    assert(x == b0 + 256 * (b1 + 256 * b2 + 65536 * b3));
    assert(x / 256 == b1 + 256 * b2 + 65536 * b3);
    assert(x == (b0 + 256 * b1) + 65536 * (b2 + 256 * b3));
    assert(x / 65536 == b2 + 256 * b3);
    assert(x == (b0 + 256 * b1 + 65536 * b2) + 16777216 * b3);
    assert(x / 16777216 == b3);
}

/// Reading back what was written gives the number again, wherever it stands
/// among other bytes.
pub proof fn lemma_u64_round_trip(before: Seq<u8>, x: u64, after: Seq<u8>)
    ensures
        u64_le_bytes(x).len() == 8,
        u64_le_at(before + u64_le_bytes(x) + after, before.len() as int) == x,
{
    let low = (x % 4294967296) as u32;
    let high = (x / 4294967296) as u32;
    let b = before + u64_le_bytes(x) + after;
    lemma_u32_round_trip(before, low, u32_le_bytes(high) + after);
    lemma_u32_round_trip(before + u32_le_bytes(low), high, after);
    assert(b =~= before + u32_le_bytes(low) + (u32_le_bytes(high) + after));
    assert(b =~= (before + u32_le_bytes(low)) + u32_le_bytes(high) + after);
}

/// Eight bytes are the little-endian bytes of the number read from them.
pub proof fn lemma_u64_bytes_round_trip(b: Seq<u8>, at: int)
    requires
        0 <= at,
        at + 8 <= b.len(),
    ensures
        u64_le_bytes(u64_le_at(b, at)) == b.subrange(at, at + 8),
{
    let x = u64_le_at(b, at);
    assert((x % 4294967296) as u32 == u32_le_at(b, at));
    assert((x / 4294967296) as u32 == u32_le_at(b, at + 4));
    lemma_u32_bytes_round_trip(b, at);
    lemma_u32_bytes_round_trip(b, at + 4);
    assert(u64_le_bytes(x) =~= b.subrange(at, at + 8));
}

/// Reads the little-endian number at `at`.
pub fn read_u32(input: &[u8], at: usize) -> (x: u32)
    requires
        at + 4 <= input@.len(),
    ensures
        x == u32_le_at(input@, at as int),
{
    let b0: u32 = input[at] as u32;
    let b1: u32 = input[at + 1] as u32;
    let b2: u32 = input[at + 2] as u32;
    let b3: u32 = input[at + 3] as u32;
    b0 + 256 * b1 + 65536 * b2 + 16777216 * b3
}

/// Reads the little-endian number at `at`.
pub fn read_u64(input: &[u8], at: usize) -> (x: u64)
    requires
        at + 8 <= input@.len(),
    ensures
        x == u64_le_at(input@, at as int),
{
    let _ = input.len();
    let low: u64 = read_u32(input, at) as u64;
    let high: u64 = read_u32(input, at + 4) as u64;
    low + 4294967296 * high
}

/// Appends the four little-endian bytes of `x`.
pub fn write_u32(out: &mut Vec<u8>, x: u32)
    ensures
        final(out)@ == old(out)@ + u32_le_bytes(x),
{
    out.push((x % 256) as u8);
    out.push((x / 256 % 256) as u8);
    out.push((x / 65536 % 256) as u8);
    out.push((x / 16777216 % 256) as u8);
    assert(out@ =~= old(out)@ + u32_le_bytes(x));
}

/// Appends the eight little-endian bytes of `x`.
pub fn write_u64(out: &mut Vec<u8>, x: u64)
    ensures
        final(out)@ == old(out)@ + u64_le_bytes(x),
{
    write_u32(out, (x % 4294967296) as u32);
    write_u32(out, (x / 4294967296) as u32);
    assert(out@ =~= old(out)@ + u64_le_bytes(x));
}

/// Appends `bytes` as they are.
pub fn write_bytes(out: &mut Vec<u8>, bytes: &[u8])
    ensures
        final(out)@ == old(out)@ + bytes@,
{
    let n = bytes.len();
    let mut i: usize = 0;
    while i < n
        invariant
            n == bytes@.len(),
            i <= n,
            out@ == old(out)@ + bytes@.subrange(0, i as int),
        decreases n - i,
    {
        out.push(bytes[i]);
        i += 1;
        assert(out@ =~= old(out)@ + bytes@.subrange(0, i as int));
    }
    assert(bytes@.subrange(0, n as int) =~= bytes@);
}

/// Puts `bytes` in place of the first bytes of `storage`.
pub fn overwrite_front(storage: &mut Vec<u8>, bytes: &[u8])
    requires
        bytes@.len() <= old(storage)@.len(),
    ensures
        final(storage)@ == bytes@ + old(storage)@.subrange(
            bytes@.len() as int,
            old(storage)@.len() as int,
        ),
{
    let n = bytes.len();
    let mut i: usize = 0;
    while i < n
        invariant
            n == bytes@.len(),
            i <= n <= storage@.len(),
            storage@.len() == old(storage)@.len(),
            storage@ == bytes@.subrange(0, i as int) + old(storage)@.subrange(
                i as int,
                old(storage)@.len() as int,
            ),
        decreases n - i,
    {
        storage[i] = bytes[i];
        i += 1;
        assert(storage@ =~= bytes@.subrange(0, i as int) + old(storage)@.subrange(
            i as int,
            old(storage)@.len() as int,
        ));
    }
    assert(bytes@.subrange(0, n as int) =~= bytes@);
}

/// The bytes of a string: the length of its UTF-8 as four little-endian
/// bytes, then its UTF-8.
#[verifier::opaque]
pub open spec fn string_bytes(s: Seq<char>) -> Seq<u8> {
    u32_le_bytes(encode_utf8(s).len() as u32) + encode_utf8(s)
}

/// Whether the length of the string's UTF-8 can be written in four bytes.
pub open spec fn string_fits(s: Seq<char>) -> bool {
    encode_utf8(s).len() <= u32::MAX
}

/// The string that stands at `at` in `b`, and the place just behind it;
/// `None` where the length or the bytes it announces are cut short, or the
/// bytes are no UTF-8.
#[verifier::opaque]
pub open spec fn string_at(b: Seq<u8>, at: int) -> Option<(Seq<char>, int)> {
    if 0 <= at && at + 4 <= b.len() {
        let end = at + 4 + u32_le_at(b, at);
        if end <= b.len() && valid_utf8(b.subrange(at + 4, end)) {
            Some((decode_utf8(b.subrange(at + 4, end)), end))
        } else {
            None
        }
    } else {
        None
    }
}

/// A string that was written is read back, wherever it stands among other
/// bytes.
pub proof fn lemma_string_round_trip(before: Seq<u8>, s: Seq<char>, after: Seq<u8>)
    requires
        string_fits(s),
    ensures
        string_bytes(s).len() == 4 + encode_utf8(s).len(),
        string_at(before + string_bytes(s) + after, before.len() as int) == Some(
            (s, (before.len() + string_bytes(s).len()) as int),
        ),
{
    broadcast use {encode_utf8_valid_utf8, encode_utf8_decode_utf8};

    reveal(string_bytes);
    reveal(string_at);
    let body = encode_utf8(s);
    let b = before + string_bytes(s) + after;
    let at = before.len() as int;
    lemma_u32_round_trip(before, body.len() as u32, body + after);
    assert(b =~= before + u32_le_bytes(body.len() as u32) + (body + after));
    assert(b.subrange(at + 4, at + 4 + body.len()) =~= body);
}

/// Where a string is read, the bytes it was read from are the bytes of that
/// string.
pub proof fn lemma_string_at_bytes(b: Seq<u8>, at: int, s: Seq<char>, end: int)
    requires
        string_at(b, at) == Some((s, end)),
    ensures
        string_fits(s),
        0 <= at,
        at + 4 <= end <= b.len(),
        b.subrange(at, end) == string_bytes(s),
{
    broadcast use decode_utf8_encode_utf8;

    reveal(string_bytes);
    reveal(string_at);
    let body = b.subrange(at + 4, end);
    lemma_u32_bytes_round_trip(b, at);
    assert(b.subrange(at, end) =~= b.subrange(at, at + 4) + body);
}

/// Calls `String::from_utf8` of std, which turns bytes into the string they
/// encode and refuses bytes that are no UTF-8. The contract says so over
/// vstd's definition of UTF-8: the call succeeds on valid bytes and on no
/// others, and the string holds the characters that the bytes encode.
#[verifier::external_body]
fn string_from_utf8(bytes: Vec<u8>) -> (decoded: Option<String>)
    ensures
        decoded is Some <==> valid_utf8(bytes@),
        decoded matches Some(s) ==> s@ == decode_utf8(bytes@),
{
    String::from_utf8(bytes).ok()
}

/// Reads the string that stands at `at`, and says where it ends.
pub fn read_string(input: &[u8], at: usize) -> (found: Option<(String, usize)>)
    ensures
        match found {
            Some((s, end)) => string_at(input@, at as int) == Some((s@, end as int)),
            None => string_at(input@, at as int) is None,
        },
{
    proof {
        reveal(string_at);
    }
    let n = input.len();
    if at > n || n - at < 4 {
        return None;
    }
    let len = read_u32(input, at);
    let start = at + 4;
    if ((n - start) as u64) < (len as u64) {
        return None;
    }
    let end = start + len as usize;
    let body = slice_to_vec(slice_subrange(input, start, end));
    match string_from_utf8(body) {
        Some(s) => Some((s, end)),
        None => None,
    }
}

/// Appends the bytes of `s`, unless its length cannot be written in four
/// bytes: then nothing is appended.
pub fn write_string(out: &mut Vec<u8>, s: &String) -> (written: bool)
    ensures
        written == string_fits(s@),
        written ==> final(out)@ == old(out)@ + string_bytes(s@),
        !written ==> final(out)@ == old(out)@,
{
    proof {
        reveal(string_bytes);
    }
    let bytes = s.as_str().as_bytes();
    let n = bytes.len();
    if (n as u64) > (u32::MAX as u64) {
        return false;
    }
    write_u32(out, n as u32);
    write_bytes(out, bytes);
    assert(out@ =~= old(out)@ + string_bytes(s@));
    true
}

} // verus!
