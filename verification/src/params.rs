//! The instruction's parameter record and its wire codec.
//!
//! Parameters cross the transaction boundary as bytes: each text field is
//! laid out as a four-byte little-endian length followed by the field's
//! UTF-8 bytes, and the decimal precision follows as a single byte. The
//! encoder and decoder are verified against a specification-level parser,
//! and a proof shows the round trip reproduces the fields exactly.

use vstd::prelude::*;
use vstd::string::StrSliceExecFns;
use vstd::utf8::{decode_utf8, encode_utf8, valid_utf8};

verus! {

/// Parameters supplied by the caller: display name, symbol, metadata URI,
/// and decimal precision. No field is validated here; the external
/// registrar is responsible for all content checks.
pub struct InitTokenParams {
    pub name: String,
    pub symbol: String,
    pub uri: String,
    pub decimals: u8,
}

impl View for InitTokenParams {
    type V = (Seq<char>, Seq<char>, Seq<char>, u8);

    open spec fn view(&self) -> Self::V {
        (self.name@, self.symbol@, self.uri@, self.decimals)
    }
}

impl Clone for InitTokenParams {
    fn clone(&self) -> (r: Self)
        ensures
            r@ == self@,
    {
        InitTokenParams {
            name: self.name.clone(),
            symbol: self.symbol.clone(),
            uri: self.uri.clone(),
            decimals: self.decimals,
        }
    }
}

/// The four bytes of `n` in little-endian order.
pub open spec fn u32_le_bytes(n: u32) -> Seq<u8> {
    seq![
        (n & 0xff) as u8,
        ((n >> 8) & 0xff) as u8,
        ((n >> 16) & 0xff) as u8,
        ((n >> 24) & 0xff) as u8,
    ]
}

/// The value read from four little-endian bytes.
pub open spec fn u32_from_le_bytes(b: Seq<u8>) -> u32
    recommends
        b.len() == 4,
{
    (b[0] as u32) | ((b[1] as u32) << 8) | ((b[2] as u32) << 16) | ((b[3] as u32) << 24)
}

/// A text field fits on the wire when its UTF-8 byte length fits the
/// four-byte length prefix.
pub open spec fn field_fits(s: Seq<char>) -> bool {
    encode_utf8(s).len() <= u32::MAX
}

/// All three text fields fit their length prefixes.
pub open spec fn params_fit(v: (Seq<char>, Seq<char>, Seq<char>, u8)) -> bool {
    field_fits(v.0) && field_fits(v.1) && field_fits(v.2)
}

/// One encoded text field: length prefix, then the UTF-8 bytes.
pub open spec fn encode_field_spec(s: Seq<char>) -> Seq<u8> {
    u32_le_bytes(encode_utf8(s).len() as u32) + encode_utf8(s)
}

/// The full wire image of a parameter record.
pub open spec fn encode_params_spec(v: (Seq<char>, Seq<char>, Seq<char>, u8)) -> Seq<u8> {
    encode_field_spec(v.0) + encode_field_spec(v.1) + encode_field_spec(v.2) + seq![v.3]
}

/// The length prefix read at `pos`.
pub open spec fn field_len_at(bytes: Seq<u8>, pos: int) -> int {
    u32_from_le_bytes(bytes.subrange(pos, pos + 4)) as int
}

/// A whole field (prefix and payload) lies within `bytes` at `pos`.
pub open spec fn field_ok_at(bytes: Seq<u8>, pos: int) -> bool {
    &&& pos + 4 <= bytes.len()
    &&& pos + 4 + field_len_at(bytes, pos) <= bytes.len()
}

/// The payload bytes of the field at `pos`.
pub open spec fn field_bytes_at(bytes: Seq<u8>, pos: int) -> Seq<u8> {
    bytes.subrange(pos + 4, pos + 4 + field_len_at(bytes, pos))
}

/// The position just past the field at `pos`.
pub open spec fn field_end_at(bytes: Seq<u8>, pos: int) -> int {
    pos + 4 + field_len_at(bytes, pos)
}

/// The specification-level parser: three length-prefixed UTF-8 fields,
/// one decimals byte, and nothing after it.
pub open spec fn parse_params(bytes: Seq<u8>) -> Option<(Seq<char>, Seq<char>, Seq<char>, u8)> {
    if !field_ok_at(bytes, 0) {
        None
    } else {
        let p1 = field_end_at(bytes, 0);
        if !field_ok_at(bytes, p1) {
            None
        } else {
            let p2 = field_end_at(bytes, p1);
            if !field_ok_at(bytes, p2) {
                None
            } else {
                let p3 = field_end_at(bytes, p2);
                if p3 + 1 != bytes.len() {
                    None
                } else if !valid_utf8(field_bytes_at(bytes, 0)) || !valid_utf8(
                    field_bytes_at(bytes, p1),
                ) || !valid_utf8(field_bytes_at(bytes, p2)) {
                    None
                } else {
                    Some(
                        (
                            decode_utf8(field_bytes_at(bytes, 0)),
                            decode_utf8(field_bytes_at(bytes, p1)),
                            decode_utf8(field_bytes_at(bytes, p2)),
                            bytes[p3],
                        ),
                    )
                }
            }
        }
    }
}

/// Appends the four little-endian bytes of `n`.
fn push_u32_le(out: &mut Vec<u8>, n: u32)
    ensures
        final(out)@ == old(out)@ + u32_le_bytes(n),
{
    out.push((n & 0xff) as u8);
    out.push(((n >> 8) & 0xff) as u8);
    out.push(((n >> 16) & 0xff) as u8);
    out.push(((n >> 24) & 0xff) as u8);
    proof {
        assert(out@ =~= old(out)@ + u32_le_bytes(n));
    }
}

/// Encodes a parameter record to its wire image. Returns `None` exactly
/// when some text field's UTF-8 byte length overflows the length prefix.
pub fn encode_params(p: &InitTokenParams) -> (r: Option<Vec<u8>>)
    ensures
        match r {
            Some(v) => params_fit(p@) && v@ == encode_params_spec(p@),
            None => !params_fit(p@),
        },
{
    let name_bytes = p.name.as_str().as_bytes_vec();
    if name_bytes.len() > u32::MAX as usize {
        return None;
    }
    let symbol_bytes = p.symbol.as_str().as_bytes_vec();
    if symbol_bytes.len() > u32::MAX as usize {
        return None;
    }
    let uri_bytes = p.uri.as_str().as_bytes_vec();
    if uri_bytes.len() > u32::MAX as usize {
        return None;
    }
    let mut out: Vec<u8> = Vec::new();
    push_u32_le(&mut out, name_bytes.len() as u32);
    let mut name_bytes = name_bytes;
    out.append(&mut name_bytes);
    push_u32_le(&mut out, symbol_bytes.len() as u32);
    let mut symbol_bytes = symbol_bytes;
    out.append(&mut symbol_bytes);
    push_u32_le(&mut out, uri_bytes.len() as u32);
    let mut uri_bytes = uri_bytes;
    out.append(&mut uri_bytes);
    out.push(p.decimals);
    proof {
        assert(out@ =~= encode_params_spec(p@));
    }
    Some(out)
}

/// Reads a little-endian length prefix.
fn read_u32_le(bytes: &Vec<u8>, pos: usize) -> (n: u32)
    requires
        pos + 4 <= bytes@.len(),
    ensures
        n == u32_from_le_bytes(bytes@.subrange(pos as int, pos as int + 4)),
{
    let l = bytes.len();
    let b0 = bytes[pos];
    let b1 = bytes[pos + 1];
    let b2 = bytes[pos + 2];
    let b3 = bytes[pos + 3];
    proof {
        let s = bytes@.subrange(pos as int, pos as int + 4);
        assert(s[0] == bytes@[pos as int]);
        assert(s[1] == bytes@[pos as int + 1]);
        assert(s[2] == bytes@[pos as int + 2]);
        assert(s[3] == bytes@[pos as int + 3]);
    }
    (b0 as u32) | ((b1 as u32) << 8) | ((b2 as u32) << 16) | ((b3 as u32) << 24)
}

/// Copies `n` bytes starting at `pos` into a fresh vector.
fn copy_range(bytes: &Vec<u8>, pos: usize, n: usize) -> (v: Vec<u8>)
    requires
        pos + n <= bytes@.len(),
    ensures
        v@ == bytes@.subrange(pos as int, pos as int + n as int),
{
    let l = bytes.len();
    let mut v: Vec<u8> = Vec::new();
    let mut i: usize = 0;
    while i < n
        invariant
            i <= n,
            pos + n <= bytes@.len(),
            bytes@.len() <= usize::MAX,
            v@ == bytes@.subrange(pos as int, pos as int + i as int),
        decreases n - i,
    {
        v.push(bytes[pos + i]);
        proof {
            assert(v@ =~= bytes@.subrange(pos as int, pos as int + i as int + 1));
        }
        i += 1;
    }
    v
}

/// Relies on `String::from_utf8`: it returns `Ok` exactly on valid UTF-8
/// input, and the returned string's characters are the decoded bytes.
#[verifier::external_body]
fn bytes_to_string(v: Vec<u8>) -> (r: Option<String>)
    ensures
        match r {
            Some(s) => valid_utf8(v@) && s@ == decode_utf8(v@),
            None => !valid_utf8(v@),
        },
{
    match String::from_utf8(v) {
        Ok(s) => Some(s),
        Err(_) => None,
    }
}

/// Decodes a wire image back to a parameter record, exactly as the
/// specification-level parser does: `Some` on a well-formed image, `None`
/// on any truncated, oversized, trailing-garbage or non-UTF-8 input.
pub fn decode_params(bytes: &Vec<u8>) -> (r: Option<InitTokenParams>)
    ensures
        match r {
            Some(p) => parse_params(bytes@) == Some(p@),
            None => parse_params(bytes@) is None,
        },
{
    let len = bytes.len();
    if len < 4 {
        return None;
    }
    let n0 = read_u32_le(bytes, 0) as usize;
    if len - 4 < n0 {
        return None;
    }
    let p1 = 4 + n0;
    if len - p1 < 4 {
        return None;
    }
    let n1 = read_u32_le(bytes, p1) as usize;
    if len - p1 - 4 < n1 {
        return None;
    }
    let p2 = p1 + 4 + n1;
    if len - p2 < 4 {
        return None;
    }
    let n2 = read_u32_le(bytes, p2) as usize;
    if len - p2 - 4 < n2 {
        return None;
    }
    let p3 = p2 + 4 + n2;
    if len - p3 != 1 {
        return None;
    }
    let f0 = copy_range(bytes, 4, n0);
    let f1 = copy_range(bytes, p1 + 4, n1);
    let f2 = copy_range(bytes, p2 + 4, n2);
    let name = match bytes_to_string(f0) {
        Some(s) => s,
        None => {
            return None;
        },
    };
    let symbol = match bytes_to_string(f1) {
        Some(s) => s,
        None => {
            return None;
        },
    };
    let uri = match bytes_to_string(f2) {
        Some(s) => s,
        None => {
            return None;
        },
    };
    let decimals = bytes[p3];
    Some(InitTokenParams { name, symbol, uri, decimals })
}

/// Reading back four little-endian bytes yields the value written.
pub proof fn lemma_u32_le_round_trip(n: u32)
    ensures
        u32_from_le_bytes(u32_le_bytes(n)) == n,
{
    let b = u32_le_bytes(n);
    assert(((n & 0xff) as u8 as u32) | ((((n >> 8) & 0xff) as u8 as u32) << 8) | ((((n >> 16)
        & 0xff) as u8 as u32) << 16) | ((((n >> 24) & 0xff) as u8 as u32) << 24) == n)
        by (bit_vector);
}

/// A field written at `pos` (length prefix, then payload `e`) is read back
/// as exactly `e`, ending right after it.
proof fn lemma_field_at(bytes: Seq<u8>, pos: int, e: Seq<u8>)
    requires
        0 <= pos,
        e.len() <= u32::MAX,
        pos + 4 + e.len() <= bytes.len(),
        bytes.subrange(pos, pos + 4) == u32_le_bytes(e.len() as u32),
        bytes.subrange(pos + 4, pos + 4 + e.len() as int) == e,
    ensures
        field_ok_at(bytes, pos),
        field_len_at(bytes, pos) == e.len(),
        field_bytes_at(bytes, pos) == e,
        field_end_at(bytes, pos) == pos + 4 + e.len(),
{
    lemma_u32_le_round_trip(e.len() as u32);
}

/// The round-trip law: decoding the wire image of any parameter record
/// whose text fields fit their length prefixes reproduces all four field
/// values exactly.
pub proof fn lemma_params_round_trip(v: (Seq<char>, Seq<char>, Seq<char>, u8))
    requires
        params_fit(v),
    ensures
        parse_params(encode_params_spec(v)) == Some(v),
{
    broadcast use vstd::utf8::encode_utf8_valid_utf8, vstd::utf8::encode_utf8_decode_utf8;

    let e0 = encode_utf8(v.0);
    let e1 = encode_utf8(v.1);
    let e2 = encode_utf8(v.2);
    let bytes = encode_params_spec(v);
    let p1 = 4 + e0.len() as int;
    let p2 = p1 + 4 + e1.len() as int;
    let p3 = p2 + 4 + e2.len() as int;
    assert(bytes.len() == p3 + 1);
    assert(bytes.subrange(0, 4) =~= u32_le_bytes(e0.len() as u32));
    assert(bytes.subrange(4, 4 + e0.len() as int) =~= e0);
    lemma_field_at(bytes, 0, e0);
    assert(bytes.subrange(p1, p1 + 4) =~= u32_le_bytes(e1.len() as u32));
    assert(bytes.subrange(p1 + 4, p1 + 4 + e1.len() as int) =~= e1);
    lemma_field_at(bytes, p1, e1);
    assert(bytes.subrange(p2, p2 + 4) =~= u32_le_bytes(e2.len() as u32));
    assert(bytes.subrange(p2 + 4, p2 + 4 + e2.len() as int) =~= e2);
    lemma_field_at(bytes, p2, e2);
    assert(bytes[p3] == v.3);
    assert(parse_params(bytes) == Some(v));
}

} // verus!
