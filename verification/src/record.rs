//! Records on a raw QUIC stream during session bootstrap: a 4-byte big-endian length, then
//! that many bytes. A record is never empty and never longer than the limit the two sides
//! agreed on.

use vstd::prelude::*;

use crate::error::EvalError;

verus! {

/// The number that a big-endian 4-byte prefix denotes.
pub open spec fn be_value(p: Seq<u8>) -> nat {
    (p[0] as nat) * 16777216 + (p[1] as nat) * 65536 + (p[2] as nat) * 256 + (p[3] as nat)
}

/// The big-endian 4-byte prefix of a length below 2^32.
pub open spec fn prefix_bytes(len: nat) -> Seq<u8> {
    seq![
        (len / 16777216) as u8,
        ((len / 65536) % 256) as u8,
        ((len / 256) % 256) as u8,
        (len % 256) as u8,
    ]
}

/// The prefix that goes before a record of `len` bytes when records may hold at most `max`:
/// refused (`Control`) for an empty record, one over the limit, or one whose length does not
/// fit in 32 bits.
pub fn record_prefix(len: usize, max: usize) -> (r: Result<[u8; 4], EvalError>)
    ensures
        r is Ok <==> (1 <= len <= max && len <= u32::MAX),
        match r {
            Ok(p) => p@ == prefix_bytes(len as nat),
            Err(e) => e == EvalError::Control,
        },
{
    if len == 0 || len > max {
        return Err(EvalError::Control);
    }
    if len as u64 > 0xffff_ffffu64 {
        return Err(EvalError::Control);
    }
    let v = len as u64;
    let p: [u8; 4] = [
        (v / 16777216) as u8,
        ((v / 65536) % 256) as u8,
        ((v / 256) % 256) as u8,
        (v % 256) as u8,
    ];
    assert(p@ =~= prefix_bytes(len as nat));
    Ok(p)
}

/// The body length that a record's prefix declares when records may hold at most `max`:
/// refused (`Control`) when it is zero or over the limit, before any body is read.
pub fn declared_length(prefix: [u8; 4], max: usize) -> (r: Result<usize, EvalError>)
    ensures
        r is Ok <==> (1 <= be_value(prefix@) <= max),
        match r {
            Ok(n) => n == be_value(prefix@),
            Err(e) => e == EvalError::Control,
        },
{
    let declared: u64 = (prefix[0] as u64) * 16777216 + (prefix[1] as u64) * 65536 + (
    prefix[2] as u64) * 256 + (prefix[3] as u64);
    assert(declared == be_value(prefix@));
    if declared == 0 || declared > max as u64 {
        return Err(EvalError::Control);
    }
    Ok(declared as usize)
}

/// Reading the prefix written for a record gives back the record's length.
pub proof fn prefix_round_trips(len: nat)
    requires
        len <= u32::MAX,
    ensures
        be_value(prefix_bytes(len)) == len,
{
    let a = len / 16777216;
    let b = (len / 65536) % 256;
    let c = (len / 256) % 256;
    let d = len % 256;
    assert(a < 256) by (nonlinear_arith)
        requires
            a == len / 16777216,
            len <= u32::MAX,
    ;
    assert(a * 16777216 + b * 65536 + c * 256 + d == len) by (nonlinear_arith)
        requires
            a == len / 16777216,
            b == (len / 65536) % 256,
            c == (len / 256) % 256,
            d == len % 256,
    ;
    assert(prefix_bytes(len)[0] as nat == a);
    assert(prefix_bytes(len)[1] as nat == b);
    assert(prefix_bytes(len)[2] as nat == c);
    assert(prefix_bytes(len)[3] as nat == d);
}

} // verus!
