//! Minimal decimal rendering of the numeric fields that appear in the wire
//! format: plain ASCII digits, no leading zeros, a leading `-` for negative
//! values, and `;`-joined digit runs for byte sequences.

use vstd::prelude::*;

verus! {

/// ASCII minus sign.
pub const MINUS: u8 = 45;

/// ASCII semicolon, the separator between joined decimal values.
pub const SEMICOLON: u8 = 59;

/// Decimal digits of `n`, most significant first, with no leading zeros
/// (`0` itself renders as a single `0` digit).
pub open spec fn decimal(n: nat) -> Seq<u8>
    decreases n,
{
    if n < 10 {
        seq![(48 + n) as u8]
    } else {
        decimal(n / 10) + seq![(48 + n % 10) as u8]
    }
}

/// Decimal rendering of a signed value: the digits of its magnitude,
/// preceded by `-` when negative.
pub open spec fn signed_decimal(n: int) -> Seq<u8> {
    if n < 0 {
        seq![MINUS] + decimal((-n) as nat)
    } else {
        decimal(n as nat)
    }
}

/// Decimal renderings of each byte of `s`, joined by `;` with no trailing
/// separator; empty input renders as no bytes at all.
pub open spec fn joined_decimals(s: Seq<u8>) -> Seq<u8>
    decreases s.len(),
{
    if s.len() == 0 {
        Seq::empty()
    } else if s.len() == 1 {
        decimal(s[0] as nat)
    } else {
        joined_decimals(s.drop_last()) + seq![SEMICOLON] + decimal(s.last() as nat)
    }
}

/// Append the decimal digits of `n` to `sink`.
pub fn write_u64(n: u64, sink: &mut Vec<u8>)
    ensures
        final(sink)@ == old(sink)@ + decimal(n as nat),
    decreases n,
{
    if n < 10 {
        sink.push(48 + (n as u8));
    } else {
        write_u64(n / 10, sink);
        sink.push(48 + ((n % 10) as u8));
        assert(sink@ =~= old(sink)@ + decimal(n as nat));
    }
}

/// Append the signed decimal rendering of `n` to `sink`.
pub fn write_i32(n: i32, sink: &mut Vec<u8>)
    ensures
        final(sink)@ == old(sink)@ + signed_decimal(n as int),
{
    if n < 0 {
        sink.push(MINUS);
        let magnitude: u64 = (-(n as i64)) as u64;
        write_u64(magnitude, sink);
        assert(sink@ =~= old(sink)@ + signed_decimal(n as int));
    } else {
        write_u64(n as u64, sink);
    }
}

/// Append the `;`-joined decimal renderings of the bytes of `data` to `sink`.
pub fn write_joined(data: &Vec<u8>, sink: &mut Vec<u8>)
    ensures
        final(sink)@ == old(sink)@ + joined_decimals(data@),
{
    let n = data.len();
    let mut i: usize = 0;
    while i < n
        invariant
            i <= n,
            n == data@.len(),
            sink@ == old(sink)@ + joined_decimals(data@.take(i as int)),
        decreases n - i,
    {
        if i > 0 {
            sink.push(SEMICOLON);
        }
        write_u64(data[i] as u64, sink);
        proof {
            let pts = data@;
            assert(pts.take(i + 1).drop_last() =~= pts.take(i as int));
            assert(pts.take(i + 1).last() == pts[i as int]);
            assert(sink@ =~= old(sink)@ + joined_decimals(pts.take(i + 1)));
        }
        i += 1;
    }
    assert(data@.take(n as int) =~= data@);
}

} // verus!
