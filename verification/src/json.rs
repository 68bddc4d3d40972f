//! The JSON wire format of a snapshot, stated byte for byte.
//!
//! A snapshot is serialized as a JSON array of objects, one per record and
//! in snapshot order, each with exactly the two keys `ssid` and
//! `signal_strength`. The SSID is emitted as a JSON string whose quote,
//! backslash and control bytes are escaped; the signal strength is emitted
//! as a plain decimal integer, preserved exactly over the full signed 8-bit
//! range. [`snapshot_json`] is the byte sequence every payload must equal.

use vstd::prelude::*;

use crate::telemetry::ApView;
use crate::telemetry::AccessPointRecord;

verus! {

/// The lowercase hexadecimal digit of a value below 16.
pub open spec fn hex_digit(d: u8) -> u8 {
    if d < 10 {
        (48 + d) as u8  // '0'..'9'
    } else {
        (87 + d) as u8  // 'a'..'f'
    }
}

/// The JSON escape of one SSID byte inside a string literal: quote and
/// backslash get a backslash escape, control bytes become `\u00XX` with
/// lowercase hex, every other byte stands as itself.
pub open spec fn escaped_byte(b: u8) -> Seq<u8> {
    if b == 34 {  // "
        seq![92u8, 34u8]
    } else if b == 92 {  // \
        seq![92u8, 92u8]
    } else if b < 32 {
        seq![92u8, 117u8, 48u8, 48u8, hex_digit(b / 16), hex_digit(b % 16)]
    } else {
        seq![b]
    }
}

/// The JSON escape of a whole SSID, byte by byte in order.
pub open spec fn escaped_bytes(s: Seq<u8>) -> Seq<u8>
    decreases s.len(),
{
    if s.len() == 0 {
        Seq::empty()
    } else {
        escaped_bytes(s.drop_last()) + escaped_byte(s.last())
    }
}

/// The decimal digits of a natural number, most significant first, with no
/// leading zero except for zero itself.
pub open spec fn decimal_digits(n: nat) -> Seq<u8>
    decreases n,
{
    if n < 10 {
        seq![(48 + n) as u8]
    } else {
        decimal_digits(n / 10) + seq![(48 + n % 10) as u8]
    }
}

/// The decimal rendering of a signed value: a minus sign before the digits
/// of the magnitude when negative, the digits alone otherwise.
pub open spec fn decimal_int(n: int) -> Seq<u8> {
    if n >= 0 {
        decimal_digits(n as nat)
    } else {
        seq![45u8] + decimal_digits((-n) as nat)
    }
}

/// The bytes of `{"ssid":"`, the opening of one record object.
pub open spec fn obj_open() -> Seq<u8> {
    seq![123u8, 34u8, 115u8, 115u8, 105u8, 100u8, 34u8, 58u8, 34u8]
}

/// The bytes of `","signal_strength":`, between the SSID string and the
/// signal value.
pub open spec fn obj_mid() -> Seq<u8> {
    seq![
        34u8, 44u8, 34u8, 115u8, 105u8, 103u8, 110u8, 97u8, 108u8, 95u8, 115u8, 116u8, 114u8,
        101u8, 110u8, 103u8, 116u8, 104u8, 34u8, 58u8,
    ]
}

/// The JSON object of one record: `{"ssid":"<escaped>","signal_strength":<n>}`,
/// and nothing else — exactly those two keys, in that order.
pub open spec fn record_json(r: ApView) -> Seq<u8> {
    obj_open() + escaped_bytes(r.ssid) + obj_mid() + decimal_int(r.signal_strength) + seq![125u8]
}

/// The first `n` record objects joined by commas, in sequence order.
pub open spec fn items_json(rs: Seq<ApView>, n: int) -> Seq<u8>
    decreases n,
{
    if n <= 0 {
        Seq::empty()
    } else if n == 1 {
        record_json(rs[0])
    } else {
        items_json(rs, n - 1) + seq![44u8] + record_json(rs[n - 1])
    }
}

/// The full payload: a JSON array holding one object per record, in order.
pub open spec fn snapshot_json(rs: Seq<ApView>) -> Seq<u8> {
    seq![91u8] + items_json(rs, rs.len() as int) + seq![93u8]
}

/// Appends the opening `{"ssid":"` of a record object.
fn push_obj_open(out: &mut Vec<u8>)
    ensures
        final(out)@ == old(out)@ + obj_open(),
{
    out.push(123);
    out.push(34);
    out.push(115);
    out.push(115);
    out.push(105);
    out.push(100);
    out.push(34);
    out.push(58);
    out.push(34);
    assert(out@ =~= old(out)@ + obj_open());
}

/// Appends the `","signal_strength":` separator of a record object.
fn push_obj_mid(out: &mut Vec<u8>)
    ensures
        final(out)@ == old(out)@ + obj_mid(),
{
    out.push(34);
    out.push(44);
    out.push(34);
    out.push(115);
    out.push(105);
    out.push(103);
    out.push(110);
    out.push(97);
    out.push(108);
    out.push(95);
    out.push(115);
    out.push(116);
    out.push(114);
    out.push(101);
    out.push(110);
    out.push(103);
    out.push(116);
    out.push(104);
    out.push(34);
    out.push(58);
    assert(out@ =~= old(out)@ + obj_mid());
}

/// Appends the escape of one byte of an SSID string.
fn push_escaped_byte(out: &mut Vec<u8>, b: u8)
    ensures
        final(out)@ == old(out)@ + escaped_byte(b),
{
    if b == 34 {
        out.push(92);
        out.push(34);
    } else if b == 92 {
        out.push(92);
        out.push(92);
    } else if b < 32 {
        out.push(92);
        out.push(117);
        out.push(48);
        out.push(48);
        let hi = b / 16;
        let lo = b % 16;
        out.push(if hi < 10 { 48 + hi } else { 87 + hi });
        out.push(if lo < 10 { 48 + lo } else { 87 + lo });
    } else {
        out.push(b);
    }
    assert(out@ =~= old(out)@ + escaped_byte(b));
}

/// Appends the escaped form of a whole SSID.
fn push_escaped(out: &mut Vec<u8>, s: &Vec<u8>)
    ensures
        final(out)@ == old(out)@ + escaped_bytes(s@),
{
    let mut i: usize = 0;
    while i < s.len()
        invariant
            i <= s.len(),
            out@ == old(out)@ + escaped_bytes(s@.take(i as int)),
        decreases s.len() - i,
    {
        push_escaped_byte(out, s[i]);
        i += 1;
        proof {
            let t = s@.take(i as int);
            assert(t.drop_last() =~= s@.take(i - 1));
            assert(t.last() == s@[i - 1]);
        }
    }
    proof {
        assert(s@.take(s@.len() as int) =~= s@);
    }
}

/// Appends the decimal digits of an unsigned 8-bit magnitude.
fn push_decimal_u8(out: &mut Vec<u8>, n: u8)
    ensures
        final(out)@ == old(out)@ + decimal_digits(n as nat),
{
    if n < 10 {
        out.push(48 + n);
        assert(out@ =~= old(out)@ + decimal_digits(n as nat));
    } else if n < 100 {
        out.push(48 + n / 10);
        out.push(48 + n % 10);
        proof {
            reveal_with_fuel(decimal_digits, 3);
            assert(out@ =~= old(out)@ + decimal_digits(n as nat));
        }
    } else {
        out.push(48 + n / 100);
        out.push(48 + (n / 10) % 10);
        out.push(48 + n % 10);
        proof {
            reveal_with_fuel(decimal_digits, 4);
            assert((n as nat) / 10 / 10 == (n as nat) / 100) by (nonlinear_arith);
            assert(out@ =~= old(out)@ + decimal_digits(n as nat));
        }
    }
}

/// Appends the decimal rendering of a signal strength, minus sign included,
/// over the full signed 8-bit range.
fn push_signal(out: &mut Vec<u8>, n: i8)
    ensures
        final(out)@ == old(out)@ + decimal_int(n as int),
{
    if n >= 0 {
        push_decimal_u8(out, n as u8);
    } else {
        out.push(45);
        let m: i16 = -(n as i16);
        push_decimal_u8(out, m as u8);
        assert(out@ =~= old(out)@ + decimal_int(n as int));
    }
}

/// Appends the JSON object of one record.
pub fn push_record(out: &mut Vec<u8>, r: &AccessPointRecord)
    ensures
        final(out)@ == old(out)@ + record_json(r@),
{
    push_obj_open(out);
    push_escaped(out, r.ssid.bytes());
    push_obj_mid(out);
    push_signal(out, r.signal_strength);
    out.push(125);  // }
    assert(out@ =~= old(out)@ + record_json(r@));
}

} // verus!
