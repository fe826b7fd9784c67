//! The two pure codecs of the updater: the sign-magnitude 8-byte integer of
//! the BSDIFF40 format, and the 40-character hex form of a SHA-1 digest.

use vstd::arithmetic::div_mod::lemma_fundamental_div_mod;
use vstd::prelude::*;

use crate::error::{Error, ManifestFault};

verus! {

/// The magnitude encoded by an 8-byte sign-magnitude field: the low 7 bits
/// of byte 7, then bytes 6 down to 0, little-endian.
pub open spec fn offtin_mag(b: Seq<u8>) -> int
    recommends
        b.len() >= 8,
{
    (((((((b[7] & 0x7f) * 0x100 + b[6]) * 0x100 + b[5]) * 0x100 + b[4]) * 0x100 + b[3]) * 0x100
        + b[2]) * 0x100 + b[1]) * 0x100 + b[0]
}

/// The value encoded by an 8-byte sign-magnitude field: the magnitude,
/// negated when bit 7 of byte 7 is set. `0x80 00 .. 00` encodes `-0`, which
/// is `0`.
pub open spec fn offtin_spec(b: Seq<u8>) -> int
    recommends
        b.len() >= 8,
{
    if b[7] & 0x80 != 0 {
        -offtin_mag(b)
    } else {
        offtin_mag(b)
    }
}

/// The magnitude always fits a signed 64-bit integer: it has only 63 bits.
pub proof fn lemma_offtin_bounds(b: Seq<u8>)
    requires
        b.len() >= 8,
    ensures
        0 <= offtin_mag(b) < 0x8000_0000_0000_0000,
        -0x8000_0000_0000_0000 < offtin_spec(b) < 0x8000_0000_0000_0000,
{
    let top = b[7];
    assert(forall|x: u8| #[trigger] (x & 0x7f) <= 0x7f) by (bit_vector);
    assert(top & 0x7f <= 0x7f);
}

/// Decodes an 8-byte sign-magnitude field, as the BSDIFF40 format stores
/// offsets and lengths.
pub fn offtin(buf: &[u8]) -> (n: i64)
    requires
        buf@.len() >= 8,
    ensures
        n == offtin_spec(buf@),
{
    proof {
        lemma_offtin_bounds(buf@);
        assert(forall|x: u8| #[trigger] (x & 0x7f) <= 0x7f) by (bit_vector);
    }
    let mut y: i64 = (buf[7] & 0x7f) as i64;
    y = y * 256 + buf[6] as i64;
    y = y * 256 + buf[5] as i64;
    y = y * 256 + buf[4] as i64;
    y = y * 256 + buf[3] as i64;
    y = y * 256 + buf[2] as i64;
    y = y * 256 + buf[1] as i64;
    y = y * 256 + buf[0] as i64;
    if (buf[7] & 0x80) != 0 {
        y = -y;
    }
    y
}

/// The 8-byte sign-magnitude encoding of `n`: little-endian magnitude, the
/// sign as bit 7 of byte 7. A negative `n` is the only source of a set sign
/// bit, so `-0` is never produced.
pub open spec fn offtout_spec(n: int) -> Seq<u8>
    recommends
        -0x8000_0000_0000_0000 < n < 0x8000_0000_0000_0000,
{
    let m = if n < 0 {
        -n
    } else {
        n
    };
    let q1 = m / 0x100;
    let q2 = q1 / 0x100;
    let q3 = q2 / 0x100;
    let q4 = q3 / 0x100;
    let q5 = q4 / 0x100;
    let q6 = q5 / 0x100;
    let q7 = q6 / 0x100;
    let b7 = if n < 0 {
        q7 + 0x80
    } else {
        q7
    };
    seq![
        (m % 0x100) as u8,
        (q1 % 0x100) as u8,
        (q2 % 0x100) as u8,
        (q3 % 0x100) as u8,
        (q4 % 0x100) as u8,
        (q5 % 0x100) as u8,
        (q6 % 0x100) as u8,
        b7 as u8,
    ]
}

/// Encodes a 64-bit integer in the 8-byte sign-magnitude form.
pub fn offtout(n: i64) -> (r: Vec<u8>)
    requires
        n > i64::MIN,
    ensures
        r@ == offtout_spec(n as int),
        r@.len() == 8,
{
    let neg = n < 0;
    let m: u64 = if neg {
        (-n) as u64
    } else {
        n as u64
    };
    let q1 = m / 0x100;
    let q2 = q1 / 0x100;
    let q3 = q2 / 0x100;
    let q4 = q3 / 0x100;
    let q5 = q4 / 0x100;
    let q6 = q5 / 0x100;
    let q7 = q6 / 0x100;
    let b7: u64 = if neg {
        q7 + 0x80
    } else {
        q7
    };
    let mut r: Vec<u8> = Vec::new();
    r.push((m % 0x100) as u8);
    r.push((q1 % 0x100) as u8);
    r.push((q2 % 0x100) as u8);
    r.push((q3 % 0x100) as u8);
    r.push((q4 % 0x100) as u8);
    r.push((q5 % 0x100) as u8);
    r.push((q6 % 0x100) as u8);
    r.push(b7 as u8);
    proof {
        assert(r@ =~= offtout_spec(n as int));
    }
    r
}

/// Law: decoding the encoding of any representable 64-bit integer yields the
/// integer back. (`-0` is never encoded, so the round trip has no exception.)
pub proof fn lemma_offtin_round_trip(n: int)
    requires
        -0x8000_0000_0000_0000 < n < 0x8000_0000_0000_0000,
    ensures
        offtin_spec(offtout_spec(n)) == n,
{
    let m = if n < 0 {
        -n
    } else {
        n
    };
    let q1 = m / 0x100;
    let q2 = q1 / 0x100;
    let q3 = q2 / 0x100;
    let q4 = q3 / 0x100;
    let q5 = q4 / 0x100;
    let q6 = q5 / 0x100;
    let q7 = q6 / 0x100;
    lemma_fundamental_div_mod(m, 0x100);
    lemma_fundamental_div_mod(q1, 0x100);
    lemma_fundamental_div_mod(q2, 0x100);
    lemma_fundamental_div_mod(q3, 0x100);
    lemma_fundamental_div_mod(q4, 0x100);
    lemma_fundamental_div_mod(q5, 0x100);
    lemma_fundamental_div_mod(q6, 0x100);
    assert(q7 < 0x80);
    let b = offtout_spec(n);
    let b7: u8 = b[7];
    if n < 0 {
        assert(b7 == (q7 + 0x80) as u8);
        assert({
            &&& (b7 & 0x7f) == b7 - 0x80
            &&& (b7 & 0x80) != 0
        }) by (bit_vector)
            requires
                0x80 <= b7 < 0x100,
        ;
    } else {
        assert(b7 == q7 as u8);
        assert({
            &&& (b7 & 0x7f) == b7
            &&& (b7 & 0x80) == 0
        }) by (bit_vector)
            requires
                b7 < 0x80,
        ;
    }
    assert(offtin_mag(b) == m);
}

/// Is `b` an ASCII hex digit (`0-9`, `a-f`, `A-F`)?
pub open spec fn is_hex_digit(b: u8) -> bool {
    (0x30 <= b && b <= 0x39) || (0x61 <= b && b <= 0x66) || (0x41 <= b && b <= 0x46)
}

/// The value of one hex digit.
pub open spec fn hex_val(b: u8) -> u8
    recommends
        is_hex_digit(b),
{
    if 0x30 <= b && b <= 0x39 {
        (b - 0x30) as u8
    } else if 0x61 <= b && b <= 0x66 {
        (b - 0x61 + 10) as u8
    } else {
        (b - 0x41 + 10) as u8
    }
}

/// Does `s` spell a digest: exactly 40 hex digits?
pub open spec fn valid_hex_digest(s: Seq<u8>) -> bool {
    s.len() == 40 && (forall|i: int| 0 <= i < 40 ==> is_hex_digit(s[i]))
}

/// The 20-byte digest spelled by 40 hex digits, high nibble first.
pub open spec fn digest_of_hex(s: Seq<u8>) -> Seq<u8>
    recommends
        valid_hex_digest(s),
{
    Seq::new(20, |i: int| (hex_val(s[2 * i]) * 16 + hex_val(s[2 * i + 1])) as u8)
}

/// The error a malformed digest string draws: length first, then the digits.
pub open spec fn hex_fault(s: Seq<u8>) -> Error
    recommends
        !valid_hex_digest(s),
{
    if s.len() != 40 {
        Error::BadManifestFormat(ManifestFault::HexBadLength)
    } else {
        Error::BadManifestFormat(ManifestFault::HexBadChar)
    }
}

/// What parsing a digest string yields: the digest, or the fault.
pub open spec fn parse_hex_digest(s: Seq<u8>) -> Result<Seq<u8>, Error> {
    if valid_hex_digest(s) {
        Ok(digest_of_hex(s))
    } else {
        Err(hex_fault(s))
    }
}

/// Parses the 40-character hex spelling of a SHA-1 digest, as the manifest
/// carries digests. Accepts both letter cases; rejects any other character,
/// and any other length.
pub fn sha_from_hash_str(hash_str: &[u8]) -> (r: Result<Vec<u8>, Error>)
    ensures
        match r {
            Ok(d) => parse_hex_digest(hash_str@) == Ok::<Seq<u8>, Error>(d@) && d@.len() == 20,
            Err(e) => parse_hex_digest(hash_str@) == Err::<Seq<u8>, Error>(e),
        },
{
    if hash_str.len() != 40 {
        return Err(Error::BadManifestFormat(ManifestFault::HexBadLength));
    }
    let mut digest: Vec<u8> = Vec::new();
    let mut j: usize = 0;
    while j < 20
        invariant
            hash_str@.len() == 40,
            0 <= j <= 20,
            digest@.len() == j,
            forall|i: int| 0 <= i < 2 * j ==> is_hex_digit(hash_str@[i]),
            forall|i: int|
                0 <= i < j ==> digest@[i] == (hex_val(hash_str@[2 * i]) * 16 + hex_val(
                    hash_str@[2 * i + 1],
                )) as u8,
        decreases 20 - j,
    {
        let hi = hash_str[2 * j];
        let lo = hash_str[2 * j + 1];
        let hv = match hex_digit_value(hi) {
            Some(v) => v,
            None => {
                assert(!is_hex_digit(hash_str@[2 * j as int]));
                return Err(Error::BadManifestFormat(ManifestFault::HexBadChar));
            },
        };
        let lv = match hex_digit_value(lo) {
            Some(v) => v,
            None => {
                assert(!is_hex_digit(hash_str@[2 * j as int + 1]));
                return Err(Error::BadManifestFormat(ManifestFault::HexBadChar));
            },
        };
        digest.push(hv * 16 + lv);
        j += 1;
    }
    proof {
        assert(digest@ =~= digest_of_hex(hash_str@));
    }
    Ok(digest)
}

/// The value of one hex digit, or `None` for any other character.
fn hex_digit_value(b: u8) -> (r: Option<u8>)
    ensures
        match r {
            Some(v) => is_hex_digit(b) && v == hex_val(b) && v < 16,
            None => !is_hex_digit(b),
        },
{
    if 0x30 <= b && b <= 0x39 {
        Some(b - 0x30)
    } else if 0x61 <= b && b <= 0x66 {
        Some(b - 0x61 + 10)
    } else if 0x41 <= b && b <= 0x46 {
        Some(b - 0x41 + 10)
    } else {
        None
    }
}

/// The hex spelling of a digest, lower case, two digits per byte.
pub open spec fn hex_of_digest(d: Seq<u8>) -> Seq<u8> {
    Seq::new(2 * d.len(), |i: int| hex_digit_char((if i % 2 == 0 { d[i / 2] / 16 } else { d[i / 2] % 16 }) as u8))
}

/// The lower-case hex digit for a nibble value.
pub open spec fn hex_digit_char(v: u8) -> u8
    recommends
        v < 16,
{
    if v < 10 {
        (0x30 + v) as u8
    } else {
        (0x61 + v - 10) as u8
    }
}

/// Spells a digest (or any byte string) in lower-case hex.
pub fn hex_of(d: &[u8]) -> (r: Vec<u8>)
    ensures
        r@ == hex_of_digest(d@),
{
    let mut r: Vec<u8> = Vec::new();
    let mut i: usize = 0;
    while i < d.len()
        invariant
            0 <= i <= d@.len(),
            r@.len() == 2 * i,
            forall|k: int| 0 <= k < 2 * i ==> r@[k] == hex_of_digest(d@)[k],
        decreases d@.len() - i,
    {
        let hi = d[i] / 16;
        let lo = d[i] % 16;
        r.push(hex_digit_exec(hi));
        r.push(hex_digit_exec(lo));
        i += 1;
    }
    proof {
        assert(r@ =~= hex_of_digest(d@));
    }
    r
}

/// The lower-case hex digit for a nibble value.
fn hex_digit_exec(v: u8) -> (r: u8)
    requires
        v < 16,
    ensures
        r == hex_digit_char(v),
{
    if v < 10 {
        0x30 + v
    } else {
        0x61 + v - 10
    }
}

/// Law: parsing the hex spelling of any digest yields the digest back, for
/// the lower-case spelling and for any mixed-case respelling of it.
pub proof fn lemma_hex_round_trip(d: Seq<u8>)
    requires
        d.len() == 20,
    ensures
        parse_hex_digest(hex_of_digest(d)) == Ok::<Seq<u8>, Error>(d),
{
    let s = hex_of_digest(d);
    assert forall|i: int| 0 <= i < 40 implies is_hex_digit(s[i]) by {
        assert(d[i / 2] / 16 < 16 && d[i / 2] % 16 < 16);
    }
    assert(valid_hex_digest(s));
    assert forall|i: int| 0 <= i < 20 implies digest_of_hex(s)[i] == d[i] by {
        assert(s[2 * i] == hex_digit_char((d[i] / 16) as u8));
        assert(s[2 * i + 1] == hex_digit_char((d[i] % 16) as u8));
        assert(hex_val(hex_digit_char((d[i] / 16) as u8)) == d[i] / 16);
        assert(hex_val(hex_digit_char((d[i] % 16) as u8)) == d[i] % 16);
        assert(d[i] == 16 * (d[i] / 16) + d[i] % 16) by {
            lemma_fundamental_div_mod(d[i] as int, 16);
        }
    }
    assert(digest_of_hex(s) =~= d);
}

} // verus!
