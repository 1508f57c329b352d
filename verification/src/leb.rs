//! The LEB128 variable-length integer encodings used throughout a module.
//!
//! `leb128_u32_at` and `leb128_s_at` say what a well-formed encoding at a
//! given position of a byte sequence denotes, and with which errors a
//! malformed one is rejected; the byte cursor's read methods are specified
//! against them.  `leb128_u32_encode` and `leb128_s_encode` are the matching
//! encoders, and the round-trip lemmas at the end of the file show that
//! decoding an encoded value gives the value back, over the full range of
//! `u32` and of the signed widths 32, 33 and 64.

use vstd::prelude::*;
use vstd::arithmetic::power2::pow2;

verus! {

/// Errors of the byte cursor, the lowest layer of the reader stack.
#[derive(PartialEq, Eq, Structural, Clone, Copy, Debug)]
pub enum BinaryReaderError {
    UnexpectedEof,
    InvalidU32,
    InvalidS32,
    InvalidS64,
    InvalidS33,
    InvalidUtf8,
    InvalidElementTypeByte,
    InvalidLimitsByte,
    InvalidValueTypeByte,
    InvalidMutableByte,
}

/// What an unsigned LEB128 `u32` at position `i` of `s` denotes, together
/// with the position just past it.  Groups of seven bits are little-endian;
/// the high bit of each byte says whether another byte follows.  On the fifth
/// byte the four high bits must be zero, which also rules out a sixth byte.
pub open spec fn leb128_u32_rec(s: Seq<u8>, i: int, shift: nat) -> Result<(nat, int), BinaryReaderError>
    decreases 28 - shift when shift % 7 == 0 && shift <= 28
{
    if !(0 <= i < s.len()) {
        Err(BinaryReaderError::UnexpectedEof)
    } else {
        let b = s[i] as nat;
        if shift == 28 {
            if b / 16 != 0 {
                Err(BinaryReaderError::InvalidU32)
            } else {
                Ok((b * pow2(28), i + 1))
            }
        } else if b < 128 {
            Ok((b * pow2(shift), i + 1))
        } else {
            match leb128_u32_rec(s, i + 1, (shift + 7) as nat) {
                Ok((v, j)) => Ok((((b - 128) * pow2(shift) + v) as nat, j)),
                Err(e) => Err(e),
            }
        }
    }
}

pub open spec fn leb128_u32_at(s: Seq<u8>, i: int) -> Result<(nat, int), BinaryReaderError> {
    leb128_u32_rec(s, i, 0)
}

/// The value of the low `bits` bits `raw`, read as a two's-complement number
/// of width `bits`.
pub open spec fn sign_extend(raw: nat, bits: nat) -> int
    recommends
        bits >= 1,
        raw < pow2(bits),
{
    if raw < pow2((bits - 1) as nat) {
        raw as int
    } else {
        raw - pow2(bits)
    }
}

/// What a signed LEB128 number of `width` bits (32, 33 or 64) at position `i`
/// of `s` denotes.  On the last permissible byte — the one whose seven value
/// bits would reach past `width` — the continuation bit must be clear and the
/// bits at and above the sign position must all equal the sign bit.
pub open spec fn leb128_s_rec(s: Seq<u8>, i: int, shift: nat, width: nat, err: BinaryReaderError) -> Result<(int, int), BinaryReaderError>
    decreases width - shift when shift % 7 == 0 && shift < width
{
    if !(0 <= i < s.len()) {
        Err(BinaryReaderError::UnexpectedEof)
    } else {
        let b = s[i] as nat;
        let low = b % 128;
        if shift + 7 >= width {
            // Final byte: `nbits` value bits remain, bit `nbits - 1` of this
            // byte is the sign, and the bits above it up to bit 6 are unused.
            let nbits = (width - shift) as nat;
            let tail = low / pow2((nbits - 1) as nat);
            if b >= 128 || !(tail == 0 || tail == pow2((8 - nbits) as nat) - 1) {
                Err(err)
            } else {
                Ok((sign_extend(low % pow2(nbits), nbits) * pow2(shift), i + 1))
            }
        } else if b < 128 {
            Ok((sign_extend(low, 7) * pow2(shift), i + 1))
        } else {
            match leb128_s_rec(s, i + 1, (shift + 7) as nat, width, err) {
                Ok((v, j)) => Ok((low * pow2(shift) + v, j)),
                Err(e) => Err(e),
            }
        }
    }
}

pub open spec fn leb128_s32_at(s: Seq<u8>, i: int) -> Result<(int, int), BinaryReaderError> {
    leb128_s_rec(s, i, 0, 32, BinaryReaderError::InvalidS32)
}

pub open spec fn leb128_s33_at(s: Seq<u8>, i: int) -> Result<(int, int), BinaryReaderError> {
    leb128_s_rec(s, i, 0, 33, BinaryReaderError::InvalidS33)
}

pub open spec fn leb128_s64_at(s: Seq<u8>, i: int) -> Result<(int, int), BinaryReaderError> {
    leb128_s_rec(s, i, 0, 64, BinaryReaderError::InvalidS64)
}

/// The last permissible byte of an `s64` encoding: only `0x00` and `0x7f`
/// are accepted there, denoting 0 and -2^63 times nothing accumulated below.
pub proof fn lemma_leb128_s64_final_byte(s: Seq<u8>, q: int)
    requires
        0 <= q < s.len(),
    ensures
        s[q] == 0 ==> leb128_s_rec(s, q, 63, 64, BinaryReaderError::InvalidS64)
            == Ok::<(int, int), BinaryReaderError>((0, q + 1)),
        s[q] == 0x7f ==> leb128_s_rec(s, q, 63, 64, BinaryReaderError::InvalidS64)
            == Ok::<(int, int), BinaryReaderError>((-0x8000_0000_0000_0000, q + 1)),
        !(s[q] == 0 || s[q] == 0x7f) ==> leb128_s_rec(s, q, 63, 64, BinaryReaderError::InvalidS64)
            == Err::<(int, int), BinaryReaderError>(BinaryReaderError::InvalidS64),
{
    vstd::arithmetic::power2::lemma2_to64();
    vstd::arithmetic::power2::lemma2_to64_rest();
    let b = s[q] as nat;
    let low = b % 128;
    assert(low / pow2(0) == low);
    assert(pow2(7) - 1 == 127);
    if s[q] == 0 {
        assert(sign_extend(0nat % pow2(1), 1) * pow2(63) == 0);
    } else if s[q] == 0x7f {
        assert(127nat % pow2(1) == 1);
        assert(sign_extend(1, 1) == 1 - pow2(1));
        assert(sign_extend(1, 1) * pow2(63) == -0x8000_0000_0000_0000);
    } else if b < 128 {
        assert(low == b);
        assert(low / pow2(0) == b);
        assert(!(b == 0 || b == 127));
    }
}

/// The canonical unsigned LEB128 encoding of `x`: seven bits per byte,
/// little-endian, the high bit set on every byte but the last.
pub open spec fn leb128_u32_encode(x: nat) -> Seq<u8>
    decreases x,
{
    if x < 128 {
        seq![x as u8]
    } else {
        seq![(x % 128 + 128) as u8] + leb128_u32_encode(x / 128)
    }
}

/// The canonical signed LEB128 encoding of `x`: seven bits per byte,
/// little-endian, ending with the byte whose sign bit already matches `x`.
pub open spec fn leb128_s_encode(x: int) -> Seq<u8>
    decreases (if x < 0 { -x } else { x }),
{
    if -64 <= x < 64 {
        seq![((x + 128) % 128) as u8]
    } else {
        seq![(x % 128 + 128) as u8] + leb128_s_encode(x / 128)
    }
}

/// Decoding inverts encoding, at any group position: an encoding of `x`
/// lying at position `i` of `s` decodes to `x` scaled by the position's
/// weight, consuming exactly the encoding.
#[verifier::rlimit(100)]
#[verifier::spinoff_prover]
proof fn lemma_leb128_u32_roundtrip_rec(s: Seq<u8>, i: int, x: nat, shift: nat)
    requires
        shift % 7 == 0,
        shift <= 28,
        x < pow2((32 - shift) as nat),
        0 <= i,
        i + leb128_u32_encode(x).len() <= s.len(),
        s.subrange(i, i + leb128_u32_encode(x).len()) == leb128_u32_encode(x),
    ensures
        leb128_u32_rec(s, i, shift) == Ok::<(nat, int), BinaryReaderError>(
            (x * pow2(shift), i + leb128_u32_encode(x).len()),
        ),
    decreases x,
{
    vstd::arithmetic::power2::lemma2_to64();
    let enc = leb128_u32_encode(x);
    assert(s[i] == enc[0]);
    if x < 128 {
        assert(s[i] == x as u8);
        if shift == 28 {
            assert(x < pow2(4));
            assert((s[i] as nat) / 16 == 0);
        }
    } else {
        assert(x < pow2((32 - shift) as nat));
        if shift + 7 > 28 {
            assert(pow2((32 - shift) as nat) <= pow2(4)) by {
                if 32 - shift < 4 {
                    vstd::arithmetic::power2::lemma_pow2_strictly_increases(
                        (32 - shift) as nat,
                        4,
                    );
                }
            }
            assert(false);
        }
        let b = (x % 128 + 128) as u8;
        assert(s[i] == b);
        let tail_enc = leb128_u32_encode(x / 128);
        assert(s.subrange(i + 1, i + 1 + tail_enc.len()) =~= tail_enc) by {
            assert(forall|m: int| 0 <= m < tail_enc.len() ==> s.subrange(
                i,
                i + enc.len(),
            )[m + 1] == #[trigger] tail_enc[m]);
        }
        assert(x / 128 < pow2((32 - (shift + 7)) as nat)) by (nonlinear_arith)
            requires
                x < pow2((32 - shift) as nat),
                pow2((32 - shift) as nat) == 128 * pow2((32 - (shift + 7)) as nat),
        {
        }
        vstd::arithmetic::power2::lemma_pow2_adds((32 - (shift + 7)) as nat, 7);
        lemma_leb128_u32_roundtrip_rec(s, i + 1, x / 128, (shift + 7) as nat);
        assert((x % 128) * pow2(shift) + (x / 128) * pow2((shift + 7) as nat) == x * pow2(shift))
            by (nonlinear_arith)
            requires
                pow2((shift + 7) as nat) == pow2(shift) * 128,
                x >= 0,
        {
        }
    }
}

/// For every `x` in the `u32` range, decoding the canonical encoding of `x`
/// gives `x` back, consuming the whole encoding.
pub proof fn lemma_leb128_u32_roundtrip(x: nat)
    requires
        x < 0x1_0000_0000,
    ensures
        leb128_u32_at(leb128_u32_encode(x), 0) == Ok::<(nat, int), BinaryReaderError>(
            (x, leb128_u32_encode(x).len() as int),
        ),
{
    vstd::arithmetic::power2::lemma2_to64();
    vstd::arithmetic::power2::lemma2_to64_rest();
    let enc = leb128_u32_encode(x);
    assert(enc.subrange(0, enc.len() as int) =~= enc);
    lemma_leb128_u32_roundtrip_rec(enc, 0, x, 0);
}

/// A five-byte sequence whose fifth byte has any of its four high bits set —
/// the continuation bit included, so a sixth byte can never be needed — is
/// rejected with `InvalidU32`.
#[verifier::rlimit(100)]
#[verifier::spinoff_prover]
pub proof fn lemma_leb128_u32_overlong(s: Seq<u8>)
    requires
        s.len() >= 5,
        forall|k: int| 0 <= k < 4 ==> #[trigger] s[k] >= 128,
        s[4] / 16 != 0,
    ensures
        leb128_u32_at(s, 0) == Err::<(nat, int), BinaryReaderError>(BinaryReaderError::InvalidU32),
{
    reveal_with_fuel(leb128_u32_rec, 6);
    assert(s[0] >= 128);
    assert(s[1] >= 128);
    assert(s[2] >= 128);
    assert(s[3] >= 128);
}

/// Decoding inverts signed encoding, at any group position, for any of the
/// three signed widths.
#[verifier::rlimit(100)]
#[verifier::spinoff_prover]
proof fn lemma_leb128_s_roundtrip_rec(
    s: Seq<u8>,
    i: int,
    x: int,
    shift: nat,
    width: nat,
    err: BinaryReaderError,
)
    requires
        width == 32 || width == 33 || width == 64,
        shift % 7 == 0,
        shift < width,
        -pow2((width - shift - 1) as nat) <= x < pow2((width - shift - 1) as nat),
        0 <= i,
        i + leb128_s_encode(x).len() <= s.len(),
        s.subrange(i, i + leb128_s_encode(x).len()) == leb128_s_encode(x),
    ensures
        leb128_s_rec(s, i, shift, width, err) == Ok::<(int, int), BinaryReaderError>(
            (x * pow2(shift), i + leb128_s_encode(x).len()),
        ),
    decreases (if x < 0 { -x } else { x }),
{
    vstd::arithmetic::power2::lemma2_to64();
    vstd::arithmetic::power2::lemma2_to64_rest();
    let enc = leb128_s_encode(x);
    assert(s[i] == enc[0]);
    if -64 <= x < 64 {
        let b = ((x + 128) % 128) as u8;
        assert(s[i] == b);
        assert(b < 128);
        if shift + 7 >= width {
            let nbits = (width - shift) as nat;
            assert(nbits == 4 || nbits == 5 || nbits == 1);
            let low = b as nat;
            let tail = low / pow2((nbits - 1) as nat);
            if x >= 0 {
                assert(x < pow2((nbits - 1) as nat));
                assert(low == x);
                assert(tail == 0) by (nonlinear_arith)
                    requires
                        low < pow2((nbits - 1) as nat),
                        tail == low / pow2((nbits - 1) as nat),
                        pow2((nbits - 1) as nat) > 0,
                {
                }
                assert(low % pow2(nbits) == x) by (nonlinear_arith)
                    requires
                        0 <= low < pow2((nbits - 1) as nat),
                        low == x,
                        pow2((nbits - 1) as nat) < pow2(nbits),
                {
                    assert(low < pow2(nbits));
                }
                assert(sign_extend(low % pow2(nbits), nbits) == x);
            } else {
                assert(x >= -pow2((nbits - 1) as nat));
                assert(low == x + 128);
                assert(pow2(nbits) <= 32);
                assert(128nat % pow2(nbits) == 0) by {
                    assert(nbits == 4 || nbits == 5 || nbits == 1);
                }
                assert(tail == pow2((8 - nbits) as nat) - 1) by (nonlinear_arith)
                    requires
                        nbits == 4 || nbits == 5 || nbits == 1,
                        low == x + 128,
                        -pow2((nbits - 1) as nat) <= x < 0,
                        tail == low / pow2((nbits - 1) as nat),
                        pow2(0) == 1 && pow2(3) == 8 && pow2(4) == 16 && pow2(7) == 128,
                {
                }
                assert(low % pow2(nbits) == x + pow2(nbits)) by (nonlinear_arith)
                    requires
                        nbits == 4 || nbits == 5 || nbits == 1,
                        low == x + 128,
                        -pow2((nbits - 1) as nat) <= x < 0,
                        pow2(0) == 1 && pow2(1) == 2 && pow2(3) == 8 && pow2(4) == 16 && pow2(5)
                            == 32,
                {
                }
                assert(sign_extend(low % pow2(nbits), nbits) == x) by {
                    assert(low % pow2(nbits) >= pow2((nbits - 1) as nat)) by (nonlinear_arith)
                        requires
                            low % pow2(nbits) == x + pow2(nbits),
                            x >= -pow2((nbits - 1) as nat),
                            pow2(nbits) == 2 * pow2((nbits - 1) as nat),
                    {
                    }
                    assert(pow2(nbits) == 2 * pow2((nbits - 1) as nat)) by {
                        vstd::arithmetic::power2::lemma_pow2_adds((nbits - 1) as nat, 1);
                    }
                }
            }
        } else {
            if x >= 0 {
                assert(sign_extend(b as nat, 7) == x);
            } else {
                assert(b as nat == x + 128);
                assert(sign_extend(b as nat, 7) == x);
            }
        }
    } else {
        // A value this large cannot sit on the final byte: its range would
        // be within [-64, 64).
        if shift + 7 >= width {
            assert(pow2((width - shift - 1) as nat) <= pow2(6)) by {
                if width - shift - 1 < 6 {
                    vstd::arithmetic::power2::lemma_pow2_strictly_increases(
                        (width - shift - 1) as nat,
                        6,
                    );
                }
            }
            assert(false);
        }
        let b = (x % 128 + 128) as u8;
        assert(s[i] == b);
        assert(b >= 128);
        let tail_enc = leb128_s_encode(x / 128);
        assert(s.subrange(i + 1, i + 1 + tail_enc.len()) =~= tail_enc) by {
            assert(forall|m: int| 0 <= m < tail_enc.len() ==> s.subrange(
                i,
                i + enc.len(),
            )[m + 1] == #[trigger] tail_enc[m]);
        }
        vstd::arithmetic::power2::lemma_pow2_adds((width - (shift + 7) - 1) as nat, 7);
        assert(-pow2((width - (shift + 7) - 1) as nat) <= x / 128 < pow2(
            (width - (shift + 7) - 1) as nat,
        )) by (nonlinear_arith)
            requires
                -pow2((width - shift - 1) as nat) <= x < pow2((width - shift - 1) as nat),
                pow2((width - shift - 1) as nat) == 128 * pow2((width - (shift + 7) - 1) as nat),
        {
        }
        lemma_leb128_s_roundtrip_rec(s, i + 1, x / 128, (shift + 7) as nat, width, err);
        assert((x % 128) * pow2(shift) + (x / 128) * pow2((shift + 7) as nat) == x * pow2(shift))
            by (nonlinear_arith)
            requires
                pow2((shift + 7) as nat) == pow2(shift) * 128,
        {
        }
    }
}

/// For every `x` in the signed 32-bit range, decoding the canonical signed
/// encoding of `x` gives `x` back, consuming the whole encoding.
pub proof fn lemma_leb128_s32_roundtrip(x: int)
    requires
        -0x8000_0000 <= x < 0x8000_0000,
    ensures
        leb128_s32_at(leb128_s_encode(x), 0) == Ok::<(int, int), BinaryReaderError>(
            (x, leb128_s_encode(x).len() as int),
        ),
{
    vstd::arithmetic::power2::lemma2_to64();
    let enc = leb128_s_encode(x);
    assert(enc.subrange(0, enc.len() as int) =~= enc);
    lemma_leb128_s_roundtrip_rec(enc, 0, x, 0, 32, BinaryReaderError::InvalidS32);
}

/// For every `x` in the signed 33-bit range of the block-type encoding,
/// decoding the canonical signed encoding of `x` gives `x` back.
pub proof fn lemma_leb128_s33_roundtrip(x: int)
    requires
        -0x1_0000_0000 <= x < 0x1_0000_0000,
    ensures
        leb128_s33_at(leb128_s_encode(x), 0) == Ok::<(int, int), BinaryReaderError>(
            (x, leb128_s_encode(x).len() as int),
        ),
{
    vstd::arithmetic::power2::lemma2_to64();
    let enc = leb128_s_encode(x);
    assert(enc.subrange(0, enc.len() as int) =~= enc);
    lemma_leb128_s_roundtrip_rec(enc, 0, x, 0, 33, BinaryReaderError::InvalidS33);
}

/// For every `x` in the signed 64-bit range, decoding the canonical signed
/// encoding of `x` gives `x` back.
pub proof fn lemma_leb128_s64_roundtrip(x: int)
    requires
        -0x8000_0000_0000_0000 <= x < 0x8000_0000_0000_0000,
    ensures
        leb128_s64_at(leb128_s_encode(x), 0) == Ok::<(int, int), BinaryReaderError>(
            (x, leb128_s_encode(x).len() as int),
        ),
{
    vstd::arithmetic::power2::lemma2_to64();
    vstd::arithmetic::power2::lemma2_to64_rest();
    let enc = leb128_s_encode(x);
    assert(enc.subrange(0, enc.len() as int) =~= enc);
    lemma_leb128_s_roundtrip_rec(enc, 0, x, 0, 64, BinaryReaderError::InvalidS64);
}

/// A five-byte sequence whose fifth byte keeps the continuation bit set or
/// whose bits above the 32-bit sign do not all equal it is rejected with
/// `InvalidS32`.
#[verifier::rlimit(100)]
#[verifier::spinoff_prover]
pub proof fn lemma_leb128_s32_rejects_bad_final_byte(s: Seq<u8>)
    requires
        s.len() >= 5,
        forall|k: int| 0 <= k < 4 ==> #[trigger] s[k] >= 128,
        s[4] >= 128 || !(s[4] / 8 == 0 || s[4] / 8 == 15),
    ensures
        leb128_s32_at(s, 0) == Err::<(int, int), BinaryReaderError>(BinaryReaderError::InvalidS32),
{
    vstd::arithmetic::power2::lemma2_to64();
    reveal_with_fuel(leb128_s_rec, 6);
    assert(s[0] >= 128);
    assert(s[1] >= 128);
    assert(s[2] >= 128);
    assert(s[3] >= 128);
    if s[4] < 128 {
        assert((s[4] as nat) % 128 == s[4] as nat);
        assert((s[4] as nat) / pow2(3) == s[4] / 8);
        assert(pow2(4) - 1 == 15);
    }
}

/// A five-byte sequence whose fifth byte keeps the continuation bit set or
/// whose bits above the 33-bit sign do not all equal it is rejected with
/// `InvalidS33`.
#[verifier::rlimit(100)]
#[verifier::spinoff_prover]
pub proof fn lemma_leb128_s33_rejects_bad_final_byte(s: Seq<u8>)
    requires
        s.len() >= 5,
        forall|k: int| 0 <= k < 4 ==> #[trigger] s[k] >= 128,
        s[4] >= 128 || !(s[4] / 16 == 0 || s[4] / 16 == 7),
    ensures
        leb128_s33_at(s, 0) == Err::<(int, int), BinaryReaderError>(BinaryReaderError::InvalidS33),
{
    vstd::arithmetic::power2::lemma2_to64();
    reveal_with_fuel(leb128_s_rec, 6);
    assert(s[0] >= 128);
    assert(s[1] >= 128);
    assert(s[2] >= 128);
    assert(s[3] >= 128);
    if s[4] < 128 {
        assert((s[4] as nat) % 128 == s[4] as nat);
        assert((s[4] as nat) / pow2(4) == s[4] / 16);
        assert(pow2(3) - 1 == 7);
    }
}

/// A ten-byte sequence whose tenth byte keeps the continuation bit set or
/// whose unused bits do not all equal the 64-bit sign is rejected with
/// `InvalidS64`.
#[verifier::rlimit(100)]
#[verifier::spinoff_prover]
pub proof fn lemma_leb128_s64_rejects_bad_final_byte(s: Seq<u8>)
    requires
        s.len() >= 10,
        forall|k: int| 0 <= k < 9 ==> #[trigger] s[k] >= 128,
        !(s[9] == 0 || s[9] == 0x7f),
    ensures
        leb128_s64_at(s, 0) == Err::<(int, int), BinaryReaderError>(BinaryReaderError::InvalidS64),
{
    vstd::arithmetic::power2::lemma2_to64();
    vstd::arithmetic::power2::lemma2_to64_rest();
    reveal_with_fuel(leb128_s_rec, 11);
    assert(s[0] >= 128);
    assert(s[1] >= 128);
    assert(s[2] >= 128);
    assert(s[3] >= 128);
    assert(s[4] >= 128);
    assert(s[5] >= 128);
    assert(s[6] >= 128);
    assert(s[7] >= 128);
    assert(s[8] >= 128);
    if s[9] < 128 {
        assert((s[9] as nat) % 128 == s[9] as nat);
        assert((s[9] as nat) / pow2(0) == s[9] as nat);
        assert(pow2(7) - 1 == 127);
    }
}

} // verus!
