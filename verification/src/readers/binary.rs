//! The byte cursor: bounds-checked advancement over a borrowed byte slice,
//! with readers for the fixed-width and LEB128 primitives and for the typed
//! containers (limits, value types, table, memory and global types).

use vstd::prelude::*;
use vstd::arithmetic::power2::{pow2, lemma2_to64};
use vstd::slice::{slice_index_get, slice_subrange};
use vstd::utf8::{decode_utf8, valid_utf8};
use crate::leb::{
    BinaryReaderError, leb128_s32_at, leb128_s33_at, leb128_s64_at, leb128_s_rec, leb128_u32_at,
    leb128_u32_rec, sign_extend,
};
use crate::types::{GlobalType, Limits, MemoryType, TableType, ValueType};

verus! {

/// A cursor over a borrowed byte buffer.  The position never exceeds the
/// buffer's length.
#[derive(Clone, Copy, Eq, PartialEq, Debug)]
pub struct BinaryReader<'a> {
    buffer: &'a [u8],
    position: usize,
}

impl<'a> BinaryReader<'a> {
    /// The bytes the cursor ranges over.
    pub closed spec fn bytes(&self) -> Seq<u8> {
        self.buffer@
    }

    /// The cursor's current position.
    pub closed spec fn pos(&self) -> int {
        self.position as int
    }

    /// The position is within the buffer.
    pub open spec fn wf(&self) -> bool {
        0 <= self.pos() <= self.bytes().len()
    }

    pub fn new(buffer: &'a [u8]) -> (r: BinaryReader<'a>)
        ensures
            r.bytes() == buffer@,
            r.pos() == 0,
            r.wf(),
    {
        BinaryReader { buffer, position: 0 }
    }

    pub fn get_position(&self) -> (r: usize)
        ensures
            r == self.pos(),
    {
        self.position
    }

    /// Whether the cursor has reached the end of its buffer.
    pub fn eof(&self) -> (r: bool)
        requires
            self.wf(),
        ensures
            r == (self.pos() == self.bytes().len()),
    {
        self.position >= self.buffer.len()
    }

    /// Whether `n` more bytes are available at the current position.
    fn ensure_has_bytes(&self, n: usize) -> (r: Result<(), BinaryReaderError>)
        requires
            self.wf(),
        ensures
            match r {
                Ok(()) => self.pos() + n <= self.bytes().len() && self.pos() + n <= usize::MAX,
                Err(e) => e == BinaryReaderError::UnexpectedEof && self.pos() + n > self.bytes().len(),
            },
    {
        let len = self.buffer.len();
        if n <= len - self.position {
            Ok(())
        } else {
            Err(BinaryReaderError::UnexpectedEof)
        }
    }

    /// Reads the next `n` bytes as a sub-slice of the buffer.
    pub fn read_bytes(&mut self, n: usize) -> (r: Result<&'a [u8], BinaryReaderError>)
        requires
            old(self).wf(),
        ensures
            final(self).wf(),
            final(self).bytes() == old(self).bytes(),
            match r {
                Ok(b) => {
                    &&& old(self).pos() + n <= old(self).bytes().len()
                    &&& final(self).pos() == old(self).pos() + n
                    &&& b@ == old(self).bytes().subrange(old(self).pos(), final(self).pos())
                },
                Err(e) => {
                    &&& e == BinaryReaderError::UnexpectedEof
                    &&& old(self).pos() + n > old(self).bytes().len()
                    &&& final(self).pos() == old(self).pos()
                },
            },
    {
        self.ensure_has_bytes(n)?;
        let start = self.position;
        self.position = self.position + n;
        Ok(slice_subrange(self.buffer, start, self.position))
    }

    /// Reads one byte.
    pub fn read_byte(&mut self) -> (r: Result<u8, BinaryReaderError>)
        requires
            old(self).wf(),
        ensures
            final(self).wf(),
            final(self).bytes() == old(self).bytes(),
            match r {
                Ok(b) => {
                    &&& old(self).pos() < old(self).bytes().len()
                    &&& final(self).pos() == old(self).pos() + 1
                    &&& b == old(self).bytes()[old(self).pos()]
                },
                Err(e) => {
                    &&& e == BinaryReaderError::UnexpectedEof
                    &&& old(self).pos() == old(self).bytes().len()
                    &&& final(self).pos() == old(self).pos()
                },
            },
    {
        self.ensure_has_bytes(1)?;
        let b = *slice_index_get(self.buffer, self.position);
        self.position = self.position + 1;
        Ok(b)
    }

    /// Reads a little-endian fixed-width `u32`.
    pub fn read_fixed_u32_le(&mut self) -> (r: Result<u32, BinaryReaderError>)
        requires
            old(self).wf(),
        ensures
            final(self).wf(),
            final(self).bytes() == old(self).bytes(),
            match r {
                Ok(v) => {
                    &&& old(self).pos() + 4 <= old(self).bytes().len()
                    &&& final(self).pos() == old(self).pos() + 4
                    &&& v == le_u32_at(old(self).bytes(), old(self).pos())
                },
                Err(e) => {
                    &&& e == BinaryReaderError::UnexpectedEof
                    &&& old(self).pos() + 4 > old(self).bytes().len()
                    &&& final(self).pos() == old(self).pos()
                },
            },
    {
        let b = self.read_bytes(4)?;
        let v = (*slice_index_get(b, 0) as u32)
            + (*slice_index_get(b, 1) as u32) * 0x100
            + (*slice_index_get(b, 2) as u32) * 0x1_0000
            + (*slice_index_get(b, 3) as u32) * 0x100_0000;
        Ok(v)
    }

    /// Reads an unsigned LEB128 `u32` of one to five bytes.
    #[verifier::rlimit(100)]
    #[verifier::spinoff_prover]
    pub fn read_leb128_u32(&mut self) -> (r: Result<u32, BinaryReaderError>)
        requires
            old(self).wf(),
        ensures
            final(self).wf(),
            final(self).bytes() == old(self).bytes(),
            old(self).pos() <= final(self).pos(),
            match r {
                Ok(v) => leb128_u32_at(old(self).bytes(), old(self).pos())
                    == Ok::<(nat, int), BinaryReaderError>((v as nat, final(self).pos())),
                Err(e) => leb128_u32_at(old(self).bytes(), old(self).pos())
                    == Err::<(nat, int), BinaryReaderError>(e),
            },
    {
        proof {
            lemma2_to64();
            reveal_with_fuel(leb128_u32_rec, 6);
        }
        let b0 = match self.read_byte() {
            Ok(b) => b,
            Err(e) => {
                return Err(e);
            },
        };
        if b0 < 0x80 {
            return Ok(b0 as u32);
        }
        let v0: u32 = (b0 - 0x80) as u32;
        let b1 = match self.read_byte() {
            Ok(b) => b,
            Err(e) => {
                return Err(e);
            },
        };
        if b1 < 0x80 {
            assert(v0 < 0x80 && (b1 as u32) * 0x80 <= 0x3f80);
            return Ok(v0 + (b1 as u32) * 0x80);
        }
        assert(v0 < 0x80 && ((b1 - 0x80) as u32) * 0x80 <= 0x3f80);
        let v1: u32 = v0 + ((b1 - 0x80) as u32) * 0x80;
        let b2 = match self.read_byte() {
            Ok(b) => b,
            Err(e) => {
                return Err(e);
            },
        };
        if b2 < 0x80 {
            assert(v1 < 0x4000 && (b2 as u32) * 0x4000 <= 0x1f_c000);
            return Ok(v1 + (b2 as u32) * 0x4000);
        }
        assert(v1 < 0x4000 && ((b2 - 0x80) as u32) * 0x4000 <= 0x1f_c000);
        let v2: u32 = v1 + ((b2 - 0x80) as u32) * 0x4000;
        let b3 = match self.read_byte() {
            Ok(b) => b,
            Err(e) => {
                return Err(e);
            },
        };
        if b3 < 0x80 {
            assert(v2 < 0x20_0000 && (b3 as u32) * 0x20_0000 <= 0xfe0_0000);
            return Ok(v2 + (b3 as u32) * 0x20_0000);
        }
        assert(v2 < 0x20_0000 && ((b3 - 0x80) as u32) * 0x20_0000 <= 0xfe0_0000);
        let v3: u32 = v2 + ((b3 - 0x80) as u32) * 0x20_0000;
        let b4 = match self.read_byte() {
            Ok(b) => b,
            Err(e) => {
                return Err(e);
            },
        };
        if b4 >= 0x10 {
            return Err(BinaryReaderError::InvalidU32);
        }
        assert(v3 < 0x1000_0000 && (b4 as u32) * 0x1000_0000 <= 0xf000_0000);
        Ok(v3 + (b4 as u32) * 0x1000_0000)
    }

    /// Reads a signed LEB128 `s32` of one to five bytes.
    #[verifier::rlimit(100)]
    #[verifier::spinoff_prover]
    pub fn read_leb128_s32(&mut self) -> (r: Result<i32, BinaryReaderError>)
        requires
            old(self).wf(),
        ensures
            final(self).wf(),
            final(self).bytes() == old(self).bytes(),
            old(self).pos() <= final(self).pos(),
            match r {
                Ok(v) => leb128_s32_at(old(self).bytes(), old(self).pos())
                    == Ok::<(int, int), BinaryReaderError>((v as int, final(self).pos())),
                Err(e) => leb128_s32_at(old(self).bytes(), old(self).pos())
                    == Err::<(int, int), BinaryReaderError>(e),
            },
    {
        proof {
            lemma2_to64();
            reveal_with_fuel(leb128_s_rec, 6);
        }
        let mut lower: u64 = 0;
        let b0 = match self.read_byte() {
            Ok(b) => b,
            Err(e) => {
                return Err(e);
            },
        };
        if b0 < 0x80 {
            let v = sext_low(lower, b0, 1, Ghost(0));
            return Ok(v as i32);
        }
        lower = (b0 - 0x80) as u64;
        let b1 = match self.read_byte() {
            Ok(b) => b,
            Err(e) => {
                return Err(e);
            },
        };
        if b1 < 0x80 {
            let v = sext_low(lower, b1, 0x80, Ghost(7));
            return Ok(v as i32);
        }
        lower = lower + ((b1 - 0x80) as u64) * 0x80;
        let b2 = match self.read_byte() {
            Ok(b) => b,
            Err(e) => {
                return Err(e);
            },
        };
        if b2 < 0x80 {
            let v = sext_low(lower, b2, 0x4000, Ghost(14));
            return Ok(v as i32);
        }
        lower = lower + ((b2 - 0x80) as u64) * 0x4000;
        let b3 = match self.read_byte() {
            Ok(b) => b,
            Err(e) => {
                return Err(e);
            },
        };
        if b3 < 0x80 {
            let v = sext_low(lower, b3, 0x20_0000, Ghost(21));
            return Ok(v as i32);
        }
        lower = lower + ((b3 - 0x80) as u64) * 0x20_0000;
        let b4 = match self.read_byte() {
            Ok(b) => b,
            Err(e) => {
                return Err(e);
            },
        };
        // Final byte: bit 3 is the value's sign, bits 3 to 6 must all agree,
        // and the continuation bit must be clear.
        let tail = b4 / 8;
        if b4 >= 0x80 || !(tail == 0 || tail == 15) {
            return Err(BinaryReaderError::InvalidS32);
        }
        let grp: u64 = (b4 % 16) as u64;
        if grp < 8 {
            Ok((lower + grp * 0x1000_0000) as i32)
        } else {
            Ok(((lower as i64) - ((16 - grp) as i64) * 0x1000_0000) as i32)
        }
    }

    /// Reads a signed LEB128 `s33` of one to five bytes; used by the
    /// block-type encoding.
    #[verifier::rlimit(100)]
    #[verifier::spinoff_prover]
    pub fn read_leb128_s33(&mut self) -> (r: Result<i64, BinaryReaderError>)
        requires
            old(self).wf(),
        ensures
            final(self).wf(),
            final(self).bytes() == old(self).bytes(),
            old(self).pos() <= final(self).pos(),
            match r {
                Ok(v) => leb128_s33_at(old(self).bytes(), old(self).pos())
                    == Ok::<(int, int), BinaryReaderError>((v as int, final(self).pos())),
                Err(e) => leb128_s33_at(old(self).bytes(), old(self).pos())
                    == Err::<(int, int), BinaryReaderError>(e),
            },
    {
        proof {
            lemma2_to64();
            reveal_with_fuel(leb128_s_rec, 6);
        }
        let mut lower: u64 = 0;
        let b0 = match self.read_byte() {
            Ok(b) => b,
            Err(e) => {
                return Err(e);
            },
        };
        if b0 < 0x80 {
            return Ok(sext_low(lower, b0, 1, Ghost(0)));
        }
        lower = (b0 - 0x80) as u64;
        let b1 = match self.read_byte() {
            Ok(b) => b,
            Err(e) => {
                return Err(e);
            },
        };
        if b1 < 0x80 {
            return Ok(sext_low(lower, b1, 0x80, Ghost(7)));
        }
        lower = lower + ((b1 - 0x80) as u64) * 0x80;
        let b2 = match self.read_byte() {
            Ok(b) => b,
            Err(e) => {
                return Err(e);
            },
        };
        if b2 < 0x80 {
            return Ok(sext_low(lower, b2, 0x4000, Ghost(14)));
        }
        lower = lower + ((b2 - 0x80) as u64) * 0x4000;
        let b3 = match self.read_byte() {
            Ok(b) => b,
            Err(e) => {
                return Err(e);
            },
        };
        if b3 < 0x80 {
            return Ok(sext_low(lower, b3, 0x20_0000, Ghost(21)));
        }
        lower = lower + ((b3 - 0x80) as u64) * 0x20_0000;
        let b4 = match self.read_byte() {
            Ok(b) => b,
            Err(e) => {
                return Err(e);
            },
        };
        // Final byte: bit 4 is the value's sign, bits 4 to 6 must all agree,
        // and the continuation bit must be clear.
        let tail = b4 / 16;
        if b4 >= 0x80 || !(tail == 0 || tail == 7) {
            return Err(BinaryReaderError::InvalidS33);
        }
        let grp: u64 = (b4 % 32) as u64;
        if grp < 16 {
            Ok((lower + grp * 0x1000_0000) as i64)
        } else {
            Ok((lower as i64) - ((32 - grp) as i64) * 0x1000_0000)
        }
    }

    /// Reads a signed LEB128 `s64` of one to ten bytes.
    #[verifier::rlimit(100)]
    #[verifier::spinoff_prover]
    pub fn read_leb128_s64(&mut self) -> (r: Result<i64, BinaryReaderError>)
        requires
            old(self).wf(),
        ensures
            final(self).wf(),
            final(self).bytes() == old(self).bytes(),
            old(self).pos() <= final(self).pos(),
            match r {
                Ok(v) => leb128_s64_at(old(self).bytes(), old(self).pos())
                    == Ok::<(int, int), BinaryReaderError>((v as int, final(self).pos())),
                Err(e) => leb128_s64_at(old(self).bytes(), old(self).pos())
                    == Err::<(int, int), BinaryReaderError>(e),
            },
    {
        let ghost s = old(self).bytes();
        let ghost p = old(self).pos();
        let mut lower: u64 = 0;
        let mut pow: u64 = 1;
        let ghost mut shift: nat = 0;
        proof {
            lemma2_to64();
        }
        loop
            invariant
                s == old(self).bytes(),
                p == old(self).pos(),
                self.wf(),
                self.bytes() == s,
                p <= self.pos() <= s.len(),
                shift % 7 == 0,
                shift <= 63,
                pow == pow2(shift),
                lower < pow,
                leb128_s64_at(s, p) == (match leb128_s_rec(s, self.pos(), shift, 64,
                    BinaryReaderError::InvalidS64) {
                    Ok((v, j)) => Ok::<(int, int), BinaryReaderError>((lower + v, j)),
                    Err(e) => Err::<(int, int), BinaryReaderError>(e),
                }),
            decreases 64 - shift,
        {
            let b = match self.read_byte() {
                Ok(b) => b,
                Err(e) => {
                    return Err(e);
                },
            };
            proof {
                lemma2_to64();
                vstd::arithmetic::power2::lemma2_to64_rest();
                reveal_with_fuel(leb128_s_rec, 2);
                if shift < 63 {
                    vstd::arithmetic::power2::lemma_pow2_strictly_increases(shift, 63);
                }
                if shift < 56 {
                    vstd::arithmetic::power2::lemma_pow2_strictly_increases(shift, 56);
                }
            }
            if pow == 0x8000_0000_0000_0000 {
                // Final byte: bit 0 is the value's sign, bits 0 to 6 must all
                // agree, and the continuation bit must be clear.
                proof {
                    crate::leb::lemma_leb128_s64_final_byte(s, self.pos() - 1);
                }
                if b == 0 {
                    return Ok(lower as i64);
                } else if b == 0x7f {
                    return Ok(((lower as i128) - 0x8000_0000_0000_0000i128) as i64);
                } else {
                    return Err(BinaryReaderError::InvalidS64);
                }
            }
            if b < 0x80 {
                return Ok(sext_low(lower, b, pow, Ghost(shift)));
            }
            proof {
                vstd::arithmetic::power2::lemma_pow2_adds(shift, 7);
                assert(lower + ((b - 0x80) as u64) * (pow as int) < 128 * (pow as int))
                    by (nonlinear_arith)
                    requires
                        lower < pow,
                        0x80 <= b,
                        b - 0x80 <= 127,
                        0 < pow,
                ;
            }
            lower = lower + ((b - 0x80) as u64) * pow;
            pow = pow * 0x80;
            proof {
                shift = shift + 7;
            }
        }
    }

    /// Reads a little-endian fixed-width `u64`.
    pub fn read_fixed_u64_le(&mut self) -> (r: Result<u64, BinaryReaderError>)
        requires
            old(self).wf(),
        ensures
            final(self).wf(),
            final(self).bytes() == old(self).bytes(),
            match r {
                Ok(v) => {
                    &&& old(self).pos() + 8 <= old(self).bytes().len()
                    &&& final(self).pos() == old(self).pos() + 8
                    &&& v == le_u64_at(old(self).bytes(), old(self).pos())
                },
                Err(e) => {
                    &&& e == BinaryReaderError::UnexpectedEof
                    &&& old(self).pos() + 8 > old(self).bytes().len()
                    &&& final(self).pos() == old(self).pos()
                },
            },
    {
        let b = self.read_bytes(8)?;
        let v = (*slice_index_get(b, 0) as u64)
            + (*slice_index_get(b, 1) as u64) * 0x100
            + (*slice_index_get(b, 2) as u64) * 0x1_0000
            + (*slice_index_get(b, 3) as u64) * 0x100_0000
            + (*slice_index_get(b, 4) as u64) * 0x1_0000_0000
            + (*slice_index_get(b, 5) as u64) * 0x100_0000_0000
            + (*slice_index_get(b, 6) as u64) * 0x1_0000_0000_0000
            + (*slice_index_get(b, 7) as u64) * 0x100_0000_0000_0000;
        Ok(v)
    }

    /// Moves the cursor to a position within the buffer: back for the
    /// fall-back paths of block-type decoding, forward past a delimited
    /// region.
    pub(crate) fn set_position(&mut self, position: usize)
        requires
            old(self).wf(),
            position <= old(self).bytes().len(),
        ensures
            final(self).wf(),
            final(self).bytes() == old(self).bytes(),
            final(self).pos() == position,
    {
        self.position = position;
    }

    /// Reads a value type byte.  On an unknown byte the cursor is left where
    /// it was, so that block-type decoding can fall back.
    pub fn read_value_type(&mut self) -> (r: Result<ValueType, BinaryReaderError>)
        requires
            old(self).wf(),
        ensures
            final(self).wf(),
            final(self).bytes() == old(self).bytes(),
            match r {
                Ok(vt) => {
                    &&& old(self).pos() < old(self).bytes().len()
                    &&& value_type_of(old(self).bytes()[old(self).pos()]) == Some(vt)
                    &&& final(self).pos() == old(self).pos() + 1
                },
                Err(e) => {
                    &&& final(self).pos() == old(self).pos()
                    &&& if e == BinaryReaderError::UnexpectedEof {
                        old(self).pos() == old(self).bytes().len()
                    } else {
                        &&& e == BinaryReaderError::InvalidValueTypeByte
                        &&& old(self).pos() < old(self).bytes().len()
                        &&& value_type_of(old(self).bytes()[old(self).pos()]) is None
                    }
                },
            },
    {
        let position = self.position;
        let b = match self.read_byte() {
            Ok(b) => b,
            Err(e) => {
                return Err(e);
            },
        };
        match b {
            0x7F => Ok(ValueType::I32),
            0x7E => Ok(ValueType::I64),
            0x7D => Ok(ValueType::F32),
            0x7C => Ok(ValueType::F64),
            _ => {
                self.position = position;
                Err(BinaryReaderError::InvalidValueTypeByte)
            },
        }
    }

    /// Reads a mutability byte: `0x00` immutable, `0x01` mutable.
    pub fn read_mutable(&mut self) -> (r: Result<bool, BinaryReaderError>)
        requires
            old(self).wf(),
        ensures
            final(self).wf(),
            final(self).bytes() == old(self).bytes(),
            match r {
                Ok(m) => {
                    &&& old(self).pos() < old(self).bytes().len()
                    &&& old(self).bytes()[old(self).pos()] == if m { 0x01u8 } else { 0x00u8 }
                    &&& final(self).pos() == old(self).pos() + 1
                },
                Err(e) => if e == BinaryReaderError::UnexpectedEof {
                    old(self).pos() == old(self).bytes().len()
                } else {
                    &&& e == BinaryReaderError::InvalidMutableByte
                    &&& old(self).pos() < old(self).bytes().len()
                    &&& old(self).bytes()[old(self).pos()] != 0x00u8
                    &&& old(self).bytes()[old(self).pos()] != 0x01u8
                },
            },
    {
        match self.read_byte() {
            Ok(0x00) => Ok(false),
            Ok(0x01) => Ok(true),
            Ok(_) => Err(BinaryReaderError::InvalidMutableByte),
            Err(e) => Err(e),
        }
    }

    /// Reads a limits structure.
    pub fn read_limits(&mut self) -> (r: Result<Limits, BinaryReaderError>)
        requires
            old(self).wf(),
        ensures
            final(self).wf(),
            final(self).bytes() == old(self).bytes(),
            match r {
                Ok(l) => spec_limits_at(old(self).bytes(), old(self).pos())
                    matches Ok((sl, j)) && sl == l && final(self).pos() == j,
                Err(e) => spec_limits_at(old(self).bytes(), old(self).pos())
                    == Err::<(Limits, int), BinaryReaderError>(e),
            },
    {
        match self.read_byte() {
            Ok(0x00) => {
                let min = match self.read_leb128_u32() {
                    Ok(v) => v,
                    Err(e) => {
                        return Err(e);
                    },
                };
                Ok(Limits { min, max: None })
            },
            Ok(0x01) => {
                let min = match self.read_leb128_u32() {
                    Ok(v) => v,
                    Err(e) => {
                        return Err(e);
                    },
                };
                let max = match self.read_leb128_u32() {
                    Ok(v) => v,
                    Err(e) => {
                        return Err(e);
                    },
                };
                Ok(Limits { min, max: Some(max) })
            },
            Ok(_) => Err(BinaryReaderError::InvalidLimitsByte),
            Err(e) => Err(e),
        }
    }

    /// Reads a table type: the `funcref` element tag, then limits.
    pub fn read_table_type(&mut self) -> (r: Result<TableType, BinaryReaderError>)
        requires
            old(self).wf(),
        ensures
            final(self).wf(),
            final(self).bytes() == old(self).bytes(),
            match r {
                Ok(t) => spec_table_type_at(old(self).bytes(), old(self).pos())
                    matches Ok((st, j)) && st == t && final(self).pos() == j,
                Err(e) => spec_table_type_at(old(self).bytes(), old(self).pos())
                    == Err::<(TableType, int), BinaryReaderError>(e),
            },
    {
        match self.read_byte() {
            Ok(0x70) => {
                let limits = match self.read_limits() {
                    Ok(l) => l,
                    Err(e) => {
                        return Err(e);
                    },
                };
                Ok(TableType { limits })
            },
            Ok(_) => Err(BinaryReaderError::InvalidElementTypeByte),
            Err(e) => Err(e),
        }
    }

    /// Reads a memory type: just limits.
    pub fn read_memory_type(&mut self) -> (r: Result<MemoryType, BinaryReaderError>)
        requires
            old(self).wf(),
        ensures
            final(self).wf(),
            final(self).bytes() == old(self).bytes(),
            match r {
                Ok(m) => spec_memory_type_at(old(self).bytes(), old(self).pos())
                    matches Ok((sm, j)) && sm == m && final(self).pos() == j,
                Err(e) => spec_memory_type_at(old(self).bytes(), old(self).pos())
                    == Err::<(MemoryType, int), BinaryReaderError>(e),
            },
    {
        let limits = match self.read_limits() {
            Ok(l) => l,
            Err(e) => {
                return Err(e);
            },
        };
        Ok(MemoryType { limits })
    }

    /// Reads a global type: a value type, then a mutability byte.
    pub fn read_global_type(&mut self) -> (r: Result<GlobalType, BinaryReaderError>)
        requires
            old(self).wf(),
        ensures
            final(self).wf(),
            final(self).bytes() == old(self).bytes(),
            match r {
                Ok(g) => spec_global_type_at(old(self).bytes(), old(self).pos())
                    matches Ok((sg, j)) && sg == g && final(self).pos() == j,
                Err(e) => spec_global_type_at(old(self).bytes(), old(self).pos())
                    == Err::<(GlobalType, int), BinaryReaderError>(e),
            },
    {
        let var_type = match self.read_value_type() {
            Ok(t) => t,
            Err(e) => {
                return Err(e);
            },
        };
        let mutable = match self.read_mutable() {
            Ok(m) => m,
            Err(e) => {
                return Err(e);
            },
        };
        Ok(GlobalType { var_type, mutable })
    }

    /// Reads a length-prefixed byte vector as a sub-slice of the buffer.
    pub fn read_length_prefixed_bytes(&mut self) -> (r: Result<&'a [u8], BinaryReaderError>)
        requires
            old(self).wf(),
        ensures
            final(self).wf(),
            final(self).bytes() == old(self).bytes(),
            old(self).pos() <= final(self).pos(),
            match r {
                Ok(b) => spec_bytes_vec_at(old(self).bytes(), old(self).pos())
                    matches Ok((bs, j)) && b@ == bs && final(self).pos() == j,
                Err(e) => spec_bytes_vec_at(old(self).bytes(), old(self).pos())
                    == Err::<(Seq<u8>, int), BinaryReaderError>(e),
            },
    {
        let len = match self.read_leb128_u32() {
            Ok(v) => v,
            Err(e) => {
                return Err(e);
            },
        };
        self.read_bytes(len as usize)
    }

    /// Reads a name: a length-prefixed byte vector holding well-formed UTF-8.
    pub fn read_string(&mut self) -> (r: Result<&'a str, BinaryReaderError>)
        requires
            old(self).wf(),
        ensures
            final(self).wf(),
            final(self).bytes() == old(self).bytes(),
            match r {
                Ok(t) => spec_string_at(old(self).bytes(), old(self).pos())
                    matches Ok((cs, j)) && t@ == cs && final(self).pos() == j,
                Err(e) => spec_string_at(old(self).bytes(), old(self).pos())
                    == Err::<(Seq<char>, int), BinaryReaderError>(e),
            },
    {
        let bytes = match self.read_length_prefixed_bytes() {
            Ok(b) => b,
            Err(e) => {
                return Err(e);
            },
        };
        match utf8_str(bytes) {
            Some(t) => Ok(t),
            None => Err(BinaryReaderError::InvalidUtf8),
        }
    }

    /// A sub-slice of the buffer, bounds-checked against its length.
    pub(crate) fn create_buffer_slice(&self, start: usize, end: usize) -> (r: Result<
        &'a [u8],
        BinaryReaderError,
    >)
        requires
            start <= end,
        ensures
            match r {
                Ok(b) => end <= self.bytes().len() && b@ == self.bytes().subrange(
                    start as int,
                    end as int,
                ),
                Err(e) => e == BinaryReaderError::UnexpectedEof && end > self.bytes().len(),
            },
    {
        if end > self.buffer.len() {
            Err(BinaryReaderError::UnexpectedEof)
        } else {
            Ok(slice_subrange(self.buffer, start, end))
        }
    }
}

/// The value `lower + sign_extend(b, 7) * pow2(shift)`: the contribution of a
/// final continuation-free byte `b` at group position `shift`, on top of the
/// already-accumulated low groups.
fn sext_low(lower: u64, b: u8, pow: u64, Ghost(shift): Ghost<nat>) -> (r: i64)
    requires
        pow == pow2(shift),
        shift <= 56,
        lower < pow2(shift),
        b < 0x80,
    ensures
        r as int == lower + sign_extend(b as nat, 7) * pow2(shift),
{
    proof {
        lemma2_to64();
        vstd::arithmetic::power2::lemma2_to64_rest();
        if shift < 56 {
            vstd::arithmetic::power2::lemma_pow2_strictly_increases(shift, 56);
        }
        assert((b as int) * (pow as int) <= 127 * 0x100_0000_0000_0000) by (nonlinear_arith)
            requires
                b <= 127,
                0 <= pow <= 0x100_0000_0000_0000,
        ;
    }
    if b < 0x40 {
        let r = lower + (b as u64) * pow;
        assert(r == lower + sign_extend(b as nat, 7) * pow2(shift));
        r as i64
    } else {
        proof {
            assert(((0x80 - b) as int) * (pow as int) <= 64 * 0x100_0000_0000_0000) by (nonlinear_arith)
                requires
                    0x40 <= b <= 127,
                    0 <= pow <= 0x100_0000_0000_0000,
            ;
            assert(((b - 0x80) as int) * (pow as int) == -(((0x80 - b) as int) * (pow as int)))
                by (nonlinear_arith)
                requires
                    0x40 <= b <= 127,
                    0 <= pow,
            ;
        }
        let r = (lower as i64) - (((0x80 - b) as u64 * pow) as i64);
        assert(r == lower + sign_extend(b as nat, 7) * pow2(shift));
        r
    }
}

/// The value type a byte stands for, if any: `0x7F` i32, `0x7E` i64,
/// `0x7D` f32, `0x7C` f64.
pub open spec fn value_type_of(b: u8) -> Option<ValueType> {
    if b == 0x7F {
        Some(ValueType::I32)
    } else if b == 0x7E {
        Some(ValueType::I64)
    } else if b == 0x7D {
        Some(ValueType::F32)
    } else if b == 0x7C {
        Some(ValueType::F64)
    } else {
        None
    }
}

/// What the limits encoding at position `i` of `s` denotes: a flag byte
/// (`0x00` no maximum, `0x01` maximum follows), then the LEB128 bounds.
pub open spec fn spec_limits_at(s: Seq<u8>, i: int) -> Result<(Limits, int), BinaryReaderError> {
    if !(0 <= i < s.len()) {
        Err(BinaryReaderError::UnexpectedEof)
    } else if s[i] == 0x00 {
        match leb128_u32_at(s, i + 1) {
            Ok((min, j)) => Ok((Limits { min: min as u32, max: None }, j)),
            Err(e) => Err(e),
        }
    } else if s[i] == 0x01 {
        match leb128_u32_at(s, i + 1) {
            Ok((min, j)) => match leb128_u32_at(s, j) {
                Ok((max, k)) => Ok((Limits { min: min as u32, max: Some(max as u32) }, k)),
                Err(e) => Err(e),
            },
            Err(e) => Err(e),
        }
    } else {
        Err(BinaryReaderError::InvalidLimitsByte)
    }
}

/// What the table type at position `i` of `s` denotes: the `funcref` element
/// tag `0x70`, then limits.
pub open spec fn spec_table_type_at(s: Seq<u8>, i: int) -> Result<(TableType, int), BinaryReaderError> {
    if !(0 <= i < s.len()) {
        Err(BinaryReaderError::UnexpectedEof)
    } else if s[i] != 0x70 {
        Err(BinaryReaderError::InvalidElementTypeByte)
    } else {
        match spec_limits_at(s, i + 1) {
            Ok((limits, j)) => Ok((TableType { limits }, j)),
            Err(e) => Err(e),
        }
    }
}

/// What the memory type at position `i` of `s` denotes: just limits.
pub open spec fn spec_memory_type_at(s: Seq<u8>, i: int) -> Result<(MemoryType, int), BinaryReaderError> {
    match spec_limits_at(s, i) {
        Ok((limits, j)) => Ok((MemoryType { limits }, j)),
        Err(e) => Err(e),
    }
}

/// What the global type at position `i` of `s` denotes: a value type, then a
/// mutability byte (`0x00` immutable, `0x01` mutable).
pub open spec fn spec_global_type_at(s: Seq<u8>, i: int) -> Result<(GlobalType, int), BinaryReaderError> {
    if !(0 <= i < s.len()) {
        Err(BinaryReaderError::UnexpectedEof)
    } else {
        match value_type_of(s[i]) {
            Some(var_type) => {
                if !(i + 1 < s.len()) {
                    Err(BinaryReaderError::UnexpectedEof)
                } else if s[i + 1] == 0x00 {
                    Ok((GlobalType { var_type, mutable: false }, i + 2))
                } else if s[i + 1] == 0x01 {
                    Ok((GlobalType { var_type, mutable: true }, i + 2))
                } else {
                    Err(BinaryReaderError::InvalidMutableByte)
                }
            },
            None => Err(BinaryReaderError::InvalidValueTypeByte),
        }
    }
}

/// What the length-prefixed byte vector at position `i` of `s` covers: its
/// LEB128 length, then that many raw bytes.
pub open spec fn spec_bytes_vec_at(s: Seq<u8>, i: int) -> Result<(Seq<u8>, int), BinaryReaderError> {
    match leb128_u32_at(s, i) {
        Ok((len, j)) => if j + len > s.len() {
            Err(BinaryReaderError::UnexpectedEof)
        } else {
            Ok((s.subrange(j, j + len), j + len))
        },
        Err(e) => Err(e),
    }
}

/// What the name at position `i` of `s` denotes: a length-prefixed byte
/// vector that must hold well-formed UTF-8.
pub open spec fn spec_string_at(s: Seq<u8>, i: int) -> Result<(Seq<char>, int), BinaryReaderError> {
    match spec_bytes_vec_at(s, i) {
        Ok((bytes, j)) => if valid_utf8(bytes) {
            Ok((decode_utf8(bytes), j))
        } else {
            Err(BinaryReaderError::InvalidUtf8)
        },
        Err(e) => Err(e),
    }
}

/// Relies on `core::str::from_utf8`: it returns `Ok` exactly when the bytes
/// are well-formed UTF-8, and the returned string is their decoding.
#[verifier::external_body]
fn utf8_str<'x>(bytes: &'x [u8]) -> (r: Option<&'x str>)
    ensures
        r is Some <==> valid_utf8(bytes@),
        r matches Some(t) ==> t@ == decode_utf8(bytes@),
{
    core::str::from_utf8(bytes).ok()
}

/// The `u32` denoted by four little-endian bytes at position `i` of `s`.
pub open spec fn le_u32_at(s: Seq<u8>, i: int) -> nat
    recommends
        0 <= i,
        i + 4 <= s.len(),
{
    (s[i] + s[i + 1] * 0x100 + s[i + 2] * 0x1_0000 + s[i + 3] * 0x100_0000) as nat
}

/// The `u64` denoted by eight little-endian bytes at position `i` of `s`.
pub open spec fn le_u64_at(s: Seq<u8>, i: int) -> nat
    recommends
        0 <= i,
        i + 8 <= s.len(),
{
    (s[i] + s[i + 1] * 0x100 + s[i + 2] * 0x1_0000 + s[i + 3] * 0x100_0000
        + s[i + 4] * 0x1_0000_0000 + s[i + 5] * 0x100_0000_0000 + s[i + 6] * 0x1_0000_0000_0000
        + s[i + 7] * 0x100_0000_0000_0000) as nat
}

} // verus!
