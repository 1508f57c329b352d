//! Reader for the type section: a count, then that many function types.

use vstd::prelude::*;
use crate::leb::{leb128_u32_at, BinaryReaderError};
use crate::readers::binary::{value_type_of, BinaryReader};
use crate::types::{FunctionType, ValueType};

verus! {

#[derive(PartialEq, Eq, Structural, Clone, Copy, Debug)]
pub enum TypeReaderError {
    BinaryReaderError(BinaryReaderError),
    InvalidLeadingByte,
}

/// The value types denoted by `n` consecutive value-type bytes at position
/// `i` of `s`.
pub open spec fn spec_value_types_at(s: Seq<u8>, i: int, n: nat) -> Result<(Seq<ValueType>, int), BinaryReaderError>
    decreases n
{
    if n == 0 {
        Ok((Seq::empty(), i))
    } else if !(0 <= i < s.len()) {
        Err(BinaryReaderError::UnexpectedEof)
    } else {
        match value_type_of(s[i]) {
            Some(vt) => match spec_value_types_at(s, i + 1, (n - 1) as nat) {
                Ok((ts, j)) => Ok((seq![vt] + ts, j)),
                Err(e) => Err(e),
            },
            None => Err(BinaryReaderError::InvalidValueTypeByte),
        }
    }
}

/// A LEB128 count followed by that many value-type bytes.
pub open spec fn spec_types_vec_at(s: Seq<u8>, i: int) -> Result<(Seq<ValueType>, int), BinaryReaderError> {
    match leb128_u32_at(s, i) {
        Ok((n, j)) => spec_value_types_at(s, j, n),
        Err(e) => Err(e),
    }
}

/// What the function type at position `i` of `s` denotes: the leading byte
/// `0x60`, then the parameter and result type vectors.
pub open spec fn spec_func_type_at(s: Seq<u8>, i: int) -> Result<((Seq<ValueType>, Seq<ValueType>), int), TypeReaderError> {
    if !(0 <= i < s.len()) {
        Err(TypeReaderError::BinaryReaderError(BinaryReaderError::UnexpectedEof))
    } else if s[i] != 0x60 {
        Err(TypeReaderError::InvalidLeadingByte)
    } else {
        match spec_types_vec_at(s, i + 1) {
            Ok((params, j)) => match spec_types_vec_at(s, j) {
                Ok((results, k)) => Ok(((params, results), k)),
                Err(e) => Err(TypeReaderError::BinaryReaderError(e)),
            },
            Err(e) => Err(TypeReaderError::BinaryReaderError(e)),
        }
    }
}

#[derive(Clone, Copy, Eq, PartialEq, Debug)]
pub struct TypeSectionReader<'a> {
    reader: BinaryReader<'a>,
    count: u32,
}

impl<'a> TypeSectionReader<'a> {
    pub closed spec fn body(&self) -> Seq<u8> {
        self.reader.bytes()
    }

    pub closed spec fn pos(&self) -> int {
        self.reader.pos()
    }

    pub closed spec fn spec_count(&self) -> u32 {
        self.count
    }

    pub closed spec fn wf(&self) -> bool {
        self.reader.wf()
    }

    pub(crate) fn new(buffer: &'a [u8]) -> (r: Result<TypeSectionReader<'a>, BinaryReaderError>)
        ensures
            match r {
                Ok(rd) => {
                    &&& rd.wf()
                    &&& rd.body() == buffer@
                    &&& leb128_u32_at(buffer@, 0) == Ok::<(nat, int), BinaryReaderError>(
                        (rd.spec_count() as nat, rd.pos()),
                    )
                },
                Err(e) => leb128_u32_at(buffer@, 0) == Err::<(nat, int), BinaryReaderError>(e),
            },
    {
        let mut reader = BinaryReader::new(buffer);
        let count = match reader.read_leb128_u32() {
            Ok(c) => c,
            Err(e) => {
                return Err(e);
            },
        };
        Ok(TypeSectionReader { reader, count })
    }

    pub fn get_count(&self) -> (r: u32)
        ensures
            r == self.spec_count(),
    {
        self.count
    }

    /// Reads one function type.
    pub fn read(&mut self) -> (r: Result<FunctionType, TypeReaderError>)
        requires
            old(self).wf(),
        ensures
            final(self).wf(),
            final(self).body() == old(self).body(),
            final(self).spec_count() == old(self).spec_count(),
            match r {
                Ok(ft) => spec_func_type_at(old(self).body(), old(self).pos())
                    matches Ok(((ps, rs), j)) && ft.params@ == ps && ft.results@ == rs
                    && final(self).pos() == j,
                Err(e) => spec_func_type_at(old(self).body(), old(self).pos())
                    == Err::<((Seq<ValueType>, Seq<ValueType>), int), TypeReaderError>(e),
            },
    {
        match self.reader.read_byte() {
            Ok(0x60) => self.read_func_type(),
            Ok(_) => Err(TypeReaderError::InvalidLeadingByte),
            Err(e) => Err(TypeReaderError::BinaryReaderError(e)),
        }
    }

    fn read_func_type(&mut self) -> (r: Result<FunctionType, TypeReaderError>)
        requires
            old(self).wf(),
        ensures
            final(self).wf(),
            final(self).body() == old(self).body(),
            final(self).spec_count() == old(self).spec_count(),
            match r {
                Ok(ft) => spec_types_vec_at(old(self).body(), old(self).pos())
                    matches Ok((ps, j)) && (ft.params@ == ps
                    && (spec_types_vec_at(old(self).body(), j)
                        matches Ok((rs, k)) && (ft.results@ == rs
                    && final(self).pos() == k))),
                Err(TypeReaderError::BinaryReaderError(e)) => {
                    ||| spec_types_vec_at(old(self).body(), old(self).pos())
                        == Err::<(Seq<ValueType>, int), BinaryReaderError>(e)
                    ||| spec_types_vec_at(old(self).body(), old(self).pos())
                        matches Ok((ps, j)) && spec_types_vec_at(old(self).body(), j)
                        == Err::<(Seq<ValueType>, int), BinaryReaderError>(e)
                },
                Err(TypeReaderError::InvalidLeadingByte) => false,
            },
    {
        let params = match self.read_types_vec() {
            Ok(p) => p,
            Err(e) => {
                return Err(TypeReaderError::BinaryReaderError(e));
            },
        };
        let results = match self.read_types_vec() {
            Ok(q) => q,
            Err(e) => {
                return Err(TypeReaderError::BinaryReaderError(e));
            },
        };
        Ok(FunctionType { params, results })
    }

    fn read_types_vec(&mut self) -> (r: Result<Vec<ValueType>, BinaryReaderError>)
        requires
            old(self).wf(),
        ensures
            final(self).wf(),
            final(self).body() == old(self).body(),
            final(self).spec_count() == old(self).spec_count(),
            match r {
                Ok(v) => spec_types_vec_at(old(self).body(), old(self).pos())
                    matches Ok((ts, j)) && v@ == ts && final(self).pos() == j,
                Err(e) => spec_types_vec_at(old(self).body(), old(self).pos())
                    == Err::<(Seq<ValueType>, int), BinaryReaderError>(e),
            },
    {
        let ghost s = old(self).body();
        let n = match self.reader.read_leb128_u32() {
            Ok(n) => n,
            Err(e) => {
                return Err(e);
            },
        };
        let ghost start = self.pos();
        let mut types: Vec<ValueType> = Vec::new();
        let mut k: u32 = 0;
        while k < n
            invariant
                s == old(self).body(),
                leb128_u32_at(s, old(self).pos()) == Ok::<(nat, int), BinaryReaderError>(
                    (n as nat, start),
                ),
                self.wf(),
                self.body() == s,
                self.spec_count() == old(self).spec_count(),
                k <= n,
                types@.len() == k,
                spec_value_types_at(s, start, n as nat) == (
                match spec_value_types_at(s, self.pos(), (n - k) as nat) {
                    Ok((ts, j)) => Ok::<(Seq<ValueType>, int), BinaryReaderError>((types@ + ts, j)),
                    Err(e) => Err::<(Seq<ValueType>, int), BinaryReaderError>(e),
                }),
            decreases n - k,
        {
            let vt = match self.reader.read_value_type() {
                Ok(t) => t,
                Err(e) => {
                    return Err(e);
                },
            };
            let ghost prev = types@;
            types.push(vt);
            k = k + 1;
            proof {
                assert(types@ =~= prev + seq![vt]);
                assert(spec_value_types_at(s, self.pos() - 1, (n - (k - 1)) as nat) == (
                match spec_value_types_at(s, self.pos(), (n - k) as nat) {
                    Ok((ts, j)) => Ok::<(Seq<ValueType>, int), BinaryReaderError>(
                        (seq![vt] + ts, j),
                    ),
                    Err(e) => Err::<(Seq<ValueType>, int), BinaryReaderError>(e),
                }));
                let rest = spec_value_types_at(s, self.pos(), (n - k) as nat);
                if rest is Ok {
                    let ts = rest->Ok_0.0;
                    assert((prev + (seq![vt] + ts)) =~= (types@ + ts));
                }
                assert(spec_value_types_at(s, start, n as nat) == (
                match spec_value_types_at(s, self.pos(), (n - k) as nat) {
                    Ok((ts, j)) => Ok::<(Seq<ValueType>, int), BinaryReaderError>((types@ + ts, j)),
                    Err(e) => Err::<(Seq<ValueType>, int), BinaryReaderError>(e),
                }));
            }
        }
        proof {
            assert(spec_value_types_at(s, self.pos(), 0) == Ok::<(Seq<ValueType>, int),
                BinaryReaderError>((Seq::empty(), self.pos())));
            assert(types@ + Seq::<ValueType>::empty() =~= types@);
        }
        Ok(types)
    }
}

} // verus!
