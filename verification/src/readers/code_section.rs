//! Reader for the code section: a count, then that many size-prefixed code
//! entries, each holding a locals vector and the function's instructions.

use vstd::prelude::*;
use crate::leb::{leb128_u32_at, BinaryReaderError};
use crate::readers::binary::{spec_bytes_vec_at, value_type_of, BinaryReader};
use crate::readers::instruction::InstructionReader;
use crate::types::{Locals, ValueType};

verus! {

#[derive(PartialEq, Eq, Structural, Clone, Copy, Debug)]
pub enum CodeReaderError {
    BinaryReaderError(BinaryReaderError),
}

/// The locals run at position `i` of `s`: a repetition count, then one
/// value-type byte.
pub open spec fn spec_locals_at(s: Seq<u8>, i: int) -> Result<(Locals, int), BinaryReaderError> {
    match leb128_u32_at(s, i) {
        Ok((n, j)) => if !(0 <= j < s.len()) {
            Err(BinaryReaderError::UnexpectedEof)
        } else {
            match value_type_of(s[j]) {
                Some(vt) => Ok((Locals { count: n as u32, value_type: vt }, j + 1)),
                None => Err(BinaryReaderError::InvalidValueTypeByte),
            }
        },
        Err(e) => Err(e),
    }
}

/// The `n` locals runs at position `i` of `s`, with the position just past
/// them.
pub open spec fn spec_locals_list_at(s: Seq<u8>, i: int, n: nat) -> Result<(Seq<Locals>, int), BinaryReaderError>
    decreases n
{
    if n == 0 {
        Ok((Seq::empty(), i))
    } else {
        match spec_locals_at(s, i) {
            Ok((l, j)) => match spec_locals_list_at(s, j, (n - 1) as nat) {
                Ok((ls, k)) => Ok((seq![l] + ls, k)),
                Err(e) => Err(e),
            },
            Err(e) => Err(e),
        }
    }
}

/// One code entry: the borrowed bytes of its locals vector and body.
pub struct Code<'a> {
    data: &'a [u8],
}

impl<'a> Code<'a> {
    pub closed spec fn spec_data(&self) -> Seq<u8> {
        self.data@
    }

    pub(crate) fn new(data: &'a [u8]) -> (r: Code<'a>)
        ensures
            r.spec_data() == data@,
    {
        Code { data }
    }

    /// A reader over the entry's leading locals vector.
    pub fn get_locals_reader(&self) -> (r: Result<LocalsReader<'a>, CodeReaderError>)
        ensures
            match r {
                Ok(lr) => {
                    &&& lr.wf()
                    &&& lr.body() == self.spec_data()
                    &&& leb128_u32_at(self.spec_data(), 0) == Ok::<(nat, int), BinaryReaderError>(
                        (lr.spec_count() as nat, lr.pos()),
                    )
                    &&& lr.spec_remaining() == lr.spec_count()
                },
                Err(CodeReaderError::BinaryReaderError(e)) => leb128_u32_at(self.spec_data(), 0)
                    == Err::<(nat, int), BinaryReaderError>(e),
            },
    {
        match LocalsReader::new(self.data) {
            Ok(lr) => Ok(lr),
            Err(e) => Err(CodeReaderError::BinaryReaderError(e)),
        }
    }

    /// A reader over the instructions that follow the locals vector, whose
    /// end the exhausted locals reader proves.
    pub fn get_instruction_reader(&self, locals_iteration_proof: LocalsIterationProof) -> (r:
        Result<InstructionReader<'a>, CodeReaderError>)
        requires
            locals_iteration_proof.spec_position() <= self.spec_data().len(),
        ensures
            match r {
                Ok(ir) => {
                    &&& ir.wf()
                    &&& ir.pos() == 0
                    &&& ir.bytes() == self.spec_data().skip(locals_iteration_proof.spec_position())
                },
                Err(_) => false,
            },
    {
        let position = locals_iteration_proof.position;
        let reader = BinaryReader::new(self.data);
        let buffer = match reader.create_buffer_slice(position, self.data.len()) {
            Ok(b) => b,
            Err(_) => {
                proof {
                    assert(false);
                }
                return Err(CodeReaderError::BinaryReaderError(BinaryReaderError::UnexpectedEof));
            },
        };
        proof {
            assert(self.spec_data().subrange(position as int, self.spec_data().len() as int)
                =~= self.spec_data().skip(position as int));
        }
        match InstructionReader::new(buffer) {
            Ok(ir) => Ok(ir),
            Err(e) => Err(CodeReaderError::BinaryReaderError(e)),
        }
    }
}

#[derive(Clone, Copy, Eq, PartialEq, Debug)]
pub struct CodeSectionReader<'a> {
    reader: BinaryReader<'a>,
    count: u32,
}

impl<'a> CodeSectionReader<'a> {
    pub closed spec fn body(&self) -> Seq<u8> {
        self.reader.bytes()
    }

    pub closed spec fn pos(&self) -> int {
        self.reader.pos()
    }

    pub closed spec fn spec_count(&self) -> u32 {
        self.count
    }

    pub closed spec fn wf(&self) -> bool {
        self.reader.wf()
    }

    pub(crate) fn new(buffer: &'a [u8]) -> (r: Result<CodeSectionReader<'a>, BinaryReaderError>)
        ensures
            match r {
                Ok(rd) => {
                    &&& rd.wf()
                    &&& rd.body() == buffer@
                    &&& leb128_u32_at(buffer@, 0) == Ok::<(nat, int), BinaryReaderError>(
                        (rd.spec_count() as nat, rd.pos()),
                    )
                },
                Err(e) => leb128_u32_at(buffer@, 0) == Err::<(nat, int), BinaryReaderError>(e),
            },
    {
        let mut reader = BinaryReader::new(buffer);
        let count = match reader.read_leb128_u32() {
            Ok(c) => c,
            Err(e) => {
                return Err(e);
            },
        };
        Ok(CodeSectionReader { reader, count })
    }

    pub fn get_count(&self) -> (r: u32)
        ensures
            r == self.spec_count(),
    {
        self.count
    }

    /// Reads one size-prefixed code entry.
    pub fn read(&mut self) -> (r: Result<Code<'a>, CodeReaderError>)
        requires
            old(self).wf(),
        ensures
            final(self).wf(),
            final(self).body() == old(self).body(),
            final(self).spec_count() == old(self).spec_count(),
            match r {
                Ok(code) => spec_bytes_vec_at(old(self).body(), old(self).pos())
                    matches Ok((bs, j)) && code.spec_data() == bs && final(self).pos() == j,
                Err(CodeReaderError::BinaryReaderError(e)) => spec_bytes_vec_at(
                    old(self).body(),
                    old(self).pos(),
                ) == Err::<(Seq<u8>, int), BinaryReaderError>(e),
            },
    {
        match self.reader.read_length_prefixed_bytes() {
            Ok(data) => Ok(Code::new(data)),
            Err(e) => Err(CodeReaderError::BinaryReaderError(e)),
        }
    }
}

/// Witness that a locals reader was driven to the end of its vector: the
/// position where the entry's instructions begin.
pub struct LocalsIterationProof {
    pub(crate) position: usize,
}

impl LocalsIterationProof {
    pub closed spec fn spec_position(&self) -> int {
        self.position as int
    }
}

pub struct LocalsReader<'a> {
    reader: BinaryReader<'a>,
    count: u32,
    remaining: u32,
}

impl<'a> LocalsReader<'a> {
    pub closed spec fn body(&self) -> Seq<u8> {
        self.reader.bytes()
    }

    pub closed spec fn pos(&self) -> int {
        self.reader.pos()
    }

    pub closed spec fn spec_count(&self) -> u32 {
        self.count
    }

    pub closed spec fn spec_remaining(&self) -> u32 {
        self.remaining
    }

    pub closed spec fn wf(&self) -> bool {
        self.reader.wf() && self.remaining <= self.count
    }

    pub(crate) fn new(buffer: &'a [u8]) -> (r: Result<LocalsReader<'a>, BinaryReaderError>)
        ensures
            match r {
                Ok(lr) => {
                    &&& lr.wf()
                    &&& lr.body() == buffer@
                    &&& leb128_u32_at(buffer@, 0) == Ok::<(nat, int), BinaryReaderError>(
                        (lr.spec_count() as nat, lr.pos()),
                    )
                    &&& lr.spec_remaining() == lr.spec_count()
                },
                Err(e) => leb128_u32_at(buffer@, 0) == Err::<(nat, int), BinaryReaderError>(e),
            },
    {
        let mut reader = BinaryReader::new(buffer);
        let count = match reader.read_leb128_u32() {
            Ok(c) => c,
            Err(e) => {
                return Err(e);
            },
        };
        Ok(LocalsReader { reader, count, remaining: count })
    }

    pub fn get_count(&self) -> (r: u32)
        ensures
            r == self.spec_count(),
    {
        self.count
    }

    /// Reads one locals run.
    pub fn read(&mut self) -> (r: Result<Locals, CodeReaderError>)
        requires
            old(self).wf(),
            old(self).spec_remaining() > 0,
        ensures
            final(self).wf(),
            final(self).body() == old(self).body(),
            final(self).spec_count() == old(self).spec_count(),
            final(self).spec_remaining() == old(self).spec_remaining() - 1,
            match r {
                Ok(l) => spec_locals_at(old(self).body(), old(self).pos())
                    matches Ok((sl, j)) && sl == l && final(self).pos() == j,
                Err(CodeReaderError::BinaryReaderError(e)) => spec_locals_at(
                    old(self).body(),
                    old(self).pos(),
                ) == Err::<(Locals, int), BinaryReaderError>(e),
            },
    {
        let count = match self.reader.read_leb128_u32() {
            Ok(c) => c,
            Err(e) => {
                self.remaining = self.remaining - 1;
                return Err(CodeReaderError::BinaryReaderError(e));
            },
        };
        let value_type = match self.reader.read_value_type() {
            Ok(t) => t,
            Err(e) => {
                self.remaining = self.remaining - 1;
                return Err(CodeReaderError::BinaryReaderError(e));
            },
        };
        self.remaining = self.remaining - 1;
        Ok(Locals { count, value_type })
    }

    /// Drives the reader past any unread locals runs and returns the
    /// position where the entry's instructions begin.
    pub fn get_iteration_proof(&mut self) -> (r: Result<LocalsIterationProof, CodeReaderError>)
        requires
            old(self).wf(),
        ensures
            final(self).wf(),
            final(self).body() == old(self).body(),
            match r {
                Ok(p) => spec_locals_list_at(
                    old(self).body(),
                    old(self).pos(),
                    old(self).spec_remaining() as nat,
                ) matches Ok((_, j)) && p.spec_position() == j && p.spec_position()
                    <= old(self).body().len(),
                Err(CodeReaderError::BinaryReaderError(e)) => spec_locals_list_at(
                    old(self).body(),
                    old(self).pos(),
                    old(self).spec_remaining() as nat,
                ) == Err::<(Seq<Locals>, int), BinaryReaderError>(e),
            },
    {
        let ghost s = old(self).body();
        let ghost start = old(self).pos();
        let ghost total = old(self).spec_remaining() as nat;
        while self.remaining > 0
            invariant
                s == old(self).body(),
                start == old(self).pos(),
                total == old(self).spec_remaining() as nat,
                self.wf(),
                self.body() == s,
                match spec_locals_list_at(s, self.pos(), self.spec_remaining() as nat) {
                    Ok((ls, j)) => spec_locals_list_at(s, start, total)
                        matches Ok((ls2, j2)) && j2 == j,
                    Err(e) => spec_locals_list_at(s, start, total)
                        == Err::<(Seq<Locals>, int), BinaryReaderError>(e),
                },
            decreases self.spec_remaining(),
        {
            match self.read() {
                Ok(_) => {
                },
                Err(e) => {
                    return Err(e);
                },
            }
        }
        Ok(LocalsIterationProof { position: self.reader.get_position() })
    }
}

} // verus!
