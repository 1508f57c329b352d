//! Reader for the global section: a count, then that many global segments,
//! each a global type and an initializer region terminated by `End`.

use vstd::prelude::*;
use crate::leb::{leb128_u32_at, BinaryReaderError};
use crate::readers::binary::{spec_global_type_at, BinaryReader};
use crate::readers::instruction::{spec_expr_end_at, InstructionReader, InstructionReaderError};
use crate::types::GlobalType;

verus! {

#[derive(PartialEq, Eq, Structural, Clone, Copy, Debug)]
pub enum GlobalReaderError {
    BinaryReaderError(BinaryReaderError),
    InstructionReaderError(InstructionReaderError),
}

/// One entry of the global section: its type and the borrowed initializer
/// region.
pub struct GlobalSegment<'a> {
    pub global_type: GlobalType,
    pub instruction_reader: InstructionReader<'a>,
}

#[derive(Clone, Copy, Eq, PartialEq, Debug)]
pub struct GlobalSectionReader<'a> {
    reader: BinaryReader<'a>,
    count: u32,
}

impl<'a> GlobalSectionReader<'a> {
    pub closed spec fn body(&self) -> Seq<u8> {
        self.reader.bytes()
    }

    pub closed spec fn pos(&self) -> int {
        self.reader.pos()
    }

    pub closed spec fn spec_count(&self) -> u32 {
        self.count
    }

    pub closed spec fn wf(&self) -> bool {
        self.reader.wf()
    }

    pub(crate) fn new(buffer: &'a [u8]) -> (r: Result<GlobalSectionReader<'a>, BinaryReaderError>)
        ensures
            match r {
                Ok(rd) => {
                    &&& rd.wf()
                    &&& rd.body() == buffer@
                    &&& leb128_u32_at(buffer@, 0) == Ok::<(nat, int), BinaryReaderError>(
                        (rd.spec_count() as nat, rd.pos()),
                    )
                },
                Err(e) => leb128_u32_at(buffer@, 0) == Err::<(nat, int), BinaryReaderError>(e),
            },
    {
        let mut reader = BinaryReader::new(buffer);
        let count = match reader.read_leb128_u32() {
            Ok(c) => c,
            Err(e) => {
                return Err(e);
            },
        };
        Ok(GlobalSectionReader { reader, count })
    }

    pub fn get_count(&self) -> (r: u32)
        ensures
            r == self.spec_count(),
    {
        self.count
    }

    /// Reads one global segment: its type, then the initializer region up
    /// to and including its `End` opcode.
    pub fn read(&mut self) -> (r: Result<GlobalSegment<'a>, GlobalReaderError>)
        requires
            old(self).wf(),
        ensures
            final(self).wf(),
            final(self).body() == old(self).body(),
            final(self).spec_count() == old(self).spec_count(),
            match r {
                Ok(g) => spec_global_type_at(old(self).body(), old(self).pos())
                    matches Ok((gt, j)) && ({
                    &&& g.global_type == gt
                    &&& spec_expr_end_at(old(self).body(), j) == Ok::<int,
                        InstructionReaderError>(final(self).pos())
                    &&& g.instruction_reader.wf()
                    &&& g.instruction_reader.pos() == 0
                    &&& g.instruction_reader.bytes() == old(self).body().subrange(
                        j,
                        final(self).pos(),
                    )
                }),
                Err(GlobalReaderError::BinaryReaderError(e)) => {
                    ||| spec_global_type_at(old(self).body(), old(self).pos())
                        == Err::<(GlobalType, int), BinaryReaderError>(e)
                    ||| spec_global_type_at(old(self).body(), old(self).pos())
                        matches Ok((_, j)) && spec_expr_end_at(old(self).body(), j) == Err::<
                        int,
                        InstructionReaderError,
                    >(InstructionReaderError::BinaryReaderError(e))
                },
                Err(GlobalReaderError::InstructionReaderError(e)) => {
                    &&& !(e matches InstructionReaderError::BinaryReaderError(_))
                    &&& spec_global_type_at(old(self).body(), old(self).pos())
                        matches Ok((_, j)) && spec_expr_end_at(old(self).body(), j) == Err::<
                        int,
                        InstructionReaderError,
                    >(e)
                },
            },
    {
        let global_type = match self.reader.read_global_type() {
            Ok(g) => g,
            Err(e) => {
                return Err(GlobalReaderError::BinaryReaderError(e));
            },
        };
        let instruction_reader = match self.reader.create_instruction_reader() {
            Ok(ir) => ir,
            Err(InstructionReaderError::BinaryReaderError(e)) => {
                return Err(GlobalReaderError::BinaryReaderError(e));
            },
            Err(e) => {
                return Err(GlobalReaderError::InstructionReaderError(e));
            },
        };
        Ok(GlobalSegment { global_type, instruction_reader })
    }
}

} // verus!
