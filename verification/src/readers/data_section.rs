//! Reader for the data section: a count, then that many data segments,
//! each a memory index, an offset initializer region and the initial bytes.

use vstd::prelude::*;
use crate::leb::{leb128_u32_at, BinaryReaderError};
use crate::readers::binary::{spec_bytes_vec_at, BinaryReader};
use crate::readers::instruction::{spec_expr_end_at, InstructionReader, InstructionReaderError};
use crate::types::MemoryIndex;

verus! {

#[derive(PartialEq, Eq, Structural, Clone, Copy, Debug)]
pub enum DataReaderError {
    BinaryReaderError(BinaryReaderError),
    InstructionReaderError(InstructionReaderError),
}

/// One entry of the data section.
pub struct DataSegment<'a> {
    pub memory_index: MemoryIndex,
    pub instruction_reader: InstructionReader<'a>,
    pub bytes: &'a [u8],
}

#[derive(Clone, Copy, Eq, PartialEq, Debug)]
pub struct DataSectionReader<'a> {
    reader: BinaryReader<'a>,
    count: u32,
}

impl<'a> DataSectionReader<'a> {
    pub closed spec fn body(&self) -> Seq<u8> {
        self.reader.bytes()
    }

    pub closed spec fn pos(&self) -> int {
        self.reader.pos()
    }

    pub closed spec fn spec_count(&self) -> u32 {
        self.count
    }

    pub closed spec fn wf(&self) -> bool {
        self.reader.wf()
    }

    pub(crate) fn new(buffer: &'a [u8]) -> (r: Result<DataSectionReader<'a>, BinaryReaderError>)
        ensures
            match r {
                Ok(rd) => {
                    &&& rd.wf()
                    &&& rd.body() == buffer@
                    &&& leb128_u32_at(buffer@, 0) == Ok::<(nat, int), BinaryReaderError>(
                        (rd.spec_count() as nat, rd.pos()),
                    )
                },
                Err(e) => leb128_u32_at(buffer@, 0) == Err::<(nat, int), BinaryReaderError>(e),
            },
    {
        let mut reader = BinaryReader::new(buffer);
        let count = match reader.read_leb128_u32() {
            Ok(c) => c,
            Err(e) => {
                return Err(e);
            },
        };
        Ok(DataSectionReader { reader, count })
    }

    pub fn get_count(&self) -> (r: u32)
        ensures
            r == self.spec_count(),
    {
        self.count
    }

    /// Reads one data segment: its memory index, its offset initializer
    /// region up to and including `End`, and its initial contents.
    pub fn read(&mut self) -> (r: Result<DataSegment<'a>, DataReaderError>)
        requires
            old(self).wf(),
        ensures
            final(self).wf(),
            final(self).body() == old(self).body(),
            final(self).spec_count() == old(self).spec_count(),
            match r {
                Ok(seg) => leb128_u32_at(old(self).body(), old(self).pos())
                    matches Ok((m, j)) && ({
                    &&& seg.memory_index.0 as nat == m
                    &&& spec_expr_end_at(old(self).body(), j) matches Ok(k) && ({
                        &&& seg.instruction_reader.wf()
                        &&& seg.instruction_reader.pos() == 0
                        &&& seg.instruction_reader.bytes() == old(self).body().subrange(j, k)
                        &&& spec_bytes_vec_at(old(self).body(), k)
                            matches Ok((bs, m2)) && ({
                            &&& seg.bytes@ == bs
                            &&& final(self).pos() == m2
                        })
                    })
                }),
                Err(DataReaderError::BinaryReaderError(e)) => {
                    ||| leb128_u32_at(old(self).body(), old(self).pos())
                        == Err::<(nat, int), BinaryReaderError>(e)
                    ||| leb128_u32_at(old(self).body(), old(self).pos())
                        matches Ok((_, j)) && ({
                        ||| spec_expr_end_at(old(self).body(), j) == Err::<int,
                            InstructionReaderError>(
                            InstructionReaderError::BinaryReaderError(e),
                        )
                        ||| spec_expr_end_at(old(self).body(), j) matches Ok(k)
                            && spec_bytes_vec_at(old(self).body(), k)
                            == Err::<(Seq<u8>, int), BinaryReaderError>(e)
                    })
                },
                Err(DataReaderError::InstructionReaderError(e)) => {
                    &&& !(e matches InstructionReaderError::BinaryReaderError(_))
                    &&& leb128_u32_at(old(self).body(), old(self).pos())
                        matches Ok((_, j)) && spec_expr_end_at(old(self).body(), j) == Err::<
                        int,
                        InstructionReaderError,
                    >(e)
                },
            },
    {
        let memory_index = match self.reader.read_leb128_u32() {
            Ok(v) => MemoryIndex(v),
            Err(e) => {
                return Err(DataReaderError::BinaryReaderError(e));
            },
        };
        let instruction_reader = match self.reader.create_instruction_reader() {
            Ok(ir) => ir,
            Err(InstructionReaderError::BinaryReaderError(e)) => {
                return Err(DataReaderError::BinaryReaderError(e));
            },
            Err(e) => {
                return Err(DataReaderError::InstructionReaderError(e));
            },
        };
        let bytes = match self.reader.read_length_prefixed_bytes() {
            Ok(b) => b,
            Err(e) => {
                return Err(DataReaderError::BinaryReaderError(e));
            },
        };
        Ok(DataSegment { memory_index, instruction_reader, bytes })
    }
}

} // verus!
