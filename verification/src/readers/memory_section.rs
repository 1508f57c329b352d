//! Reader for the memory section: a count, then that many memory types.

use vstd::prelude::*;
use crate::leb::{leb128_u32_at, BinaryReaderError};
use crate::readers::binary::{spec_memory_type_at, BinaryReader};
use crate::types::MemoryType;

verus! {

#[derive(PartialEq, Eq, Structural, Clone, Copy, Debug)]
pub enum MemoryReaderError {
    BinaryReaderError(BinaryReaderError),
}

#[derive(Clone, Copy, Eq, PartialEq, Debug)]
pub struct MemorySectionReader<'a> {
    reader: BinaryReader<'a>,
    count: u32,
}

impl<'a> MemorySectionReader<'a> {
    pub closed spec fn body(&self) -> Seq<u8> {
        self.reader.bytes()
    }

    pub closed spec fn pos(&self) -> int {
        self.reader.pos()
    }

    pub closed spec fn spec_count(&self) -> u32 {
        self.count
    }

    pub closed spec fn wf(&self) -> bool {
        self.reader.wf()
    }

    pub(crate) fn new(buffer: &'a [u8]) -> (r: Result<MemorySectionReader<'a>, BinaryReaderError>)
        ensures
            match r {
                Ok(rd) => {
                    &&& rd.wf()
                    &&& rd.body() == buffer@
                    &&& leb128_u32_at(buffer@, 0) == Ok::<(nat, int), BinaryReaderError>(
                        (rd.spec_count() as nat, rd.pos()),
                    )
                },
                Err(e) => leb128_u32_at(buffer@, 0) == Err::<(nat, int), BinaryReaderError>(e),
            },
    {
        let mut reader = BinaryReader::new(buffer);
        let count = match reader.read_leb128_u32() {
            Ok(c) => c,
            Err(e) => {
                return Err(e);
            },
        };
        Ok(MemorySectionReader { reader, count })
    }

    pub fn get_count(&self) -> (r: u32)
        ensures
            r == self.spec_count(),
    {
        self.count
    }

    /// Reads one memory type.
    pub fn read(&mut self) -> (r: Result<MemoryType, MemoryReaderError>)
        requires
            old(self).wf(),
        ensures
            final(self).wf(),
            final(self).body() == old(self).body(),
            final(self).spec_count() == old(self).spec_count(),
            match r {
                Ok(m) => spec_memory_type_at(old(self).body(), old(self).pos())
                    matches Ok((sm, j)) && sm == m && final(self).pos() == j,
                Err(MemoryReaderError::BinaryReaderError(e)) => spec_memory_type_at(
                    old(self).body(),
                    old(self).pos(),
                ) == Err::<(MemoryType, int), BinaryReaderError>(e),
            },
    {
        match self.reader.read_memory_type() {
            Ok(m) => Ok(m),
            Err(e) => Err(MemoryReaderError::BinaryReaderError(e)),
        }
    }
}

} // verus!
