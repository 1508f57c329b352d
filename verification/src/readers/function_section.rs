//! Reader for the function section: a count, then one type index per
//! module-defined function.

use vstd::prelude::*;
use crate::leb::{leb128_u32_at, BinaryReaderError};
use crate::readers::binary::BinaryReader;
use crate::types::TypeIndex;

verus! {

#[derive(PartialEq, Eq, Structural, Clone, Copy, Debug)]
pub enum FunctionReaderError {
    BinaryReaderError(BinaryReaderError),
}

#[derive(Clone, Copy, Eq, PartialEq, Debug)]
pub struct FunctionSectionReader<'a> {
    reader: BinaryReader<'a>,
    count: u32,
}

impl<'a> FunctionSectionReader<'a> {
    pub closed spec fn body(&self) -> Seq<u8> {
        self.reader.bytes()
    }

    pub closed spec fn pos(&self) -> int {
        self.reader.pos()
    }

    pub closed spec fn spec_count(&self) -> u32 {
        self.count
    }

    pub closed spec fn wf(&self) -> bool {
        self.reader.wf()
    }

    pub(crate) fn new(buffer: &'a [u8]) -> (r: Result<
        FunctionSectionReader<'a>,
        BinaryReaderError,
    >)
        ensures
            match r {
                Ok(rd) => {
                    &&& rd.wf()
                    &&& rd.body() == buffer@
                    &&& leb128_u32_at(buffer@, 0) == Ok::<(nat, int), BinaryReaderError>(
                        (rd.spec_count() as nat, rd.pos()),
                    )
                },
                Err(e) => leb128_u32_at(buffer@, 0) == Err::<(nat, int), BinaryReaderError>(e),
            },
    {
        let mut reader = BinaryReader::new(buffer);
        let count = match reader.read_leb128_u32() {
            Ok(c) => c,
            Err(e) => {
                return Err(e);
            },
        };
        Ok(FunctionSectionReader { reader, count })
    }

    pub fn get_count(&self) -> (r: u32)
        ensures
            r == self.spec_count(),
    {
        self.count
    }

    /// Reads one type index.
    pub fn read(&mut self) -> (r: Result<TypeIndex, FunctionReaderError>)
        requires
            old(self).wf(),
        ensures
            final(self).wf(),
            final(self).body() == old(self).body(),
            final(self).spec_count() == old(self).spec_count(),
            match r {
                Ok(t) => leb128_u32_at(old(self).body(), old(self).pos())
                    == Ok::<(nat, int), BinaryReaderError>((t.0 as nat, final(self).pos())),
                Err(FunctionReaderError::BinaryReaderError(e)) => leb128_u32_at(
                    old(self).body(),
                    old(self).pos(),
                ) == Err::<(nat, int), BinaryReaderError>(e),
            },
    {
        match self.reader.read_leb128_u32() {
            Ok(v) => Ok(TypeIndex(v)),
            Err(e) => Err(FunctionReaderError::BinaryReaderError(e)),
        }
    }
}

} // verus!
