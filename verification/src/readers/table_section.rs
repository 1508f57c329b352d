//! Reader for the table section: a count, then that many table types.

use vstd::prelude::*;
use crate::leb::{leb128_u32_at, BinaryReaderError};
use crate::readers::binary::{spec_table_type_at, BinaryReader};
use crate::types::TableType;

verus! {

#[derive(PartialEq, Eq, Structural, Clone, Copy, Debug)]
pub enum TableReaderError {
    BinaryReaderError(BinaryReaderError),
}

#[derive(Clone, Copy, Eq, PartialEq, Debug)]
pub struct TableSectionReader<'a> {
    reader: BinaryReader<'a>,
    count: u32,
}

impl<'a> TableSectionReader<'a> {
    pub closed spec fn body(&self) -> Seq<u8> {
        self.reader.bytes()
    }

    pub closed spec fn pos(&self) -> int {
        self.reader.pos()
    }

    pub closed spec fn spec_count(&self) -> u32 {
        self.count
    }

    pub closed spec fn wf(&self) -> bool {
        self.reader.wf()
    }

    pub(crate) fn new(buffer: &'a [u8]) -> (r: Result<TableSectionReader<'a>, BinaryReaderError>)
        ensures
            match r {
                Ok(rd) => {
                    &&& rd.wf()
                    &&& rd.body() == buffer@
                    &&& leb128_u32_at(buffer@, 0) == Ok::<(nat, int), BinaryReaderError>(
                        (rd.spec_count() as nat, rd.pos()),
                    )
                },
                Err(e) => leb128_u32_at(buffer@, 0) == Err::<(nat, int), BinaryReaderError>(e),
            },
    {
        let mut reader = BinaryReader::new(buffer);
        let count = match reader.read_leb128_u32() {
            Ok(c) => c,
            Err(e) => {
                return Err(e);
            },
        };
        Ok(TableSectionReader { reader, count })
    }

    pub fn get_count(&self) -> (r: u32)
        ensures
            r == self.spec_count(),
    {
        self.count
    }

    /// Reads one table type.
    pub fn read(&mut self) -> (r: Result<TableType, TableReaderError>)
        requires
            old(self).wf(),
        ensures
            final(self).wf(),
            final(self).body() == old(self).body(),
            final(self).spec_count() == old(self).spec_count(),
            match r {
                Ok(t) => spec_table_type_at(old(self).body(), old(self).pos())
                    matches Ok((st, j)) && st == t && final(self).pos() == j,
                Err(TableReaderError::BinaryReaderError(e)) => spec_table_type_at(
                    old(self).body(),
                    old(self).pos(),
                ) == Err::<(TableType, int), BinaryReaderError>(e),
            },
    {
        match self.reader.read_table_type() {
            Ok(t) => Ok(t),
            Err(e) => Err(TableReaderError::BinaryReaderError(e)),
        }
    }
}

} // verus!
