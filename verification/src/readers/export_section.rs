//! Reader for the export section: a count, then that many exports, each a
//! name and a descriptor.

use vstd::prelude::*;
use crate::leb::{leb128_u32_at, BinaryReaderError};
use crate::readers::binary::{spec_string_at, BinaryReader};
use crate::types::{Export, ExportDescriptor, FuncIndex, GlobalIndex, MemoryIndex, TableIndex};

verus! {

#[derive(PartialEq, Eq, Structural, Clone, Copy, Debug)]
pub enum ExportReaderError {
    BinaryReaderError(BinaryReaderError),
    InvalidExportDescByte,
}

/// What the export descriptor at position `i` of `s` denotes: a tag byte
/// (`0x00` function, `0x01` table, `0x02` memory, `0x03` global) and the
/// matching index.
pub open spec fn spec_export_desc_at(s: Seq<u8>, i: int) -> Result<(ExportDescriptor, int), ExportReaderError> {
    if !(0 <= i < s.len()) {
        Err(ExportReaderError::BinaryReaderError(BinaryReaderError::UnexpectedEof))
    } else if s[i] == 0x00 || s[i] == 0x01 || s[i] == 0x02 || s[i] == 0x03 {
        match leb128_u32_at(s, i + 1) {
            Ok((v, j)) => Ok(
                (
                    if s[i] == 0x00 {
                        ExportDescriptor::Func { func_index: FuncIndex(v as u32) }
                    } else if s[i] == 0x01 {
                        ExportDescriptor::Table { table_index: TableIndex(v as u32) }
                    } else if s[i] == 0x02 {
                        ExportDescriptor::Memory { memory_index: MemoryIndex(v as u32) }
                    } else {
                        ExportDescriptor::Global { global_index: GlobalIndex(v as u32) }
                    },
                    j,
                ),
            ),
            Err(e) => Err(ExportReaderError::BinaryReaderError(e)),
        }
    } else {
        Err(ExportReaderError::InvalidExportDescByte)
    }
}

/// What the export at position `i` of `s` denotes: a name, then the
/// descriptor.
pub open spec fn spec_export_at(s: Seq<u8>, i: int) -> Result<((Seq<char>, ExportDescriptor), int), ExportReaderError> {
    match spec_string_at(s, i) {
        Ok((name, j)) => match spec_export_desc_at(s, j) {
            Ok((desc, k)) => Ok(((name, desc), k)),
            Err(e) => Err(e),
        },
        Err(e) => Err(ExportReaderError::BinaryReaderError(e)),
    }
}

#[derive(Clone, Copy, Eq, PartialEq, Debug)]
pub struct ExportSectionReader<'a> {
    reader: BinaryReader<'a>,
    count: u32,
}

impl<'a> ExportSectionReader<'a> {
    pub closed spec fn body(&self) -> Seq<u8> {
        self.reader.bytes()
    }

    pub closed spec fn pos(&self) -> int {
        self.reader.pos()
    }

    pub closed spec fn spec_count(&self) -> u32 {
        self.count
    }

    pub closed spec fn wf(&self) -> bool {
        self.reader.wf()
    }

    pub(crate) fn new(buffer: &'a [u8]) -> (r: Result<ExportSectionReader<'a>, BinaryReaderError>)
        ensures
            match r {
                Ok(rd) => {
                    &&& rd.wf()
                    &&& rd.body() == buffer@
                    &&& leb128_u32_at(buffer@, 0) == Ok::<(nat, int), BinaryReaderError>(
                        (rd.spec_count() as nat, rd.pos()),
                    )
                },
                Err(e) => leb128_u32_at(buffer@, 0) == Err::<(nat, int), BinaryReaderError>(e),
            },
    {
        let mut reader = BinaryReader::new(buffer);
        let count = match reader.read_leb128_u32() {
            Ok(c) => c,
            Err(e) => {
                return Err(e);
            },
        };
        Ok(ExportSectionReader { reader, count })
    }

    pub fn get_count(&self) -> (r: u32)
        ensures
            r == self.spec_count(),
    {
        self.count
    }

    /// Reads one export.
    pub fn read(&mut self) -> (r: Result<Export, ExportReaderError>)
        requires
            old(self).wf(),
        ensures
            final(self).wf(),
            final(self).body() == old(self).body(),
            final(self).spec_count() == old(self).spec_count(),
            match r {
                Ok(exp) => spec_export_at(old(self).body(), old(self).pos())
                    matches Ok(((n, d), j)) && exp.name@ == n && exp.export_descriptor == d
                    && final(self).pos() == j,
                Err(e) => spec_export_at(old(self).body(), old(self).pos())
                    == Err::<((Seq<char>, ExportDescriptor), int), ExportReaderError>(e),
            },
    {
        let name = match self.reader.read_string() {
            Ok(s) => s,
            Err(e) => {
                return Err(ExportReaderError::BinaryReaderError(e));
            },
        };
        let export_desc = match self.read_export_desc() {
            Ok(d) => d,
            Err(e) => {
                return Err(e);
            },
        };
        Ok(Export { name: name.to_owned(), export_descriptor: export_desc })
    }

    fn read_export_desc(&mut self) -> (r: Result<ExportDescriptor, ExportReaderError>)
        requires
            old(self).wf(),
        ensures
            final(self).wf(),
            final(self).body() == old(self).body(),
            final(self).spec_count() == old(self).spec_count(),
            match r {
                Ok(d) => spec_export_desc_at(old(self).body(), old(self).pos())
                    matches Ok((sd, j)) && sd == d && final(self).pos() == j,
                Err(e) => spec_export_desc_at(old(self).body(), old(self).pos())
                    == Err::<(ExportDescriptor, int), ExportReaderError>(e),
            },
    {
        let tag = match self.reader.read_byte() {
            Ok(b) => b,
            Err(e) => {
                return Err(ExportReaderError::BinaryReaderError(e));
            },
        };
        if tag > 0x03 {
            return Err(ExportReaderError::InvalidExportDescByte);
        }
        let v = match self.reader.read_leb128_u32() {
            Ok(v) => v,
            Err(e) => {
                return Err(ExportReaderError::BinaryReaderError(e));
            },
        };
        match tag {
            0x00 => Ok(ExportDescriptor::Func { func_index: FuncIndex(v) }),
            0x01 => Ok(ExportDescriptor::Table { table_index: TableIndex(v) }),
            0x02 => Ok(ExportDescriptor::Memory { memory_index: MemoryIndex(v) }),
            _ => Ok(ExportDescriptor::Global { global_index: GlobalIndex(v) }),
        }
    }
}

} // verus!
