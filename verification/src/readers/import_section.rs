//! Reader for the import section: a count, then that many imports, each a
//! module name, an item name and a descriptor.

use vstd::prelude::*;
use crate::leb::{leb128_u32_at, BinaryReaderError};
use crate::readers::binary::{
    spec_global_type_at, spec_memory_type_at, spec_string_at, spec_table_type_at, BinaryReader,
};
use crate::types::{Import, ImportDescriptor, TypeIndex};

verus! {

#[derive(PartialEq, Eq, Structural, Clone, Copy, Debug)]
pub enum ImportReaderError {
    BinaryReaderError(BinaryReaderError),
    InvalidImportDescByte,
}

/// What the import descriptor at position `i` of `s` denotes: a tag byte
/// (`0x00` function, `0x01` table, `0x02` memory, `0x03` global) and the
/// matching payload.
pub open spec fn spec_import_desc_at(s: Seq<u8>, i: int) -> Result<(ImportDescriptor, int), ImportReaderError> {
    if !(0 <= i < s.len()) {
        Err(ImportReaderError::BinaryReaderError(BinaryReaderError::UnexpectedEof))
    } else if s[i] == 0x00 {
        match leb128_u32_at(s, i + 1) {
            Ok((v, j)) => Ok(
                (ImportDescriptor::Func { type_index: TypeIndex(v as u32) }, j),
            ),
            Err(e) => Err(ImportReaderError::BinaryReaderError(e)),
        }
    } else if s[i] == 0x01 {
        match spec_table_type_at(s, i + 1) {
            Ok((t, j)) => Ok((ImportDescriptor::Table(t), j)),
            Err(e) => Err(ImportReaderError::BinaryReaderError(e)),
        }
    } else if s[i] == 0x02 {
        match spec_memory_type_at(s, i + 1) {
            Ok((m, j)) => Ok((ImportDescriptor::Memory(m), j)),
            Err(e) => Err(ImportReaderError::BinaryReaderError(e)),
        }
    } else if s[i] == 0x03 {
        match spec_global_type_at(s, i + 1) {
            Ok((g, j)) => Ok((ImportDescriptor::Global(g), j)),
            Err(e) => Err(ImportReaderError::BinaryReaderError(e)),
        }
    } else {
        Err(ImportReaderError::InvalidImportDescByte)
    }
}

/// What the import at position `i` of `s` denotes: module name, item name,
/// then the descriptor.
pub open spec fn spec_import_at(s: Seq<u8>, i: int) -> Result<((Seq<char>, Seq<char>, ImportDescriptor), int), ImportReaderError> {
    match spec_string_at(s, i) {
        Ok((module_name, j)) => match spec_string_at(s, j) {
            Ok((name, k)) => match spec_import_desc_at(s, k) {
                Ok((desc, l)) => Ok(((module_name, name, desc), l)),
                Err(e) => Err(e),
            },
            Err(e) => Err(ImportReaderError::BinaryReaderError(e)),
        },
        Err(e) => Err(ImportReaderError::BinaryReaderError(e)),
    }
}

#[derive(Clone, Copy, Eq, PartialEq, Debug)]
pub struct ImportSectionReader<'a> {
    reader: BinaryReader<'a>,
    count: u32,
}

impl<'a> ImportSectionReader<'a> {
    pub closed spec fn body(&self) -> Seq<u8> {
        self.reader.bytes()
    }

    pub closed spec fn pos(&self) -> int {
        self.reader.pos()
    }

    pub closed spec fn spec_count(&self) -> u32 {
        self.count
    }

    pub closed spec fn wf(&self) -> bool {
        self.reader.wf()
    }

    pub(crate) fn new(buffer: &'a [u8]) -> (r: Result<ImportSectionReader<'a>, BinaryReaderError>)
        ensures
            match r {
                Ok(rd) => {
                    &&& rd.wf()
                    &&& rd.body() == buffer@
                    &&& leb128_u32_at(buffer@, 0) == Ok::<(nat, int), BinaryReaderError>(
                        (rd.spec_count() as nat, rd.pos()),
                    )
                },
                Err(e) => leb128_u32_at(buffer@, 0) == Err::<(nat, int), BinaryReaderError>(e),
            },
    {
        let mut reader = BinaryReader::new(buffer);
        let count = match reader.read_leb128_u32() {
            Ok(c) => c,
            Err(e) => {
                return Err(e);
            },
        };
        Ok(ImportSectionReader { reader, count })
    }

    pub fn get_count(&self) -> (r: u32)
        ensures
            r == self.spec_count(),
    {
        self.count
    }

    /// Reads one import.
    pub fn read(&mut self) -> (r: Result<Import, ImportReaderError>)
        requires
            old(self).wf(),
        ensures
            final(self).wf(),
            final(self).body() == old(self).body(),
            final(self).spec_count() == old(self).spec_count(),
            match r {
                Ok(imp) => spec_import_at(old(self).body(), old(self).pos())
                    matches Ok(((m, n, d), j)) && imp.module_name@ == m && imp.name@ == n
                    && imp.import_descriptor == d && final(self).pos() == j,
                Err(e) => spec_import_at(old(self).body(), old(self).pos())
                    == Err::<((Seq<char>, Seq<char>, ImportDescriptor), int), ImportReaderError>(e),
            },
    {
        let module_name = match self.reader.read_string() {
            Ok(s) => s,
            Err(e) => {
                return Err(ImportReaderError::BinaryReaderError(e));
            },
        };
        let name = match self.reader.read_string() {
            Ok(s) => s,
            Err(e) => {
                return Err(ImportReaderError::BinaryReaderError(e));
            },
        };
        let import_desc = match self.read_import_desc() {
            Ok(d) => d,
            Err(e) => {
                return Err(e);
            },
        };
        Ok(Import {
            module_name: module_name.to_owned(),
            name: name.to_owned(),
            import_descriptor: import_desc,
        })
    }

    fn read_import_desc(&mut self) -> (r: Result<ImportDescriptor, ImportReaderError>)
        requires
            old(self).wf(),
        ensures
            final(self).wf(),
            final(self).body() == old(self).body(),
            final(self).spec_count() == old(self).spec_count(),
            match r {
                Ok(d) => spec_import_desc_at(old(self).body(), old(self).pos())
                    matches Ok((sd, j)) && sd == d && final(self).pos() == j,
                Err(e) => spec_import_desc_at(old(self).body(), old(self).pos())
                    == Err::<(ImportDescriptor, int), ImportReaderError>(e),
            },
    {
        match self.reader.read_byte() {
            Ok(0x00) => match self.reader.read_leb128_u32() {
                Ok(v) => Ok(ImportDescriptor::Func { type_index: TypeIndex(v) }),
                Err(e) => Err(ImportReaderError::BinaryReaderError(e)),
            },
            Ok(0x01) => match self.reader.read_table_type() {
                Ok(t) => Ok(ImportDescriptor::Table(t)),
                Err(e) => Err(ImportReaderError::BinaryReaderError(e)),
            },
            Ok(0x02) => match self.reader.read_memory_type() {
                Ok(m) => Ok(ImportDescriptor::Memory(m)),
                Err(e) => Err(ImportReaderError::BinaryReaderError(e)),
            },
            Ok(0x03) => match self.reader.read_global_type() {
                Ok(g) => Ok(ImportDescriptor::Global(g)),
                Err(e) => Err(ImportReaderError::BinaryReaderError(e)),
            },
            Ok(_) => Err(ImportReaderError::InvalidImportDescByte),
            Err(e) => Err(ImportReaderError::BinaryReaderError(e)),
        }
    }
}

} // verus!
