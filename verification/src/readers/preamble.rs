//! Reader for the 8-byte module preamble: four magic bytes and a
//! little-endian version word.  It does not judge their values; that is the
//! validator's concern, so that parse-only clients can still see them.

use vstd::prelude::*;
use crate::leb::BinaryReaderError;
use crate::readers::binary::{le_u32_at, BinaryReader};

verus! {

#[derive(PartialEq, Eq, Structural, Clone, Copy, Debug)]
pub enum PreambleReaderError {
    BinaryReaderError(BinaryReaderError),
}

#[derive(Eq, PartialEq, Debug)]
pub struct PreambleReader<'a> {
    reader: BinaryReader<'a>,
}

impl<'a> PreambleReader<'a> {
    pub closed spec fn bytes(&self) -> Seq<u8> {
        self.reader.bytes()
    }

    pub closed spec fn pos(&self) -> int {
        self.reader.pos()
    }

    pub closed spec fn wf(&self) -> bool {
        self.reader.wf()
    }

    pub fn new(buffer: &'a [u8]) -> (r: PreambleReader<'a>)
        ensures
            r.bytes() == buffer@,
            r.pos() == 0,
            r.wf(),
    {
        let reader = BinaryReader::new(buffer);
        PreambleReader { reader }
    }

    /// Reads the preamble: on success, the count of bytes consumed (always
    /// eight), the four magic bytes, and the version word.
    pub fn read_preamble(&mut self) -> (r: Result<(usize, &'a [u8], u32), PreambleReaderError>)
        requires
            old(self).wf(),
            old(self).pos() == 0,
        ensures
            final(self).wf(),
            final(self).bytes() == old(self).bytes(),
            match r {
                Ok((consumed, magic, version)) => {
                    &&& old(self).bytes().len() >= 8
                    &&& consumed == 8
                    &&& magic@ == old(self).bytes().subrange(0, 4)
                    &&& version == le_u32_at(old(self).bytes(), 4)
                },
                Err(e) => {
                    &&& e == PreambleReaderError::BinaryReaderError(
                        BinaryReaderError::UnexpectedEof,
                    )
                    &&& old(self).bytes().len() < 8
                },
            },
    {
        let magic_bytes = match self.reader.read_bytes(4) {
            Ok(b) => b,
            Err(e) => {
                return Err(PreambleReaderError::BinaryReaderError(e));
            },
        };
        let version = match self.reader.read_fixed_u32_le() {
            Ok(v) => v,
            Err(e) => {
                return Err(PreambleReaderError::BinaryReaderError(e));
            },
        };
        Ok((self.reader.get_position(), magic_bytes, version))
    }
}

} // verus!
