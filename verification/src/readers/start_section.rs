//! Reader for the start section: a single function index.

use vstd::prelude::*;
use crate::leb::{leb128_u32_at, BinaryReaderError};
use crate::readers::binary::BinaryReader;
use crate::types::FuncIndex;

verus! {

#[derive(PartialEq, Eq, Structural, Clone, Copy, Debug)]
pub enum StartReaderError {
    BinaryReaderError(BinaryReaderError),
}

#[derive(Clone, Copy, Eq, PartialEq, Debug)]
pub struct StartSectionReader<'a> {
    reader: BinaryReader<'a>,
    func_index: FuncIndex,
}

impl<'a> StartSectionReader<'a> {
    pub closed spec fn body(&self) -> Seq<u8> {
        self.reader.bytes()
    }

    pub closed spec fn spec_func_index(&self) -> FuncIndex {
        self.func_index
    }

    pub(crate) fn new(buffer: &'a [u8]) -> (r: Result<StartSectionReader<'a>, BinaryReaderError>)
        ensures
            match r {
                Ok(rd) => {
                    &&& rd.body() == buffer@
                    &&& leb128_u32_at(buffer@, 0) matches Ok((v, _))
                        && rd.spec_func_index().0 as nat == v
                },
                Err(e) => leb128_u32_at(buffer@, 0) == Err::<(nat, int), BinaryReaderError>(e),
            },
    {
        let mut reader = BinaryReader::new(buffer);
        let index = match reader.read_leb128_u32() {
            Ok(v) => v,
            Err(e) => {
                return Err(e);
            },
        };
        Ok(StartSectionReader { reader, func_index: FuncIndex(index) })
    }

    pub fn get_func_index(&self) -> (r: FuncIndex)
        ensures
            r == self.spec_func_index(),
    {
        self.func_index
    }
}

} // verus!
