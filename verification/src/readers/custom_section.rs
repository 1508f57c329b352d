//! Reader for a custom section: a name, then arbitrary bytes up to the end
//! of the section body.

use vstd::prelude::*;
use crate::leb::BinaryReaderError;
use crate::readers::binary::{spec_string_at, BinaryReader};

verus! {

#[derive(PartialEq, Eq, Structural, Clone, Copy, Debug)]
pub enum CustomReaderError {
    BinaryReaderError(BinaryReaderError),
}

#[derive(Clone, Copy, Eq, PartialEq, Debug)]
pub struct CustomSectionReader<'a> {
    reader: BinaryReader<'a>,
    name: &'a str,
    data: &'a [u8],
}

impl<'a> CustomSectionReader<'a> {
    pub closed spec fn body(&self) -> Seq<u8> {
        self.reader.bytes()
    }

    pub closed spec fn spec_name(&self) -> Seq<char> {
        self.name@
    }

    pub closed spec fn spec_data(&self) -> Seq<u8> {
        self.data@
    }

    pub(crate) fn new(buffer: &'a [u8]) -> (r: Result<CustomSectionReader<'a>, BinaryReaderError>)
        ensures
            match r {
                Ok(rd) => {
                    &&& rd.body() == buffer@
                    &&& spec_string_at(buffer@, 0) matches Ok((cs, j)) && rd.spec_name() == cs
                        && rd.spec_data() == buffer@.subrange(j, buffer@.len() as int)
                },
                Err(e) => spec_string_at(buffer@, 0) == Err::<(Seq<char>, int), BinaryReaderError>(
                    e,
                ),
            },
    {
        let mut reader = BinaryReader::new(buffer);
        let name = match reader.read_string() {
            Ok(n) => n,
            Err(e) => {
                return Err(e);
            },
        };
        let position = reader.get_position();
        let data = match reader.create_buffer_slice(position, buffer.len()) {
            Ok(d) => d,
            Err(e) => {
                return Err(e);
            },
        };
        Ok(CustomSectionReader { reader, name, data })
    }

    pub fn get_name(&self) -> (r: &str)
        ensures
            r@ == self.spec_name(),
    {
        self.name
    }

    pub fn get_data(&self) -> (r: &[u8])
        ensures
            r@ == self.spec_data(),
    {
        self.data
    }
}

} // verus!
