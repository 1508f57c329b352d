//! The streaming parser: a three-state machine over the module preamble and
//! its sections.  Each call consumes at most one section from the front of
//! the caller's buffer and reports how many bytes the caller may drain.

use vstd::prelude::*;
use crate::leb::{leb128_u32_at, BinaryReaderError};
use crate::readers::binary::{le_u32_at, spec_bytes_vec_at, spec_string_at, BinaryReader};
use crate::readers::code_section::CodeSectionReader;
use crate::readers::custom_section::CustomSectionReader;
use crate::readers::data_section::DataSectionReader;
use crate::readers::element_section::ElementSectionReader;
use crate::readers::export_section::ExportSectionReader;
use crate::readers::function_section::FunctionSectionReader;
use crate::readers::global_section::GlobalSectionReader;
use crate::readers::import_section::ImportSectionReader;
use crate::readers::memory_section::MemorySectionReader;
use crate::readers::preamble::{PreambleReader, PreambleReaderError};
use crate::readers::start_section::StartSectionReader;
use crate::readers::table_section::TableSectionReader;
use crate::readers::type_section::TypeSectionReader;

verus! {

/// A reader over the body of one section, tagged with the section's kind.
pub enum SectionReader<'a> {
    Custom(CustomSectionReader<'a>),
    Type(TypeSectionReader<'a>),
    Import(ImportSectionReader<'a>),
    Function(FunctionSectionReader<'a>),
    Table(TableSectionReader<'a>),
    Memory(MemorySectionReader<'a>),
    Global(GlobalSectionReader<'a>),
    Export(ExportSectionReader<'a>),
    Start(StartSectionReader<'a>),
    Element(ElementSectionReader<'a>),
    Code(CodeSectionReader<'a>),
    Data(DataSectionReader<'a>),
    Unknown(u8),
}

/// One step's worth of module structure.
pub enum Chunk<'a> {
    Preamble(&'a [u8], u32),
    Section(SectionReader<'a>),
    Done,
}

#[derive(PartialEq, Eq, Structural, Clone, Copy, Debug)]
pub enum ParseError {
    UnneededBytes,
    BinaryReader(BinaryReaderError),
    PreambleReader(PreambleReaderError),
}

#[derive(PartialEq, Eq, Structural, Clone, Copy, Debug)]
enum ParserLocation {
    ModuleHeader,
    Section,
    End,
}

pub struct Parser {
    location: ParserLocation,
}

/// The section reader built over `body` for section id `id` is the variant
/// the id calls for, carries exactly `body`, and has consumed its leading
/// count where its kind has one.
pub open spec fn spec_section_reader_for<'a>(sr: SectionReader<'a>, id: u8, body: Seq<u8>) -> bool {
    if id == 0 {
        sr matches SectionReader::Custom(r) && r.body() == body
    } else if id == 1 {
        sr matches SectionReader::Type(r) && ({
            &&& r.wf()
            &&& r.body() == body
            &&& leb128_u32_at(body, 0) == Ok::<(nat, int), BinaryReaderError>(
                (r.spec_count() as nat, r.pos()),
            )
        })
    } else if id == 2 {
        sr matches SectionReader::Import(r) && ({
            &&& r.wf()
            &&& r.body() == body
            &&& leb128_u32_at(body, 0) == Ok::<(nat, int), BinaryReaderError>(
                (r.spec_count() as nat, r.pos()),
            )
        })
    } else if id == 3 {
        sr matches SectionReader::Function(r) && ({
            &&& r.wf()
            &&& r.body() == body
            &&& leb128_u32_at(body, 0) == Ok::<(nat, int), BinaryReaderError>(
                (r.spec_count() as nat, r.pos()),
            )
        })
    } else if id == 4 {
        sr matches SectionReader::Table(r) && ({
            &&& r.wf()
            &&& r.body() == body
            &&& leb128_u32_at(body, 0) == Ok::<(nat, int), BinaryReaderError>(
                (r.spec_count() as nat, r.pos()),
            )
        })
    } else if id == 5 {
        sr matches SectionReader::Memory(r) && ({
            &&& r.wf()
            &&& r.body() == body
            &&& leb128_u32_at(body, 0) == Ok::<(nat, int), BinaryReaderError>(
                (r.spec_count() as nat, r.pos()),
            )
        })
    } else if id == 6 {
        sr matches SectionReader::Global(r) && ({
            &&& r.wf()
            &&& r.body() == body
            &&& leb128_u32_at(body, 0) == Ok::<(nat, int), BinaryReaderError>(
                (r.spec_count() as nat, r.pos()),
            )
        })
    } else if id == 7 {
        sr matches SectionReader::Export(r) && ({
            &&& r.wf()
            &&& r.body() == body
            &&& leb128_u32_at(body, 0) == Ok::<(nat, int), BinaryReaderError>(
                (r.spec_count() as nat, r.pos()),
            )
        })
    } else if id == 8 {
        sr matches SectionReader::Start(r) && ({
            &&& r.body() == body
            &&& leb128_u32_at(body, 0) matches Ok((v, _)) && r.spec_func_index().0 as nat == v
        })
    } else if id == 9 {
        sr matches SectionReader::Element(r) && ({
            &&& r.wf()
            &&& r.body() == body
            &&& leb128_u32_at(body, 0) == Ok::<(nat, int), BinaryReaderError>(
                (r.spec_count() as nat, r.pos()),
            )
        })
    } else if id == 10 {
        sr matches SectionReader::Code(r) && ({
            &&& r.wf()
            &&& r.body() == body
            &&& leb128_u32_at(body, 0) == Ok::<(nat, int), BinaryReaderError>(
                (r.spec_count() as nat, r.pos()),
            )
        })
    } else if id == 11 {
        sr matches SectionReader::Data(r) && ({
            &&& r.wf()
            &&& r.body() == body
            &&& leb128_u32_at(body, 0) == Ok::<(nat, int), BinaryReaderError>(
                (r.spec_count() as nat, r.pos()),
            )
        })
    } else {
        sr == SectionReader::Unknown::<'a>(id)
    }
}

/// The error with which the section reader for id `id` refuses `body`, if
/// it refuses it: every numbered section begins with a LEB128 count, and a
/// custom section with a name.
pub open spec fn spec_section_reader_error(id: u8, body: Seq<u8>) -> Option<BinaryReaderError> {
    if id == 0 {
        match spec_string_at(body, 0) {
            Ok(_) => None,
            Err(e) => Some(e),
        }
    } else if 1 <= id <= 11 {
        match leb128_u32_at(body, 0) {
            Ok(_) => None,
            Err(e) => Some(e),
        }
    } else {
        None
    }
}

impl Parser {
    /// The parser has not yet read the module preamble.
    pub closed spec fn in_header(&self) -> bool {
        self.location == ParserLocation::ModuleHeader
    }

    /// The parser expects a section or the end of the module.
    pub closed spec fn in_section(&self) -> bool {
        self.location == ParserLocation::Section
    }

    /// The parser has seen the end of the module.
    pub closed spec fn at_end(&self) -> bool {
        self.location == ParserLocation::End
    }

    pub fn new() -> (r: Parser)
        ensures
            r.in_header(),
    {
        Parser { location: ParserLocation::ModuleHeader }
    }

    /// One step of the state machine.  In the header state it consumes the
    /// 8-byte preamble; in the section state it consumes one whole section,
    /// or ends the module on an empty buffer; at the end it keeps reporting
    /// `Done` on an empty buffer and refuses any further bytes.  Whenever a
    /// chunk is consumed from a non-empty buffer, `consumed` is at least 1.
    pub fn parse<'a>(&mut self, buffer: &'a [u8]) -> (r: Result<(usize, Chunk<'a>), ParseError>)
        ensures
            old(self).in_header() ==> match r {
                Ok((consumed, chunk)) => {
                    &&& buffer@.len() >= 8
                    &&& consumed == 8
                    &&& chunk matches Chunk::Preamble(magic, version) && ({
                        &&& magic@ == buffer@.subrange(0, 4)
                        &&& version == le_u32_at(buffer@, 4)
                    })
                    &&& final(self).in_section()
                },
                Err(e) => {
                    &&& e == ParseError::PreambleReader(
                        PreambleReaderError::BinaryReaderError(BinaryReaderError::UnexpectedEof),
                    )
                    &&& buffer@.len() < 8
                    &&& final(self).in_header()
                },
            },
            old(self).in_section() && buffer@.len() == 0 ==> {
                &&& r matches Ok((consumed, chunk)) && (consumed == 0 && chunk is Done)
                &&& final(self).at_end()
            },
            old(self).in_section() && buffer@.len() > 0 ==> ({
                &&& final(self).in_section()
                &&& match r {
                    Ok((consumed, chunk)) => {
                        &&& spec_bytes_vec_at(buffer@, 1) matches Ok((body, end)) && ({
                            &&& consumed == end
                            &&& consumed >= 1
                            &&& chunk matches Chunk::Section(sr)
                            &&& spec_section_reader_for(sr, buffer@[0], body)
                        })
                    },
                    Err(ParseError::BinaryReader(e)) => {
                        ||| spec_bytes_vec_at(buffer@, 1) == Err::<(Seq<u8>, int),
                            BinaryReaderError>(e)
                        ||| spec_bytes_vec_at(buffer@, 1) matches Ok((body, _))
                            && spec_section_reader_error(buffer@[0], body) == Some(e)
                    },
                    Err(_) => false,
                }
            }),
            old(self).at_end() ==> {
                &&& final(self).at_end()
                &&& if buffer@.len() == 0 {
                    r matches Ok((consumed, chunk)) && (consumed == 0 && chunk is Done)
                } else {
                    r == Err::<(usize, Chunk<'a>), ParseError>(ParseError::UnneededBytes)
                }
            },
    {
        match self.location {
            ParserLocation::ModuleHeader => {
                let mut preamble_reader = PreambleReader::new(buffer);
                let (consumed, magic_number, version) = match preamble_reader.read_preamble() {
                    Ok(t) => t,
                    Err(e) => {
                        return Err(ParseError::PreambleReader(e));
                    },
                };
                self.location = ParserLocation::Section;
                Ok((consumed, Chunk::Preamble(magic_number, version)))
            },
            ParserLocation::Section => {
                if buffer.len() == 0 {
                    self.location = ParserLocation::End;
                    Ok((0, Chunk::Done))
                } else {
                    let mut reader = BinaryReader::new(buffer);
                    let id = match reader.read_byte() {
                        Ok(b) => b,
                        Err(e) => {
                            proof {
                                assert(false);
                            }
                            return Err(ParseError::BinaryReader(e));
                        },
                    };
                    let bytes = match reader.read_length_prefixed_bytes() {
                        Ok(b) => b,
                        Err(e) => {
                            return Err(ParseError::BinaryReader(e));
                        },
                    };
                    let section_reader = match Self::create_section_reader(bytes, id) {
                        Ok(sr) => sr,
                        Err(e) => {
                            return Err(e);
                        },
                    };
                    Ok((reader.get_position(), Chunk::Section(section_reader)))
                }
            },
            ParserLocation::End => {
                if buffer.len() > 0 {
                    Err(ParseError::UnneededBytes)
                } else {
                    Ok((0, Chunk::Done))
                }
            },
        }
    }

    /// Builds the section reader the id calls for over the section's body.
    fn create_section_reader<'a>(buffer: &'a [u8], id: u8) -> (r: Result<
        SectionReader<'a>,
        ParseError,
    >)
        ensures
            match r {
                Ok(sr) => spec_section_reader_for(sr, id, buffer@),
                Err(ParseError::BinaryReader(e)) => spec_section_reader_error(id, buffer@)
                    == Some(e),
                Err(_) => false,
            },
    {
        match id {
            0 => match CustomSectionReader::new(buffer) {
                Ok(r) => Ok(SectionReader::Custom(r)),
                Err(e) => Err(ParseError::BinaryReader(e)),
            },
            1 => match TypeSectionReader::new(buffer) {
                Ok(r) => Ok(SectionReader::Type(r)),
                Err(e) => Err(ParseError::BinaryReader(e)),
            },
            2 => match ImportSectionReader::new(buffer) {
                Ok(r) => Ok(SectionReader::Import(r)),
                Err(e) => Err(ParseError::BinaryReader(e)),
            },
            3 => match FunctionSectionReader::new(buffer) {
                Ok(r) => Ok(SectionReader::Function(r)),
                Err(e) => Err(ParseError::BinaryReader(e)),
            },
            4 => match TableSectionReader::new(buffer) {
                Ok(r) => Ok(SectionReader::Table(r)),
                Err(e) => Err(ParseError::BinaryReader(e)),
            },
            5 => match MemorySectionReader::new(buffer) {
                Ok(r) => Ok(SectionReader::Memory(r)),
                Err(e) => Err(ParseError::BinaryReader(e)),
            },
            6 => match GlobalSectionReader::new(buffer) {
                Ok(r) => Ok(SectionReader::Global(r)),
                Err(e) => Err(ParseError::BinaryReader(e)),
            },
            7 => match ExportSectionReader::new(buffer) {
                Ok(r) => Ok(SectionReader::Export(r)),
                Err(e) => Err(ParseError::BinaryReader(e)),
            },
            8 => match StartSectionReader::new(buffer) {
                Ok(r) => Ok(SectionReader::Start(r)),
                Err(e) => Err(ParseError::BinaryReader(e)),
            },
            9 => match ElementSectionReader::new(buffer) {
                Ok(r) => Ok(SectionReader::Element(r)),
                Err(e) => Err(ParseError::BinaryReader(e)),
            },
            10 => match CodeSectionReader::new(buffer) {
                Ok(r) => Ok(SectionReader::Code(r)),
                Err(e) => Err(ParseError::BinaryReader(e)),
            },
            11 => match DataSectionReader::new(buffer) {
                Ok(r) => Ok(SectionReader::Data(r)),
                Err(e) => Err(ParseError::BinaryReader(e)),
            },
            _ => Ok(SectionReader::Unknown(id)),
        }
    }
}

} // verus!
