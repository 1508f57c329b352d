//! Reader for the element section: a count, then that many element
//! segments, each a table index, an offset initializer region and a vector
//! of function indices.

use vstd::prelude::*;
use crate::leb::{leb128_u32_at, BinaryReaderError};
use crate::readers::binary::BinaryReader;
use crate::readers::branch_table::spec_label_seq_at;
use crate::readers::instruction::{spec_expr_end_at, InstructionReader, InstructionReaderError};
use crate::types::{FuncIndex, TableIndex};

verus! {

#[derive(PartialEq, Eq, Structural, Clone, Copy, Debug)]
pub enum ElementReaderError {
    BinaryReaderError(BinaryReaderError),
    InstructionReaderError(InstructionReaderError),
}

/// A LEB128 count followed by that many LEB128 `u32` values.
pub open spec fn spec_u32_vec_at(s: Seq<u8>, i: int) -> Result<(Seq<u32>, int), BinaryReaderError> {
    match leb128_u32_at(s, i) {
        Ok((n, j)) => spec_label_seq_at(s, j, n),
        Err(e) => Err(e),
    }
}

/// One entry of the element section.
pub struct ElementSegment<'a> {
    pub table_index: TableIndex,
    pub instruction_reader: InstructionReader<'a>,
    pub function_indices: Vec<FuncIndex>,
}

#[derive(Clone, Copy, Eq, PartialEq, Debug)]
pub struct ElementSectionReader<'a> {
    reader: BinaryReader<'a>,
    count: u32,
}

impl<'a> ElementSectionReader<'a> {
    pub closed spec fn body(&self) -> Seq<u8> {
        self.reader.bytes()
    }

    pub closed spec fn pos(&self) -> int {
        self.reader.pos()
    }

    pub closed spec fn spec_count(&self) -> u32 {
        self.count
    }

    pub closed spec fn wf(&self) -> bool {
        self.reader.wf()
    }

    pub(crate) fn new(buffer: &'a [u8]) -> (r: Result<ElementSectionReader<'a>, BinaryReaderError>)
        ensures
            match r {
                Ok(rd) => {
                    &&& rd.wf()
                    &&& rd.body() == buffer@
                    &&& leb128_u32_at(buffer@, 0) == Ok::<(nat, int), BinaryReaderError>(
                        (rd.spec_count() as nat, rd.pos()),
                    )
                },
                Err(e) => leb128_u32_at(buffer@, 0) == Err::<(nat, int), BinaryReaderError>(e),
            },
    {
        let mut reader = BinaryReader::new(buffer);
        let count = match reader.read_leb128_u32() {
            Ok(c) => c,
            Err(e) => {
                return Err(e);
            },
        };
        Ok(ElementSectionReader { reader, count })
    }

    pub fn get_count(&self) -> (r: u32)
        ensures
            r == self.spec_count(),
    {
        self.count
    }

    /// Reads one element segment: its table index, its offset initializer
    /// region up to and including `End`, and its function indices.
    pub fn read(&mut self) -> (r: Result<ElementSegment<'a>, ElementReaderError>)
        requires
            old(self).wf(),
        ensures
            final(self).wf(),
            final(self).body() == old(self).body(),
            final(self).spec_count() == old(self).spec_count(),
            match r {
                Ok(seg) => leb128_u32_at(old(self).body(), old(self).pos())
                    matches Ok((t, j)) && ({
                    &&& seg.table_index.0 as nat == t
                    &&& spec_expr_end_at(old(self).body(), j) matches Ok(k) && ({
                        &&& seg.instruction_reader.wf()
                        &&& seg.instruction_reader.pos() == 0
                        &&& seg.instruction_reader.bytes() == old(self).body().subrange(j, k)
                        &&& spec_u32_vec_at(old(self).body(), k)
                            matches Ok((fs, m)) && ({
                            &&& seg.function_indices@.map_values(|f: FuncIndex| f.0) == fs
                            &&& final(self).pos() == m
                        })
                    })
                }),
                Err(ElementReaderError::BinaryReaderError(e)) => {
                    ||| leb128_u32_at(old(self).body(), old(self).pos())
                        == Err::<(nat, int), BinaryReaderError>(e)
                    ||| leb128_u32_at(old(self).body(), old(self).pos())
                        matches Ok((_, j)) && ({
                        ||| spec_expr_end_at(old(self).body(), j) == Err::<int,
                            InstructionReaderError>(
                            InstructionReaderError::BinaryReaderError(e),
                        )
                        ||| spec_expr_end_at(old(self).body(), j) matches Ok(k)
                            && spec_u32_vec_at(old(self).body(), k)
                            == Err::<(Seq<u32>, int), BinaryReaderError>(e)
                    })
                },
                Err(ElementReaderError::InstructionReaderError(e)) => {
                    &&& !(e matches InstructionReaderError::BinaryReaderError(_))
                    &&& leb128_u32_at(old(self).body(), old(self).pos())
                        matches Ok((_, j)) && spec_expr_end_at(old(self).body(), j) == Err::<
                        int,
                        InstructionReaderError,
                    >(e)
                },
            },
    {
        let ghost s = old(self).body();
        let table_index = match self.reader.read_leb128_u32() {
            Ok(v) => TableIndex(v),
            Err(e) => {
                return Err(ElementReaderError::BinaryReaderError(e));
            },
        };
        let instruction_reader = match self.reader.create_instruction_reader() {
            Ok(ir) => ir,
            Err(InstructionReaderError::BinaryReaderError(e)) => {
                return Err(ElementReaderError::BinaryReaderError(e));
            },
            Err(e) => {
                return Err(ElementReaderError::InstructionReaderError(e));
            },
        };
        let ghost k = self.pos();
        let n = match self.reader.read_leb128_u32() {
            Ok(v) => v,
            Err(e) => {
                return Err(ElementReaderError::BinaryReaderError(e));
            },
        };
        let ghost start = self.pos();
        let mut function_indices: Vec<FuncIndex> = Vec::new();
        let mut i: u32 = 0;
        while i < n
            invariant
                s == old(self).body(),
                leb128_u32_at(s, old(self).pos()) matches Ok((t0, j0))
                    && spec_expr_end_at(s, j0) == Ok::<int, InstructionReaderError>(k),
                leb128_u32_at(s, k) == Ok::<(nat, int), BinaryReaderError>((n as nat, start)),
                self.wf(),
                self.body() == s,
                self.spec_count() == old(self).spec_count(),
                i <= n,
                function_indices@.len() == i,
                spec_label_seq_at(s, start, n as nat) == (
                match spec_label_seq_at(s, self.pos(), (n - i) as nat) {
                    Ok((ls, j)) => Ok::<(Seq<u32>, int), BinaryReaderError>(
                        (function_indices@.map_values(|f: FuncIndex| f.0) + ls, j),
                    ),
                    Err(e) => Err::<(Seq<u32>, int), BinaryReaderError>(e),
                }),
            decreases n - i,
        {
            let v = match self.reader.read_leb128_u32() {
                Ok(v) => v,
                Err(e) => {
                    return Err(ElementReaderError::BinaryReaderError(e));
                },
            };
            let ghost prev = function_indices@.map_values(|f: FuncIndex| f.0);
            function_indices.push(FuncIndex(v));
            i = i + 1;
            proof {
                assert(function_indices@.map_values(|f: FuncIndex| f.0) =~= prev + seq![v]);
                let rest = spec_label_seq_at(s, self.pos(), (n - i) as nat);
                if rest is Ok {
                    let ls = rest->Ok_0.0;
                    assert((prev + (seq![v] + ls)) =~= (
                    function_indices@.map_values(|f: FuncIndex| f.0) + ls));
                }
            }
        }
        proof {
            assert(function_indices@.map_values(|f: FuncIndex| f.0) + Seq::<u32>::empty()
                =~= function_indices@.map_values(|f: FuncIndex| f.0));
        }
        Ok(ElementSegment { table_index, instruction_reader, function_indices })
    }
}

} // verus!
