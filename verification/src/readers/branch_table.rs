//! Reader for a `br_table` immediate: a label count, then that many label
//! indices followed by the default label.  The reader is cheap to copy, so
//! the validator can re-traverse the targets without consuming the primary
//! instruction cursor.

use vstd::prelude::*;
use crate::leb::{leb128_u32_at, BinaryReaderError};
use crate::readers::binary::BinaryReader;
use crate::types::LabelIndex;

verus! {

#[derive(PartialEq, Eq, Structural, Clone, Copy, Debug)]
pub enum BranchReaderError {
    BinaryReaderError(BinaryReaderError),
}

/// The `n` LEB128 label indices at position `i` of `s`, with the position
/// just past them.
pub open spec fn spec_label_seq_at(s: Seq<u8>, i: int, n: nat) -> Result<(Seq<u32>, int), BinaryReaderError>
    decreases n
{
    if n == 0 {
        Ok((Seq::empty(), i))
    } else {
        match leb128_u32_at(s, i) {
            Ok((v, j)) => match spec_label_seq_at(s, j, (n - 1) as nat) {
                Ok((ls, k)) => Ok((seq![v as u32] + ls, k)),
                Err(e) => Err(e),
            },
            Err(e) => Err(e),
        }
    }
}

/// The whole `br_table` immediate at position `i` of `s`: a count `n`, then
/// `n + 1` labels, the last being the default target.
pub open spec fn spec_br_table_at(s: Seq<u8>, i: int) -> Result<(Seq<u32>, int), BinaryReaderError> {
    match leb128_u32_at(s, i) {
        Ok((n, j)) => spec_label_seq_at(s, j, n + 1),
        Err(e) => Err(e),
    }
}

/// A restartable cursor over the labels of one `br_table` immediate.
#[derive(Clone, Copy)]
pub struct BranchTableReader<'a> {
    reader: BinaryReader<'a>,
    num_labels: u32,
    labels: Ghost<Seq<u32>>,
    taken: Ghost<nat>,
}

impl<'a> BranchTableReader<'a> {
    /// All labels of the table, the default target last.
    pub closed spec fn spec_labels(&self) -> Seq<u32> {
        self.labels@
    }

    /// How many labels have been read from this cursor.
    pub closed spec fn spec_taken(&self) -> nat {
        self.taken@
    }

    pub closed spec fn wf(&self) -> bool {
        &&& self.reader.wf()
        &&& self.num_labels < u32::MAX
        &&& self.labels@.len() == self.num_labels + 1
        &&& self.taken@ <= self.labels@.len()
        &&& spec_label_seq_at(
            self.reader.bytes(),
            self.reader.pos(),
            (self.labels@.len() - self.taken@) as nat,
        ) matches Ok((ls, _)) && ls == self.labels@.skip(self.taken@ as int)
    }

    /// Scans and validates a whole `br_table` immediate, advancing `reader`
    /// past it, and returns a restartable cursor over its labels.  A table
    /// whose declared label count cannot be counted in a `u32` together with
    /// its default target is rejected with `InvalidU32`.
    pub(crate) fn scan(reader: &mut BinaryReader<'a>) -> (r: Result<
        BranchTableReader<'a>,
        BinaryReaderError,
    >)
        requires
            old(reader).wf(),
        ensures
            final(reader).wf(),
            final(reader).bytes() == old(reader).bytes(),
            old(reader).pos() <= final(reader).pos(),
            match r {
                Ok(btr) => {
                    &&& btr.wf()
                    &&& btr.spec_taken() == 0
                    &&& spec_br_table_at(old(reader).bytes(), old(reader).pos())
                        == Ok::<(Seq<u32>, int), BinaryReaderError>(
                        (btr.spec_labels(), final(reader).pos()),
                    )
                    &&& leb128_u32_at(old(reader).bytes(), old(reader).pos())
                        matches Ok((n, _)) && n < u32::MAX
                },
                Err(e) => match leb128_u32_at(old(reader).bytes(), old(reader).pos()) {
                    Ok((n, _)) => if n == u32::MAX {
                        e == BinaryReaderError::InvalidU32
                    } else {
                        spec_br_table_at(old(reader).bytes(), old(reader).pos())
                            == Err::<(Seq<u32>, int), BinaryReaderError>(e)
                    },
                    Err(e2) => e == e2,
                },
            },
    {
        let ghost s = old(reader).bytes();
        let num_labels = match reader.read_leb128_u32() {
            Ok(n) => n,
            Err(e) => {
                return Err(e);
            },
        };
        if num_labels == u32::MAX {
            return Err(BinaryReaderError::InvalidU32);
        }
        let table_reader = *reader;
        let ghost start = reader.pos();
        let total: u64 = num_labels as u64 + 1;
        let mut labels: Ghost<Seq<u32>> = Ghost(Seq::empty());
        let mut k: u64 = 0;
        while k < total
            invariant
                s == old(reader).bytes(),
                leb128_u32_at(s, old(reader).pos()) == Ok::<(nat, int), BinaryReaderError>(
                    (num_labels as nat, start),
                ),
                num_labels < u32::MAX,
                total == num_labels + 1,
                reader.wf(),
                reader.bytes() == s,
                old(reader).pos() <= reader.pos(),
                k <= total,
                labels@.len() == k,
                spec_label_seq_at(s, start, total as nat) == (
                match spec_label_seq_at(s, reader.pos(), (total - k) as nat) {
                    Ok((ls, j)) => Ok::<(Seq<u32>, int), BinaryReaderError>((labels@ + ls, j)),
                    Err(e) => Err::<(Seq<u32>, int), BinaryReaderError>(e),
                }),
            decreases total - k,
        {
            let v = match reader.read_leb128_u32() {
                Ok(v) => v,
                Err(e) => {
                    return Err(e);
                },
            };
            let ghost prev = labels@;
            proof {
                labels@ = labels@.push(v);
            }
            k = k + 1;
            proof {
                assert(labels@ =~= prev + seq![v]);
                let rest = spec_label_seq_at(s, reader.pos(), (total - k) as nat);
                if rest is Ok {
                    let ls = rest->Ok_0.0;
                    assert((prev + (seq![v] + ls)) =~= (labels@ + ls));
                }
            }
        }
        proof {
            assert(labels@ + Seq::<u32>::empty() =~= labels@);
            assert(labels@.skip(0) =~= labels@);
        }
        Ok(
            BranchTableReader {
                reader: table_reader,
                num_labels,
                labels,
                taken: Ghost(0),
            },
        )
    }

    /// The number of labels the cursor will yield: the declared count plus
    /// the default target.
    pub fn get_num_labels(&self) -> (r: u32)
        requires
            self.wf(),
        ensures
            r == self.spec_labels().len(),
            r >= 1,
    {
        self.num_labels + 1
    }

    /// Reads the next label of the table.
    pub fn read(&mut self) -> (r: Result<LabelIndex, BranchReaderError>)
        requires
            old(self).wf(),
            old(self).spec_taken() < old(self).spec_labels().len(),
        ensures
            final(self).wf(),
            final(self).spec_labels() == old(self).spec_labels(),
            final(self).spec_taken() == old(self).spec_taken() + 1,
            r == Ok::<LabelIndex, BranchReaderError>(
                LabelIndex(old(self).spec_labels()[old(self).spec_taken() as int]),
            ),
    {
        proof {
            let t = old(self).taken@ as int;
            assert(old(self).labels@.skip(t)[0] == old(self).labels@[t]);
        }
        let label = match self.reader.read_leb128_u32() {
            Ok(v) => v,
            Err(e) => {
                proof {
                    assert(false);
                }
                return Err(BranchReaderError::BinaryReaderError(e));
            },
        };
        proof {
            self.taken@ = self.taken@ + 1;
            let t = old(self).taken@ as int;
            let rem = (old(self).labels@.len() - old(self).taken@) as nat;
            let inner = spec_label_seq_at(self.reader.bytes(), self.reader.pos(), (rem - 1) as nat);
            assert(inner is Ok);
            let ls = inner->Ok_0.0;
            assert(seq![label] + ls == old(self).labels@.skip(t));
            assert forall|i: int| 0 <= i < ls.len() implies ls[i] == old(self).labels@.skip(
                t + 1,
            )[i] by {
                assert(ls[i] == (seq![label] + ls)[i + 1]);
                assert(old(self).labels@.skip(t)[i + 1] == old(self).labels@[t + 1 + i]);
                assert(old(self).labels@.skip(t + 1)[i] == old(self).labels@[t + 1 + i]);
            }
            assert(ls.len() == old(self).labels@.skip(t + 1).len());
            assert(ls =~= old(self).labels@.skip(t + 1));
        }
        Ok(LabelIndex(label))
    }
}

} // verus!
