//! The algorithmic type checker for function bodies: an operand stack whose
//! entries may be `Unknown` after unreachable code, and a stack of control
//! frames, one per structured instruction.  Every operation is specified
//! against the mathematical model of the two stacks, so
//! `spec_step` pins down exactly how one instruction transforms the state.

use vstd::prelude::*;
use crate::readers::branch_table::BranchTableReader;
use crate::readers::code_section::CodeReaderError;
use crate::readers::instruction::InstructionReaderError;
use crate::readers::branch_table::BranchReaderError;
use crate::types::{
    BlockType, FuncIndex, FunctionType, GlobalIndex, GlobalType, Instruction, LabelIndex,
    LocalIndex, MemoryArgument, MemoryIndex, TableIndex, TypeIndex, ValueType,
};

verus! {

#[derive(PartialEq, Eq, Structural, Clone, Copy, Debug)]
pub enum CodeValidationError {
    CodeReader(CodeReaderError),
    InstructionReader(InstructionReaderError),
    BranchReader(BranchReaderError),
    InvalidInitExpr,
    InvalidGlobalIndex(GlobalIndex),
    SettingImmutableGlobal(GlobalIndex),
    InvalidLocalIndex(LocalIndex),
    InvalidTypeIndex(TypeIndex),
    InvalidFunctionIndex(FuncIndex),
    InvalidLabelIndex(LabelIndex),
    UndefinedMemory,
    UndefinedTable,
    InvalidMemoryAlignment,
    TypeMismatch { expected: Operand, actual: Operand },
    TargetLabelsTypeMismatch,
    ValuesAtEndOfBlock,
    OperandStackEmpty,
}

/// One entry of the operand stack: a known value type, or the placeholder
/// that stands for any type in unreachable code.
#[derive(PartialEq, Eq, Structural, Clone, Copy, Debug)]
pub enum Operand {
    Known(ValueType),
    Unknown,
}

impl Operand {
    pub fn is_known(&self) -> (r: bool)
        ensures
            r == (self is Known),
    {
        match self {
            Operand::Known(_) => true,
            Operand::Unknown => false,
        }
    }

    pub fn is_unknown(&self) -> (r: bool)
        ensures
            r == (self is Unknown),
    {
        !self.is_known()
    }
}

/// The kind of structured instruction a control frame belongs to.
#[derive(PartialEq, Eq, Structural, Clone, Copy, Debug)]
pub enum ControlFrameKind {
    Block,
    If,
    Else,
    Loop,
}

/// One frame of the control stack: its kind, its signature, the operand
/// stack height at entry, and whether unreachable code follows.
#[derive(PartialEq, Eq, Structural, Clone, Copy, Debug)]
pub struct ControlFrame {
    pub kind: ControlFrameKind,
    pub block_type: BlockType,
    pub height: usize,
    pub unreachable: bool,
}

/// Every frame's entry height is within the operand stack, and heights
/// never decrease from outer frames to inner ones.
pub open spec fn spec_frames_ok(ops: Seq<Operand>, ctl: Seq<ControlFrame>) -> bool {
    &&& forall|i: int| 0 <= i < ctl.len() ==> #[trigger] ctl[i].height <= ops.len()
    &&& forall|i: int, j: int| 0 <= i <= j < ctl.len() ==> #[trigger] ctl[i].height
        <= #[trigger] ctl[j].height
}

/// Popping one operand: at the frame's entry height the stack yields
/// `Unknown` in unreachable code and underflows otherwise; above it, the top
/// entry comes off.
pub open spec fn spec_pop(ops: Seq<Operand>, frame: ControlFrame) -> Result<(Operand, Seq<Operand>), CodeValidationError> {
    if ops.len() == frame.height {
        if frame.unreachable {
            Ok((Operand::Unknown, ops))
        } else {
            Err(CodeValidationError::OperandStackEmpty)
        }
    } else {
        Ok((ops.last(), ops.drop_last()))
    }
}

/// Unifying a popped operand with the expected one: `Unknown` matches
/// anything; two known types must be equal.
pub open spec fn spec_unify(actual: Operand, expected: Operand) -> Result<Operand, CodeValidationError> {
    if actual is Unknown {
        Ok(expected)
    } else if expected is Unknown {
        Ok(actual)
    } else if actual == expected {
        Ok(actual)
    } else {
        Err(CodeValidationError::TypeMismatch { expected, actual })
    }
}

/// Popping one operand that must unify with `expected`.
pub open spec fn spec_pop_expected(ops: Seq<Operand>, frame: ControlFrame, expected: Operand) -> Result<(Operand, Seq<Operand>), CodeValidationError> {
    match spec_pop(ops, frame) {
        Ok((actual, rest)) => match spec_unify(actual, expected) {
            Ok(op) => Ok((op, rest)),
            Err(e) => Err(e),
        },
        Err(e) => Err(e),
    }
}

/// Popping a list of expected value types, right to left.
pub open spec fn spec_pop_expecteds(ops: Seq<Operand>, frame: ControlFrame, expected: Seq<ValueType>) -> Result<Seq<Operand>, CodeValidationError>
    decreases expected.len()
{
    if expected.len() == 0 {
        Ok(ops)
    } else {
        match spec_pop_expected(ops, frame, Operand::Known(expected.last())) {
            Ok((_, rest)) => spec_pop_expecteds(rest, frame, expected.drop_last()),
            Err(e) => Err(e),
        }
    }
}

/// The parameter types a block type takes from the stack.
pub open spec fn spec_block_params(bt: BlockType, types: Seq<FunctionType>) -> Result<Seq<ValueType>, CodeValidationError> {
    match bt {
        BlockType::Empty => Ok(Seq::empty()),
        BlockType::ValueType(_) => Ok(Seq::empty()),
        BlockType::TypeIndex(ti) => if ti.0 < types.len() {
            Ok(types[ti.0 as int].params@)
        } else {
            Err(CodeValidationError::InvalidTypeIndex(ti))
        },
    }
}

/// The result types a block type leaves on the stack.
pub open spec fn spec_block_results(bt: BlockType, types: Seq<FunctionType>) -> Result<Seq<ValueType>, CodeValidationError> {
    match bt {
        BlockType::Empty => Ok(Seq::empty()),
        BlockType::ValueType(t) => Ok(seq![t]),
        BlockType::TypeIndex(ti) => if ti.0 < types.len() {
            Ok(types[ti.0 as int].results@)
        } else {
            Err(CodeValidationError::InvalidTypeIndex(ti))
        },
    }
}

/// The label types of a frame: what a branch to it must provide — the
/// parameters for a loop, the results for every other kind.
pub open spec fn spec_label_types(kind: ControlFrameKind, bt: BlockType, types: Seq<FunctionType>) -> Result<Seq<ValueType>, CodeValidationError> {
    if kind is Loop {
        spec_block_params(bt, types)
    } else {
        spec_block_results(bt, types)
    }
}

/// The state of the type check of one function body.
pub struct CodeValidatorState {
    operand_stack: Vec<Operand>,
    control_stack: Vec<ControlFrame>,
}

impl CodeValidatorState {
    /// The operand stack's model.
    pub closed spec fn ops(&self) -> Seq<Operand> {
        self.operand_stack@
    }

    /// The control stack's model.
    pub closed spec fn ctl(&self) -> Seq<ControlFrame> {
        self.control_stack@
    }

    /// Well-formedness: at least one frame is open and the frames fit the
    /// operand stack.
    pub open spec fn wf(&self) -> bool {
        self.ctl().len() > 0 && spec_frames_ok(self.ops(), self.ctl())
    }

    /// A fresh state: one open frame for the whole body, typed by the
    /// function's type index.
    pub fn new(type_index: TypeIndex) -> (r: CodeValidatorState)
        ensures
            r.ops() =~= Seq::<Operand>::empty(),
            r.ctl() =~= seq![
                ControlFrame {
                    kind: ControlFrameKind::Block,
                    block_type: BlockType::TypeIndex(type_index),
                    height: 0,
                    unreachable: false,
                },
            ],
            r.wf(),
    {
        let mut control_stack: Vec<ControlFrame> = Vec::new();
        control_stack.push(
            ControlFrame {
                kind: ControlFrameKind::Block,
                block_type: BlockType::TypeIndex(type_index),
                height: 0,
                unreachable: false,
            },
        );
        CodeValidatorState { operand_stack: Vec::new(), control_stack }
    }

    fn push_known(&mut self, operand: ValueType)
        requires
            spec_frames_ok(old(self).ops(), old(self).ctl()),
        ensures
            spec_frames_ok(final(self).ops(), final(self).ctl()),
            final(self).ops() == old(self).ops().push(Operand::Known(operand)),
            final(self).ctl() == old(self).ctl(),
    {
        self.push_operand(Operand::Known(operand));
    }

    fn push_operand(&mut self, operand: Operand)
        requires
            spec_frames_ok(old(self).ops(), old(self).ctl()),
        ensures
            spec_frames_ok(final(self).ops(), final(self).ctl()),
            final(self).ops() == old(self).ops().push(operand),
            final(self).ctl() == old(self).ctl(),
    {
        self.operand_stack.push(operand);
    }

    fn pop_operand(&mut self) -> (r: Result<Operand, CodeValidationError>)
        requires
            old(self).wf(),
        ensures
            final(self).wf(),
            final(self).ctl() == old(self).ctl(),
            match r {
                Ok(op) => spec_pop(old(self).ops(), old(self).ctl().last())
                    matches Ok((op2, rest)) && op == op2 && final(self).ops() == rest,
                Err(e) => spec_pop(old(self).ops(), old(self).ctl().last())
                    == Err::<(Operand, Seq<Operand>), CodeValidationError>(e) && final(self).ops()
                    == old(self).ops(),
            },
    {
        let last = &self.control_stack[self.control_stack.len() - 1];
        if self.operand_stack.len() == last.height {
            if last.unreachable {
                Ok(Operand::Unknown)
            } else {
                Err(CodeValidationError::OperandStackEmpty)
            }
        } else {
            proof {
                assert(old(self).ctl().last().height <= old(self).ops().len());
            }
            match self.operand_stack.pop() {
                Some(op) => Ok(op),
                None => {
                    proof {
                        assert(false);
                    }
                    Err(CodeValidationError::OperandStackEmpty)
                },
            }
        }
    }

    fn pop_known(&mut self, expected: ValueType) -> (r: Result<Operand, CodeValidationError>)
        requires
            old(self).wf(),
        ensures
            final(self).wf(),
            final(self).ctl() == old(self).ctl(),
            match r {
                Ok(op) => spec_pop_expected(
                    old(self).ops(),
                    old(self).ctl().last(),
                    Operand::Known(expected),
                ) matches Ok((op2, rest)) && op == op2 && final(self).ops() == rest,
                Err(e) => spec_pop_expected(
                    old(self).ops(),
                    old(self).ctl().last(),
                    Operand::Known(expected),
                ) == Err::<(Operand, Seq<Operand>), CodeValidationError>(e) && final(self).ops()
                    == old(self).ops(),
            },
    {
        self.pop_expected(Operand::Known(expected))
    }

    fn pop_expected(&mut self, expected: Operand) -> (r: Result<Operand, CodeValidationError>)
        requires
            old(self).wf(),
        ensures
            final(self).wf(),
            final(self).ctl() == old(self).ctl(),
            match r {
                Ok(op) => spec_pop_expected(old(self).ops(), old(self).ctl().last(), expected)
                    matches Ok((op2, rest)) && op == op2 && final(self).ops() == rest,
                Err(e) => spec_pop_expected(old(self).ops(), old(self).ctl().last(), expected)
                    == Err::<(Operand, Seq<Operand>), CodeValidationError>(e) && final(self).ops()
                    == old(self).ops(),
            },
    {
        let actual = match self.pop_operand() {
            Ok(op) => op,
            Err(e) => {
                return Err(e);
            },
        };
        if actual.is_unknown() {
            return Ok(expected);
        }
        if expected.is_unknown() {
            return Ok(actual);
        }
        if actual != expected {
            let ghost ops0 = old(self).ops();
            self.operand_stack.push(actual);
            proof {
                assert(self.ops() =~= ops0);
            }
            return Err(CodeValidationError::TypeMismatch { expected, actual });
        }
        Ok(actual)
    }

    /// Pops a list of expected value types, right to left.
    fn pop_knowns(&mut self, expected: &Vec<ValueType>) -> (r: Result<(), CodeValidationError>)
        requires
            old(self).wf(),
        ensures
            final(self).wf(),
            final(self).ctl() == old(self).ctl(),
            match r {
                Ok(()) => spec_pop_expecteds(old(self).ops(), old(self).ctl().last(), expected@)
                    matches Ok(rest) && final(self).ops() == rest,
                Err(e) => spec_pop_expecteds(old(self).ops(), old(self).ctl().last(), expected@)
                    == Err::<Seq<Operand>, CodeValidationError>(e),
            },
    {
        let mut k = expected.len();
        proof {
            assert(expected@.take(expected@.len() as int) =~= expected@);
        }
        while k > 0
            invariant
                old(self).wf(),
                self.wf(),
                self.ctl() == old(self).ctl(),
                k <= expected@.len(),
                spec_pop_expecteds(old(self).ops(), old(self).ctl().last(), expected@) == (
                match spec_pop_expecteds(self.ops(), old(self).ctl().last(), expected@.take(
                    k as int,
                )) {
                    Ok(rest) => Ok::<Seq<Operand>, CodeValidationError>(rest),
                    Err(e) => Err::<Seq<Operand>, CodeValidationError>(e),
                }),
            decreases k,
        {
            let ghost before = self.ops();
            match self.pop_known(expected[k - 1]) {
                Ok(_) => {
                    proof {
                        assert(expected@.take(k as int).last() == expected@[k - 1]);
                        assert(expected@.take(k as int).drop_last() =~= expected@.take(k - 1));
                    }
                },
                Err(e) => {
                    proof {
                        assert(expected@.take(k as int).last() == expected@[k - 1]);
                    }
                    return Err(e);
                },
            }
            k = k - 1;
        }
        proof {
            assert(expected@.take(0) =~= Seq::<ValueType>::empty());
        }
        Ok(())
    }

    /// Pushes a list of known value types, left to right.
    fn push_knowns(&mut self, list: &Vec<ValueType>)
        requires
            spec_frames_ok(old(self).ops(), old(self).ctl()),
        ensures
            spec_frames_ok(final(self).ops(), final(self).ctl()),
            final(self).ctl() == old(self).ctl(),
            final(self).ops() == old(self).ops() + list@.map_values(
                |t: ValueType| Operand::Known(t),
            ),
    {
        let mut k: usize = 0;
        while k < list.len()
            invariant
                spec_frames_ok(old(self).ops(), old(self).ctl()),
                spec_frames_ok(self.ops(), self.ctl()),
                self.ctl() == old(self).ctl(),
                k <= list@.len(),
                self.ops() == old(self).ops() + list@.take(k as int).map_values(
                    |t: ValueType| Operand::Known(t),
                ),
            decreases list@.len() - k,
        {
            let ghost before = self.ops();
            self.push_known(list[k]);
            k = k + 1;
            proof {
                assert(list@.take(k as int).map_values(|t: ValueType| Operand::Known(t))
                    =~= list@.take(k - 1).map_values(|t: ValueType| Operand::Known(t)).push(
                    Operand::Known(list@[k - 1]),
                ));
                assert(self.ops() =~= old(self).ops() + list@.take(k as int).map_values(
                    |t: ValueType| Operand::Known(t),
                ));
            }
        }
        proof {
            assert(list@.take(list@.len() as int) =~= list@);
        }
    }

    fn push_control_frame(&mut self, kind: ControlFrameKind, block_type: BlockType)
        requires
            spec_frames_ok(old(self).ops(), old(self).ctl()),
        ensures
            final(self).wf(),
            final(self).ops() == old(self).ops(),
            final(self).ctl() == old(self).ctl().push(
                ControlFrame {
                    kind,
                    block_type,
                    height: old(self).ops().len() as usize,
                    unreachable: false,
                },
            ),
    {
        let height = self.operand_stack.len();
        let frame = ControlFrame { kind, block_type, height, unreachable: false };
        self.control_stack.push(frame);
    }


    /// Whether a control frame is still open.
    pub fn has_open_frame(&self) -> (r: bool)
        ensures
            r == (self.ctl().len() > 0),
    {
        self.control_stack.len() > 0
    }

    /// The frame a relative label denotes.
    fn validate_jump(&self, label_index: LabelIndex) -> (r: Result<
        ControlFrame,
        CodeValidationError,
    >)
        requires
            self.wf(),
        ensures
            match r {
                Ok(f) => spec_jump(self.ctl(), label_index.0) == Ok::<ControlFrame,
                    CodeValidationError>(f),
                Err(e) => spec_jump(self.ctl(), label_index.0) == Err::<ControlFrame,
                    CodeValidationError>(e),
            },
    {
        let n = self.control_stack.len();
        if label_index.0 as usize >= n {
            Err(CodeValidationError::InvalidLabelIndex(label_index))
        } else {
            Ok(self.control_stack[n - 1 - label_index.0 as usize])
        }
    }

    /// Pops `input` and pushes `output`.
    fn apply_unop(&mut self, input: ValueType, output: ValueType) -> (r: Result<
        (),
        CodeValidationError,
    >)
        requires
            old(self).wf(),
        ensures
            final(self).wf(),
            match r {
                Ok(()) => spec_unop(old(self).ops(), old(self).ctl(), input, output)
                    == Ok::<(Seq<Operand>, Seq<ControlFrame>), CodeValidationError>(
                    (final(self).ops(), final(self).ctl()),
                ),
                Err(e) => spec_unop(old(self).ops(), old(self).ctl(), input, output)
                    == Err::<(Seq<Operand>, Seq<ControlFrame>), CodeValidationError>(e),
            },
    {
        match self.pop_known(input) {
            Ok(_) => {},
            Err(e) => {
                return Err(e);
            },
        }
        self.push_known(output);
        Ok(())
    }

    /// Pops two operands of `input` and pushes `output`.
    fn apply_binop(&mut self, input: ValueType, output: ValueType) -> (r: Result<
        (),
        CodeValidationError,
    >)
        requires
            old(self).wf(),
        ensures
            final(self).wf(),
            match r {
                Ok(()) => spec_binop(old(self).ops(), old(self).ctl(), input, output)
                    == Ok::<(Seq<Operand>, Seq<ControlFrame>), CodeValidationError>(
                    (final(self).ops(), final(self).ctl()),
                ),
                Err(e) => spec_binop(old(self).ops(), old(self).ctl(), input, output)
                    == Err::<(Seq<Operand>, Seq<ControlFrame>), CodeValidationError>(e),
            },
    {
        match self.pop_known(input) {
            Ok(_) => {},
            Err(e) => {
                return Err(e);
            },
        }
        match self.pop_known(input) {
            Ok(_) => {},
            Err(e) => {
                return Err(e);
            },
        }
        self.push_known(output);
        Ok(())
    }

    /// A load: a memory must exist, the alignment must fit the access
    /// width, the address comes off the stack and the loaded value goes on.
    fn validate_load(
        &mut self,
        max_memory_index: Option<MemoryIndex>,
        memory_argument: MemoryArgument,
        max_alignment: u32,
        result_type: ValueType,
    ) -> (r: Result<(), CodeValidationError>)
        requires
            old(self).wf(),
        ensures
            final(self).wf(),
            match r {
                Ok(()) => max_memory_index is Some && memory_argument.alignment <= max_alignment
                    && spec_unop(old(self).ops(), old(self).ctl(), ValueType::I32, result_type)
                    == Ok::<(Seq<Operand>, Seq<ControlFrame>), CodeValidationError>(
                    (final(self).ops(), final(self).ctl()),
                ),
                Err(e) => if max_memory_index is None {
                    e == CodeValidationError::UndefinedMemory
                } else if memory_argument.alignment > max_alignment {
                    e == CodeValidationError::InvalidMemoryAlignment
                } else {
                    spec_unop(old(self).ops(), old(self).ctl(), ValueType::I32, result_type)
                        == Err::<(Seq<Operand>, Seq<ControlFrame>), CodeValidationError>(e)
                },
            },
    {
        if max_memory_index.is_none() {
            return Err(CodeValidationError::UndefinedMemory);
        }
        if memory_argument.alignment > max_alignment {
            return Err(CodeValidationError::InvalidMemoryAlignment);
        }
        self.apply_unop(ValueType::I32, result_type)
    }

    /// A store: a memory must exist, the alignment must fit the access
    /// width, and the value and address come off the stack.
    fn validate_store(
        &mut self,
        max_memory_index: Option<MemoryIndex>,
        memory_argument: MemoryArgument,
        max_alignment: u32,
        param_type: ValueType,
    ) -> (r: Result<(), CodeValidationError>)
        requires
            old(self).wf(),
        ensures
            final(self).wf(),
            match r {
                Ok(()) => max_memory_index is Some && memory_argument.alignment <= max_alignment
                    && final(self).ctl() == old(self).ctl() && (match spec_pop_expected(
                    old(self).ops(),
                    old(self).ctl().last(),
                    Operand::Known(param_type),
                ) {
                    Ok((_, rest)) => spec_pop_expected(
                        rest,
                        old(self).ctl().last(),
                        Operand::Known(ValueType::I32),
                    ) matches Ok((_, rest2)) && final(self).ops() == rest2,
                    Err(_) => false,
                }),
                Err(e) => if max_memory_index is None {
                    e == CodeValidationError::UndefinedMemory
                } else if memory_argument.alignment > max_alignment {
                    e == CodeValidationError::InvalidMemoryAlignment
                } else {
                    match spec_pop_expected(
                        old(self).ops(),
                        old(self).ctl().last(),
                        Operand::Known(param_type),
                    ) {
                        Ok((_, rest)) => spec_pop_expected(
                            rest,
                            old(self).ctl().last(),
                            Operand::Known(ValueType::I32),
                        ) == Err::<(Operand, Seq<Operand>), CodeValidationError>(e),
                        Err(e2) => e == e2,
                    }
                },
            },
    {
        if max_memory_index.is_none() {
            return Err(CodeValidationError::UndefinedMemory);
        }
        if memory_argument.alignment > max_alignment {
            return Err(CodeValidationError::InvalidMemoryAlignment);
        }
        match self.pop_known(param_type) {
            Ok(_) => {},
            Err(e) => {
                return Err(e);
            },
        }
        match self.pop_known(ValueType::I32) {
            Ok(_) => {},
            Err(e) => {
                return Err(e);
            },
        }
        Ok(())
    }

    /// Pops a called type's parameters, right to left, and pushes its
    /// results.
    fn validate_function_type(&mut self, ty: &FunctionType) -> (r: Result<(), CodeValidationError>)
        requires
            old(self).wf(),
        ensures
            final(self).wf(),
            match r {
                Ok(()) => spec_pop_expecteds(old(self).ops(), old(self).ctl().last(), ty.params@)
                    matches Ok(rest) && final(self).ctl() == old(self).ctl() && final(self).ops()
                    == rest + ty.results@.map_values(|t: ValueType| Operand::Known(t)),
                Err(e) => spec_pop_expecteds(old(self).ops(), old(self).ctl().last(), ty.params@)
                    == Err::<Seq<Operand>, CodeValidationError>(e),
            },
    {
        let params = copy_value_types(&ty.params);
        match self.pop_knowns(&params) {
            Ok(()) => {},
            Err(e) => {
                return Err(e);
            },
        }
        let results = copy_value_types(&ty.results);
        self.push_knowns(&results);
        Ok(())
    }

    /// Enters a block form: pops its parameter types and opens its frame.
    fn validate_block_type(
        &mut self,
        kind: ControlFrameKind,
        block_type: BlockType,
        function_types: &Vec<FunctionType>,
    ) -> (r: Result<(), CodeValidationError>)
        requires
            old(self).wf(),
        ensures
            final(self).wf(),
            match r {
                Ok(()) => spec_enter(old(self).ops(), old(self).ctl(), kind, block_type,
                    function_types@) == Ok::<(Seq<Operand>, Seq<ControlFrame>),
                    CodeValidationError>((final(self).ops(), final(self).ctl())),
                Err(e) => spec_enter(old(self).ops(), old(self).ctl(), kind, block_type,
                    function_types@) == Err::<(Seq<Operand>, Seq<ControlFrame>),
                    CodeValidationError>(e),
            },
    {
        let params = match block_params(block_type, function_types) {
            Ok(ps) => ps,
            Err(e) => {
                return Err(e);
            },
        };
        match self.pop_knowns(&params) {
            Ok(()) => {},
            Err(e) => {
                return Err(e);
            },
        }
        self.push_control_frame(kind, block_type);
        Ok(())
    }

    /// Checks one instruction and applies its stack effect, exactly as
    /// `spec_step` says.
    pub fn validate_instruction(
        &mut self,
        instruction: &Instruction,
        globals: &Vec<GlobalType>,
        locals: &Vec<ValueType>,
        function_types: &Vec<FunctionType>,
        function_type_indices: &Vec<TypeIndex>,
        max_table_index: Option<TableIndex>,
        max_memory_index: Option<MemoryIndex>,
    ) -> (r: Result<(), CodeValidationError>)
        requires
            old(self).wf(),
            *instruction matches Instruction::BranchTable { branch_table_reader } ==> ({
                &&& branch_table_reader.wf()
                &&& branch_table_reader.spec_taken() == 0
            }),
        ensures
            spec_frames_ok(final(self).ops(), final(self).ctl()),
            match r {
                Ok(()) => spec_step(
                    old(self).ops(),
                    old(self).ctl(),
                    *instruction,
                    globals@,
                    locals@,
                    function_types@,
                    function_type_indices@,
                    max_table_index is Some,
                    max_memory_index is Some,
                ) == Ok::<(Seq<Operand>, Seq<ControlFrame>), CodeValidationError>(
                    (final(self).ops(), final(self).ctl()),
                ),
                Err(e) => spec_step(
                    old(self).ops(),
                    old(self).ctl(),
                    *instruction,
                    globals@,
                    locals@,
                    function_types@,
                    function_type_indices@,
                    max_table_index is Some,
                    max_memory_index is Some,
                ) == Err::<(Seq<Operand>, Seq<ControlFrame>), CodeValidationError>(e),
            },
    {
        proof {
            reveal(spec_step);
        }
        match *instruction {
            Instruction::Unreachable | Instruction::Nop | Instruction::Block { .. }
                | Instruction::Loop { .. } | Instruction::If { .. } | Instruction::Else
                | Instruction::End | Instruction::Branch { .. } | Instruction::BranchIf { .. }
                | Instruction::BranchTable { .. } | Instruction::Return => self
                .validate_control_instruction(
                instruction,
                globals,
                locals,
                function_types,
                function_type_indices,
                max_table_index,
                max_memory_index,
            ),
            Instruction::Call { .. } | Instruction::CallIndirect { .. } | Instruction::Drop
                | Instruction::Select | Instruction::LocalGet { .. }
                | Instruction::LocalSet { .. } | Instruction::LocalTee { .. }
                | Instruction::GlobalGet { .. } | Instruction::GlobalSet { .. }
                | Instruction::MemorySize | Instruction::MemoryGrow => self
                .validate_index_instruction(
                instruction,
                globals,
                locals,
                function_types,
                function_type_indices,
                max_table_index,
                max_memory_index,
            ),
            _ => self.validate_plain_instruction(
                instruction,
                globals,
                locals,
                function_types,
                function_type_indices,
                max_table_index,
                max_memory_index,
            ),
        }
    }

    /// The structured control instructions and branches.
    #[verifier::rlimit(100)]
    #[verifier::spinoff_prover]
    fn validate_control_instruction(
        &mut self,
        instruction: &Instruction,
        globals: &Vec<GlobalType>,
        locals: &Vec<ValueType>,
        function_types: &Vec<FunctionType>,
        function_type_indices: &Vec<TypeIndex>,
        max_table_index: Option<TableIndex>,
        max_memory_index: Option<MemoryIndex>,
    ) -> (r: Result<(), CodeValidationError>)
        requires
            old(self).wf(),
            spec_is_control(*instruction),
            *instruction matches Instruction::BranchTable { branch_table_reader } ==> ({
                &&& branch_table_reader.wf()
                &&& branch_table_reader.spec_taken() == 0
            }),
        ensures
            spec_frames_ok(final(self).ops(), final(self).ctl()),
            match r {
                Ok(()) => spec_step(
                    old(self).ops(),
                    old(self).ctl(),
                    *instruction,
                    globals@,
                    locals@,
                    function_types@,
                    function_type_indices@,
                    max_table_index is Some,
                    max_memory_index is Some,
                ) == Ok::<(Seq<Operand>, Seq<ControlFrame>), CodeValidationError>(
                    (final(self).ops(), final(self).ctl()),
                ),
                Err(e) => spec_step(
                    old(self).ops(),
                    old(self).ctl(),
                    *instruction,
                    globals@,
                    locals@,
                    function_types@,
                    function_type_indices@,
                    max_table_index is Some,
                    max_memory_index is Some,
                ) == Err::<(Seq<Operand>, Seq<ControlFrame>), CodeValidationError>(e),
            },
    {
        proof {
            reveal(spec_step);
        }
        match *instruction {
            Instruction::Unreachable => {
                self.unreachable();
                Ok(())
            },
            Instruction::Nop => Ok(()),
            Instruction::Block { block_type } => self.validate_block_type(
                ControlFrameKind::Block,
                block_type,
                function_types,
            ),
            Instruction::Loop { block_type } => self.validate_block_type(
                ControlFrameKind::Loop,
                block_type,
                function_types,
            ),
            Instruction::If { block_type } => {
                match self.pop_known(ValueType::I32) {
                    Ok(_) => {},
                    Err(e) => {
                        return Err(e);
                    },
                }
                self.validate_block_type(ControlFrameKind::If, block_type, function_types)
            },
            Instruction::Else => {
                let frame = match self.pop_control_frame(function_types) {
                    Ok(f) => f,
                    Err(e) => {
                        return Err(e);
                    },
                };
                self.push_control_frame(ControlFrameKind::Else, frame.block_type);
                Ok(())
            },
            Instruction::End => {
                let frame = match self.pop_control_frame(function_types) {
                    Ok(f) => f,
                    Err(e) => {
                        return Err(e);
                    },
                };
                let results = match block_results(frame.block_type, function_types) {
                    Ok(rs) => rs,
                    Err(e) => {
                        return Err(e);
                    },
                };
                self.push_knowns(&results);
                Ok(())
            },
            Instruction::Branch { label_index } => {
                let frame = match self.validate_jump(label_index) {
                    Ok(f) => f,
                    Err(e) => {
                        return Err(e);
                    },
                };
                let ts = match label_types(frame.kind, frame.block_type, function_types) {
                    Ok(ts) => ts,
                    Err(e) => {
                        return Err(e);
                    },
                };
                match self.pop_knowns(&ts) {
                    Ok(()) => {},
                    Err(e) => {
                        return Err(e);
                    },
                }
                self.unreachable();
                Ok(())
            },
            Instruction::BranchIf { label_index } => {
                match self.pop_known(ValueType::I32) {
                    Ok(_) => {},
                    Err(e) => {
                        return Err(e);
                    },
                }
                let frame = match self.validate_jump(label_index) {
                    Ok(f) => f,
                    Err(e) => {
                        return Err(e);
                    },
                };
                let ts = match label_types(frame.kind, frame.block_type, function_types) {
                    Ok(ts) => ts,
                    Err(e) => {
                        return Err(e);
                    },
                };
                match self.pop_knowns(&ts) {
                    Ok(()) => {},
                    Err(e) => {
                        return Err(e);
                    },
                }
                self.push_knowns(&ts);
                Ok(())
            },
            Instruction::BranchTable { branch_table_reader } => self.validate_branch_table(
                &branch_table_reader,
                function_types,
            ),
            Instruction::Return => {
                let outer = self.control_stack[0];
                let ts = match block_results(outer.block_type, function_types) {
                    Ok(ts) => ts,
                    Err(e) => {
                        return Err(e);
                    },
                };
                match self.pop_knowns(&ts) {
                    Ok(()) => {},
                    Err(e) => {
                        return Err(e);
                    },
                }
                self.unreachable();
                Ok(())
            },
            _ => {
                proof {
                    assert(false);
                }
                Ok(())
            },
        }
    }

    /// The instructions that consult the module context: calls, local and
    /// global accesses, the parametric operators and the memory queries.
    fn validate_index_instruction(
        &mut self,
        instruction: &Instruction,
        globals: &Vec<GlobalType>,
        locals: &Vec<ValueType>,
        function_types: &Vec<FunctionType>,
        function_type_indices: &Vec<TypeIndex>,
        max_table_index: Option<TableIndex>,
        max_memory_index: Option<MemoryIndex>,
    ) -> (r: Result<(), CodeValidationError>)
        requires
            old(self).wf(),
            spec_is_index(*instruction),
        ensures
            spec_frames_ok(final(self).ops(), final(self).ctl()),
            match r {
                Ok(()) => spec_step(
                    old(self).ops(),
                    old(self).ctl(),
                    *instruction,
                    globals@,
                    locals@,
                    function_types@,
                    function_type_indices@,
                    max_table_index is Some,
                    max_memory_index is Some,
                ) == Ok::<(Seq<Operand>, Seq<ControlFrame>), CodeValidationError>(
                    (final(self).ops(), final(self).ctl()),
                ),
                Err(e) => spec_step(
                    old(self).ops(),
                    old(self).ctl(),
                    *instruction,
                    globals@,
                    locals@,
                    function_types@,
                    function_type_indices@,
                    max_table_index is Some,
                    max_memory_index is Some,
                ) == Err::<(Seq<Operand>, Seq<ControlFrame>), CodeValidationError>(e),
            },
    {
        proof {
            reveal(spec_step);
        }
        match *instruction {
            Instruction::Call { .. } | Instruction::CallIndirect { .. } | Instruction::Drop
                | Instruction::Select => self.validate_call_instruction(
                instruction,
                globals,
                locals,
                function_types,
                function_type_indices,
                max_table_index,
                max_memory_index,
            ),
            _ => self.validate_access_instruction(
                instruction,
                globals,
                locals,
                function_types,
                function_type_indices,
                max_table_index,
                max_memory_index,
            ),
        }
    }

    /// The call instructions and the parametric operators.
    #[verifier::rlimit(100)]
    #[verifier::spinoff_prover]
    fn validate_call_instruction(
        &mut self,
        instruction: &Instruction,
        globals: &Vec<GlobalType>,
        locals: &Vec<ValueType>,
        function_types: &Vec<FunctionType>,
        function_type_indices: &Vec<TypeIndex>,
        max_table_index: Option<TableIndex>,
        max_memory_index: Option<MemoryIndex>,
    ) -> (r: Result<(), CodeValidationError>)
        requires
            old(self).wf(),
            *instruction matches Instruction::Call { .. } || *instruction
                matches Instruction::CallIndirect { .. } || *instruction is Drop || *instruction
                is Select,
        ensures
            spec_frames_ok(final(self).ops(), final(self).ctl()),
            match r {
                Ok(()) => spec_step(
                    old(self).ops(),
                    old(self).ctl(),
                    *instruction,
                    globals@,
                    locals@,
                    function_types@,
                    function_type_indices@,
                    max_table_index is Some,
                    max_memory_index is Some,
                ) == Ok::<(Seq<Operand>, Seq<ControlFrame>), CodeValidationError>(
                    (final(self).ops(), final(self).ctl()),
                ),
                Err(e) => spec_step(
                    old(self).ops(),
                    old(self).ctl(),
                    *instruction,
                    globals@,
                    locals@,
                    function_types@,
                    function_type_indices@,
                    max_table_index is Some,
                    max_memory_index is Some,
                ) == Err::<(Seq<Operand>, Seq<ControlFrame>), CodeValidationError>(e),
            },
    {
        proof {
            reveal(spec_step);
        }
        match *instruction {
            Instruction::Call { func_index } => {
                if func_index.0 as usize >= function_type_indices.len() {
                    return Err(CodeValidationError::InvalidFunctionIndex(func_index));
                }
                let ti = function_type_indices[func_index.0 as usize];
                if ti.0 as usize >= function_types.len() {
                    return Err(CodeValidationError::InvalidTypeIndex(ti));
                }
                let ty = &function_types[ti.0 as usize];
                match self.validate_function_type(ty) {
                    Ok(()) => Ok(()),
                    Err(e) => Err(e),
                }
            },
            Instruction::CallIndirect { type_index } => {
                if max_table_index.is_none() {
                    return Err(CodeValidationError::UndefinedTable);
                }
                if type_index.0 as usize >= function_types.len() {
                    return Err(CodeValidationError::InvalidTypeIndex(type_index));
                }
                match self.pop_known(ValueType::I32) {
                    Ok(_) => {},
                    Err(e) => {
                        return Err(e);
                    },
                }
                let ty = &function_types[type_index.0 as usize];
                match self.validate_function_type(ty) {
                    Ok(()) => Ok(()),
                    Err(e) => Err(e),
                }
            },
            Instruction::Drop => {
                match self.pop_operand() {
                    Ok(_) => Ok(()),
                    Err(e) => Err(e),
                }
            },
            Instruction::Select => {
                match self.pop_known(ValueType::I32) {
                    Ok(_) => {},
                    Err(e) => {
                        return Err(e);
                    },
                }
                let first = match self.pop_operand() {
                    Ok(op) => op,
                    Err(e) => {
                        return Err(e);
                    },
                };
                let second = match self.pop_operand() {
                    Ok(op) => op,
                    Err(e) => {
                        return Err(e);
                    },
                };
                if second.is_unknown() {
                    self.push_operand(first);
                    return Ok(());
                }
                if first.is_unknown() {
                    self.push_operand(second);
                    return Ok(());
                }
                if second != first {
                    return Err(
                        CodeValidationError::TypeMismatch { expected: first, actual: second },
                    );
                }
                self.push_operand(second);
                Ok(())
            },
            _ => {
                proof {
                    assert(false);
                }
                Ok(())
            },
        }
    }

    /// The local and global accesses and the memory queries.
    #[verifier::rlimit(100)]
    #[verifier::spinoff_prover]
    fn validate_access_instruction(
        &mut self,
        instruction: &Instruction,
        globals: &Vec<GlobalType>,
        locals: &Vec<ValueType>,
        function_types: &Vec<FunctionType>,
        function_type_indices: &Vec<TypeIndex>,
        max_table_index: Option<TableIndex>,
        max_memory_index: Option<MemoryIndex>,
    ) -> (r: Result<(), CodeValidationError>)
        requires
            old(self).wf(),
            spec_is_index(*instruction),
            !(*instruction matches Instruction::Call { .. }),
            !(*instruction matches Instruction::CallIndirect { .. }),
            !(*instruction is Drop),
            !(*instruction is Select),
        ensures
            spec_frames_ok(final(self).ops(), final(self).ctl()),
            match r {
                Ok(()) => spec_step(
                    old(self).ops(),
                    old(self).ctl(),
                    *instruction,
                    globals@,
                    locals@,
                    function_types@,
                    function_type_indices@,
                    max_table_index is Some,
                    max_memory_index is Some,
                ) == Ok::<(Seq<Operand>, Seq<ControlFrame>), CodeValidationError>(
                    (final(self).ops(), final(self).ctl()),
                ),
                Err(e) => spec_step(
                    old(self).ops(),
                    old(self).ctl(),
                    *instruction,
                    globals@,
                    locals@,
                    function_types@,
                    function_type_indices@,
                    max_table_index is Some,
                    max_memory_index is Some,
                ) == Err::<(Seq<Operand>, Seq<ControlFrame>), CodeValidationError>(e),
            },
    {
        proof {
            reveal(spec_step);
        }
        match *instruction {
            Instruction::LocalGet { local_index } => {
                if local_index.0 as usize >= locals.len() {
                    return Err(CodeValidationError::InvalidLocalIndex(local_index));
                }
                self.push_known(locals[local_index.0 as usize]);
                Ok(())
            },
            Instruction::LocalSet { local_index } => {
                if local_index.0 as usize >= locals.len() {
                    return Err(CodeValidationError::InvalidLocalIndex(local_index));
                }
                match self.pop_known(locals[local_index.0 as usize]) {
                    Ok(_) => Ok(()),
                    Err(e) => Err(e),
                }
            },
            Instruction::LocalTee { local_index } => {
                if local_index.0 as usize >= locals.len() {
                    return Err(CodeValidationError::InvalidLocalIndex(local_index));
                }
                match self.pop_known(locals[local_index.0 as usize]) {
                    Ok(_) => {},
                    Err(e) => {
                        return Err(e);
                    },
                }
                self.push_known(locals[local_index.0 as usize]);
                Ok(())
            },
            Instruction::GlobalGet { global_index } => {
                if global_index.0 as usize >= globals.len() {
                    return Err(CodeValidationError::InvalidGlobalIndex(global_index));
                }
                self.push_known(globals[global_index.0 as usize].var_type);
                Ok(())
            },
            Instruction::GlobalSet { global_index } => {
                if global_index.0 as usize >= globals.len() {
                    return Err(CodeValidationError::InvalidGlobalIndex(global_index));
                }
                let global_type = globals[global_index.0 as usize];
                match self.pop_known(global_type.var_type) {
                    Ok(_) => {},
                    Err(e) => {
                        return Err(e);
                    },
                }
                if !global_type.mutable {
                    return Err(CodeValidationError::SettingImmutableGlobal(global_index));
                }
                Ok(())
            },
            Instruction::MemorySize => {
                if max_memory_index.is_none() {
                    return Err(CodeValidationError::UndefinedMemory);
                }
                self.push_known(ValueType::I32);
                Ok(())
            },
            Instruction::MemoryGrow => {
                if max_memory_index.is_none() {
                    return Err(CodeValidationError::UndefinedMemory);
                }
                self.apply_unop(ValueType::I32, ValueType::I32)
            },
            _ => {
                proof {
                    assert(false);
                }
                Ok(())
            },
        }
    }

    /// Checks an instruction with a fixed stack signature: a constant, a
    /// numeric or conversion operator, or a memory access.
    #[verifier::rlimit(100)]
    #[verifier::spinoff_prover]
    fn validate_plain_instruction(
        &mut self,
        instruction: &Instruction,
        globals: &Vec<GlobalType>,
        locals: &Vec<ValueType>,
        function_types: &Vec<FunctionType>,
        function_type_indices: &Vec<TypeIndex>,
        max_table_index: Option<TableIndex>,
        max_memory_index: Option<MemoryIndex>,
    ) -> (r: Result<(), CodeValidationError>)
        requires
            old(self).wf(),
            spec_is_plain(*instruction),
        ensures
            spec_frames_ok(final(self).ops(), final(self).ctl()),
            match r {
                Ok(()) => spec_step(
                    old(self).ops(),
                    old(self).ctl(),
                    *instruction,
                    globals@,
                    locals@,
                    function_types@,
                    function_type_indices@,
                    max_table_index is Some,
                    max_memory_index is Some,
                ) == Ok::<(Seq<Operand>, Seq<ControlFrame>), CodeValidationError>(
                    (final(self).ops(), final(self).ctl()),
                ),
                Err(e) => spec_step(
                    old(self).ops(),
                    old(self).ctl(),
                    *instruction,
                    globals@,
                    locals@,
                    function_types@,
                    function_type_indices@,
                    max_table_index is Some,
                    max_memory_index is Some,
                ) == Err::<(Seq<Operand>, Seq<ControlFrame>), CodeValidationError>(e),
            },
    {
        proof {
            reveal(spec_step);
        }
        match *instruction {
            Instruction::I32Const(_) => {
                self.push_known(ValueType::I32);
                Ok(())
            },
            Instruction::I64Const(_) => {
                self.push_known(ValueType::I64);
                Ok(())
            },
            Instruction::F32Const(_) => {
                self.push_known(ValueType::F32);
                Ok(())
            },
            Instruction::F64Const(_) => {
                self.push_known(ValueType::F64);
                Ok(())
            },
            Instruction::I32Eqz => self.apply_unop(ValueType::I32, ValueType::I32),
            Instruction::I32Eq | Instruction::I32Ne | Instruction::I32Lts | Instruction::I32Ltu
                | Instruction::I32Gts | Instruction::I32Gtu | Instruction::I32Les
                | Instruction::I32Leu | Instruction::I32Ges | Instruction::I32Geu => self
                .apply_binop(ValueType::I32, ValueType::I32),
            Instruction::I64Eqz => self.apply_unop(ValueType::I64, ValueType::I32),
            Instruction::I64Eq | Instruction::I64Ne | Instruction::I64Lts | Instruction::I64Ltu
                | Instruction::I64Gts | Instruction::I64Gtu | Instruction::I64Les
                | Instruction::I64Leu | Instruction::I64Ges | Instruction::I64Geu => self
                .apply_binop(ValueType::I64, ValueType::I32),
            Instruction::F32Eq | Instruction::F32Ne | Instruction::F32Lt | Instruction::F32Gt
                | Instruction::F32Le | Instruction::F32Ge => self.apply_binop(
                ValueType::F32,
                ValueType::I32,
            ),
            Instruction::F64Eq | Instruction::F64Ne | Instruction::F64Lt | Instruction::F64Gt
                | Instruction::F64Le | Instruction::F64Ge => self.apply_binop(
                ValueType::F64,
                ValueType::I32,
            ),
            Instruction::I32Clz | Instruction::I32Ctz | Instruction::I32Popcnt => self.apply_unop(
                ValueType::I32,
                ValueType::I32,
            ),
            Instruction::I32Add | Instruction::I32Sub | Instruction::I32Mul
                | Instruction::I32Divs | Instruction::I32Divu | Instruction::I32Rems
                | Instruction::I32Remu | Instruction::I32And | Instruction::I32Or
                | Instruction::I32Xor | Instruction::I32Shl | Instruction::I32Shrs
                | Instruction::I32Shru | Instruction::I32Rotl | Instruction::I32Rotr => self
                .apply_binop(ValueType::I32, ValueType::I32),
            Instruction::I64Clz | Instruction::I64Ctz | Instruction::I64Popcnt => self.apply_unop(
                ValueType::I64,
                ValueType::I64,
            ),
            Instruction::I64Add | Instruction::I64Sub | Instruction::I64Mul
                | Instruction::I64Divs | Instruction::I64Divu | Instruction::I64Rems
                | Instruction::I64Remu | Instruction::I64And | Instruction::I64Or
                | Instruction::I64Xor | Instruction::I64Shl | Instruction::I64Shrs
                | Instruction::I64Shru | Instruction::I64Rotl | Instruction::I64Rotr => self
                .apply_binop(ValueType::I64, ValueType::I64),
            Instruction::F32Abs | Instruction::F32Neg | Instruction::F32Ceil
                | Instruction::F32Floor | Instruction::F32Trunc | Instruction::F32Nearest
                | Instruction::F32Sqrt => self.apply_unop(ValueType::F32, ValueType::F32),
            Instruction::F32Add | Instruction::F32Sub | Instruction::F32Mul
                | Instruction::F32Div | Instruction::F32Min | Instruction::F32Max
                | Instruction::F32Copysign => self.apply_binop(ValueType::F32, ValueType::F32),
            Instruction::F64Abs | Instruction::F64Neg | Instruction::F64Ceil
                | Instruction::F64Floor | Instruction::F64Trunc | Instruction::F64Nearest
                | Instruction::F64Sqrt => self.apply_unop(ValueType::F64, ValueType::F64),
            Instruction::F64Add | Instruction::F64Sub | Instruction::F64Mul
                | Instruction::F64Div | Instruction::F64Min | Instruction::F64Max
                | Instruction::F64Copysign => self.apply_binop(ValueType::F64, ValueType::F64),
            Instruction::I32WrapI64 => self.apply_unop(ValueType::I64, ValueType::I32),
            Instruction::I32TruncF32s | Instruction::I32TruncF32u => self.apply_unop(
                ValueType::F32,
                ValueType::I32,
            ),
            Instruction::I32TruncF64s | Instruction::I32TruncF64u => self.apply_unop(
                ValueType::F64,
                ValueType::I32,
            ),
            Instruction::I64ExtendI32s | Instruction::I64ExtendI32u => self.apply_unop(
                ValueType::I32,
                ValueType::I64,
            ),
            Instruction::I64TruncF32s | Instruction::I64TruncF32u => self.apply_unop(
                ValueType::F32,
                ValueType::I64,
            ),
            Instruction::I64TruncF64s | Instruction::I64TruncF64u => self.apply_unop(
                ValueType::F64,
                ValueType::I64,
            ),
            Instruction::F32ConvertI32s | Instruction::F32ConvertI32u => self.apply_unop(
                ValueType::I32,
                ValueType::F32,
            ),
            Instruction::F32ConvertI64s | Instruction::F32ConvertI64u => self.apply_unop(
                ValueType::I64,
                ValueType::F32,
            ),
            Instruction::F32DemoteF64 => self.apply_unop(ValueType::F64, ValueType::F32),
            Instruction::F64ConvertI32s | Instruction::F64ConvertI32u => self.apply_unop(
                ValueType::I32,
                ValueType::F64,
            ),
            Instruction::F64ConvertI64s | Instruction::F64ConvertI64u => self.apply_unop(
                ValueType::I64,
                ValueType::F64,
            ),
            Instruction::F64PromoteF32 => self.apply_unop(ValueType::F32, ValueType::F64),
            Instruction::I32ReinterpretF32 => self.apply_unop(ValueType::F32, ValueType::I32),
            Instruction::I64ReinterpretF64 => self.apply_unop(ValueType::F64, ValueType::I64),
            Instruction::F32ReinterpretI32 => self.apply_unop(ValueType::I32, ValueType::F32),
            Instruction::F64ReinterpretI64 => self.apply_unop(ValueType::I64, ValueType::F64),
            Instruction::I32Extend8s | Instruction::I32Extend16s => self.apply_unop(
                ValueType::I32,
                ValueType::I32,
            ),
            Instruction::I64Extend8s | Instruction::I64Extend16s | Instruction::I64Extend32s
                => self.apply_unop(ValueType::I64, ValueType::I64),
            Instruction::I32TruncSatF32s | Instruction::I32TruncSatF32u => self.apply_unop(
                ValueType::F32,
                ValueType::I32,
            ),
            Instruction::I32TruncSatF64s | Instruction::I32TruncSatF64u => self.apply_unop(
                ValueType::F64,
                ValueType::I32,
            ),
            Instruction::I64TruncSatF32s | Instruction::I64TruncSatF32u => self.apply_unop(
                ValueType::F32,
                ValueType::I64,
            ),
            Instruction::I64TruncSatF64s | Instruction::I64TruncSatF64u => self.apply_unop(
                ValueType::F64,
                ValueType::I64,
            ),
            _ => {
                match load_op(instruction) {
                    Some((memory_argument, max_alignment, t)) => self.validate_load(
                        max_memory_index,
                        memory_argument,
                        max_alignment,
                        t,
                    ),
                    None => match store_op(instruction) {
                        Some((memory_argument, max_alignment, t)) => self.validate_store(
                            max_memory_index,
                            memory_argument,
                            max_alignment,
                            t,
                        ),
                        None => Ok(()),
                    },
                }
            },
        }
    }

    /// Checks a whole `br_table`: every target must exist and agree with the
    /// first on its label types; the first target's label types come off the
    /// stack and the code becomes unreachable.
    fn validate_branch_table(
        &mut self,
        branch_table_reader: &BranchTableReader,
        function_types: &Vec<FunctionType>,
    ) -> (r: Result<(), CodeValidationError>)
        requires
            old(self).wf(),
            branch_table_reader.wf(),
            branch_table_reader.spec_taken() == 0,
        ensures
            spec_frames_ok(final(self).ops(), final(self).ctl()),
            match r {
                Ok(()) => spec_step_br_table(
                    old(self).ops(),
                    old(self).ctl(),
                    branch_table_reader.spec_labels(),
                    function_types@,
                ) == Ok::<(Seq<Operand>, Seq<ControlFrame>), CodeValidationError>(
                    (final(self).ops(), final(self).ctl()),
                ),
                Err(e) => spec_step_br_table(
                    old(self).ops(),
                    old(self).ctl(),
                    branch_table_reader.spec_labels(),
                    function_types@,
                ) == Err::<(Seq<Operand>, Seq<ControlFrame>), CodeValidationError>(e),
            },
    {
        let ghost labels = branch_table_reader.spec_labels();
        match self.pop_known(ValueType::I32) {
            Ok(_) => {},
            Err(e) => {
                return Err(e);
            },
        }
        let mut reader = *branch_table_reader;
        let total = reader.get_num_labels();
        let l0 = match reader.read() {
            Ok(l) => l,
            Err(_) => {
                proof {
                    assert(false);
                }
                return Err(CodeValidationError::TargetLabelsTypeMismatch);
            },
        };
        let f0 = match self.validate_jump(l0) {
            Ok(f) => f,
            Err(e) => {
                return Err(e);
            },
        };
        let ghost ops1 = self.ops();
        let mut k: u32 = 1;
        while k < total
            invariant
                labels == branch_table_reader.spec_labels(),
                total == labels.len(),
                1 <= k <= total,
                reader.wf(),
                reader.spec_labels() == labels,
                reader.spec_taken() == k,
                self.wf(),
                self.ops() == ops1,
                self.ctl() == old(self).ctl(),
                spec_pop_expected(
                    old(self).ops(),
                    old(self).ctl().last(),
                    Operand::Known(ValueType::I32),
                ) matches Ok((op2, rest)) && rest == ops1,
                spec_jump(self.ctl(), labels[0]) == Ok::<ControlFrame, CodeValidationError>(f0),
                spec_check_targets(self.ctl(), labels, 1, f0, function_types@)
                    == spec_check_targets(self.ctl(), labels, k as int, f0, function_types@),
            decreases total - k,
        {
            let lk = match reader.read() {
                Ok(l) => l,
                Err(_) => {
                    proof {
                        assert(false);
                    }
                    return Err(CodeValidationError::TargetLabelsTypeMismatch);
                },
            };
            let fk = match self.validate_jump(lk) {
                Ok(f) => f,
                Err(e) => {
                    return Err(e);
                },
            };
            let a = match label_types(fk.kind, fk.block_type, function_types) {
                Ok(ts) => ts,
                Err(e) => {
                    return Err(e);
                },
            };
            let b = match label_types(f0.kind, f0.block_type, function_types) {
                Ok(ts) => ts,
                Err(e) => {
                    return Err(e);
                },
            };
            if !value_types_eq(&a, &b) {
                return Err(CodeValidationError::TargetLabelsTypeMismatch);
            }
            k = k + 1;
        }
        let ts = match label_types(f0.kind, f0.block_type, function_types) {
            Ok(ts) => ts,
            Err(e) => {
                return Err(e);
            },
        };
        match self.pop_knowns(&ts) {
            Ok(()) => {},
            Err(e) => {
                return Err(e);
            },
        }
        self.unreachable();
        Ok(())
    }

    /// Truncates the operand stack to the current frame's entry height and
    /// marks the frame unreachable.
    fn unreachable(&mut self)
        requires
            old(self).wf(),
        ensures
            final(self).wf(),
            final(self).ops() == old(self).ops().take(old(self).ctl().last().height as int),
            final(self).ctl() == old(self).ctl().update(
                old(self).ctl().len() - 1,
                ControlFrame { unreachable: true, ..old(self).ctl().last() },
            ),
    {
        let n = self.control_stack.len();
        let height = self.control_stack[n - 1].height;
        self.operand_stack.truncate(height);
        let frame = self.control_stack[n - 1];
        self.control_stack.set(
            n - 1,
            ControlFrame { unreachable: true, ..frame },
        );
    }

    /// Pops the current frame: its declared results must be on the stack
    /// with nothing extra above the frame's entry height.
    fn pop_control_frame(&mut self, function_types: &Vec<FunctionType>) -> (r: Result<
        ControlFrame,
        CodeValidationError,
    >)
        requires
            old(self).wf(),
        ensures
            match r {
                Ok(f) => spec_pop_control(old(self).ops(), old(self).ctl(), function_types@)
                    matches Ok((f2, ops2, ctl2)) && ({
                    &&& f == f2
                    &&& final(self).ops() == ops2
                    &&& final(self).ctl() == ctl2
                    &&& spec_frames_ok(final(self).ops(), final(self).ctl())
                }),
                Err(e) => spec_pop_control(old(self).ops(), old(self).ctl(), function_types@)
                    == Err::<(ControlFrame, Seq<Operand>, Seq<ControlFrame>),
                    CodeValidationError>(e) && final(self).wf(),
            },
    {
        let last = self.control_stack[self.control_stack.len() - 1];
        let results = match block_results(last.block_type, function_types) {
            Ok(rs) => rs,
            Err(e) => {
                return Err(e);
            },
        };
        match self.pop_knowns(&results) {
            Ok(()) => {},
            Err(e) => {
                return Err(e);
            },
        }
        if self.operand_stack.len() != last.height {
            return Err(CodeValidationError::ValuesAtEndOfBlock);
        }
        match self.control_stack.pop() {
            Some(f) => Ok(f),
            None => {
                proof {
                    assert(false);
                }
                Err(CodeValidationError::ValuesAtEndOfBlock)
            },
        }
    }
}

/// Popping a whole control frame off the state: the frame's results come
/// off the operand stack right to left, the stack must then be back at the
/// frame's entry height, and the frame is removed.
pub open spec fn spec_pop_control(ops: Seq<Operand>, ctl: Seq<ControlFrame>, types: Seq<FunctionType>) -> Result<(ControlFrame, Seq<Operand>, Seq<ControlFrame>), CodeValidationError>
    recommends
        ctl.len() > 0,
{
    let last = ctl.last();
    match spec_block_results(last.block_type, types) {
        Err(e) => Err(e),
        Ok(results) => match spec_pop_expecteds(ops, last, results) {
            Err(e) => Err(e),
            Ok(rest) => if rest.len() != last.height {
                Err(CodeValidationError::ValuesAtEndOfBlock)
            } else {
                Ok((last, rest, ctl.drop_last()))
            },
        },
    }
}

/// The state after `unreachable`: the operand stack truncated to the
/// current frame's entry height, and the frame marked unreachable.
pub open spec fn spec_unreachable_state(ops: Seq<Operand>, ctl: Seq<ControlFrame>) -> (Seq<Operand>, Seq<ControlFrame>)
    recommends
        ctl.len() > 0,
{
    (
        ops.take(ctl.last().height as int),
        ctl.update(ctl.len() - 1, ControlFrame { unreachable: true, ..ctl.last() }),
    )
}

/// The frame a relative label denotes: label 0 is the innermost frame.
pub open spec fn spec_jump(ctl: Seq<ControlFrame>, label: u32) -> Result<ControlFrame, CodeValidationError> {
    if label >= ctl.len() {
        Err(CodeValidationError::InvalidLabelIndex(LabelIndex(label)))
    } else {
        Ok(ctl[ctl.len() - 1 - label])
    }
}

/// Entering a block form: its parameter types come off the stack right to
/// left and a fresh frame is pushed at the remaining height.
pub open spec fn spec_enter(ops: Seq<Operand>, ctl: Seq<ControlFrame>, kind: ControlFrameKind, bt: BlockType, types: Seq<FunctionType>) -> Result<(Seq<Operand>, Seq<ControlFrame>), CodeValidationError>
    recommends
        ctl.len() > 0,
{
    match spec_block_params(bt, types) {
        Err(e) => Err(e),
        Ok(params) => match spec_pop_expecteds(ops, ctl.last(), params) {
            Err(e) => Err(e),
            Ok(rest) => Ok(
                (
                    rest,
                    ctl.push(
                        ControlFrame {
                            kind,
                            block_type: bt,
                            height: rest.len() as usize,
                            unreachable: false,
                        },
                    ),
                ),
            ),
        },
    }
}

/// One operand popped and one pushed.
pub open spec fn spec_unop(ops: Seq<Operand>, ctl: Seq<ControlFrame>, input: ValueType, output: ValueType) -> Result<(Seq<Operand>, Seq<ControlFrame>), CodeValidationError>
    recommends
        ctl.len() > 0,
{
    match spec_pop_expected(ops, ctl.last(), Operand::Known(input)) {
        Ok((_, rest)) => Ok((rest.push(Operand::Known(output)), ctl)),
        Err(e) => Err(e),
    }
}

/// Two operands of one type popped and one pushed.
pub open spec fn spec_binop(ops: Seq<Operand>, ctl: Seq<ControlFrame>, input: ValueType, output: ValueType) -> Result<(Seq<Operand>, Seq<ControlFrame>), CodeValidationError>
    recommends
        ctl.len() > 0,
{
    match spec_pop_expected(ops, ctl.last(), Operand::Known(input)) {
        Ok((_, rest)) => match spec_pop_expected(rest, ctl.last(), Operand::Known(input)) {
            Ok((_, rest2)) => Ok((rest2.push(Operand::Known(output)), ctl)),
            Err(e) => Err(e),
        },
        Err(e) => Err(e),
    }
}

/// The memory-access instructions that load: their immediate, greatest
/// permissible alignment exponent, and loaded type.
pub open spec fn spec_load_op(instr: Instruction) -> Option<(MemoryArgument, u32, ValueType)> {
    match instr {
        Instruction::I32Load { memory_argument } => Some((memory_argument, 2, ValueType::I32)),
        Instruction::I64Load { memory_argument } => Some((memory_argument, 3, ValueType::I64)),
        Instruction::F32Load { memory_argument } => Some((memory_argument, 2, ValueType::F32)),
        Instruction::F64Load { memory_argument } => Some((memory_argument, 3, ValueType::F64)),
        Instruction::I32Load8s { memory_argument } => Some((memory_argument, 0, ValueType::I32)),
        Instruction::I32Load8u { memory_argument } => Some((memory_argument, 0, ValueType::I32)),
        Instruction::I32Load16s { memory_argument } => Some((memory_argument, 1, ValueType::I32)),
        Instruction::I32Load16u { memory_argument } => Some((memory_argument, 1, ValueType::I32)),
        Instruction::I64Load8s { memory_argument } => Some((memory_argument, 0, ValueType::I64)),
        Instruction::I64Load8u { memory_argument } => Some((memory_argument, 0, ValueType::I64)),
        Instruction::I64Load16s { memory_argument } => Some((memory_argument, 1, ValueType::I64)),
        Instruction::I64Load16u { memory_argument } => Some((memory_argument, 1, ValueType::I64)),
        Instruction::I64Load32s { memory_argument } => Some((memory_argument, 2, ValueType::I64)),
        Instruction::I64Load32u { memory_argument } => Some((memory_argument, 2, ValueType::I64)),
        _ => None,
    }
}

/// The memory-access instructions that store: their immediate, greatest
/// permissible alignment exponent, and stored type.
pub open spec fn spec_store_op(instr: Instruction) -> Option<(MemoryArgument, u32, ValueType)> {
    match instr {
        Instruction::I32Store { memory_argument } => Some((memory_argument, 2, ValueType::I32)),
        Instruction::I64Store { memory_argument } => Some((memory_argument, 3, ValueType::I64)),
        Instruction::F32Store { memory_argument } => Some((memory_argument, 2, ValueType::F32)),
        Instruction::F64Store { memory_argument } => Some((memory_argument, 3, ValueType::F64)),
        Instruction::I32Store8 { memory_argument } => Some((memory_argument, 0, ValueType::I32)),
        Instruction::I32Store16 { memory_argument } => Some((memory_argument, 1, ValueType::I32)),
        Instruction::I64Store8 { memory_argument } => Some((memory_argument, 0, ValueType::I64)),
        Instruction::I64Store16 { memory_argument } => Some((memory_argument, 1, ValueType::I64)),
        Instruction::I64Store32 { memory_argument } => Some((memory_argument, 2, ValueType::I64)),
        _ => None,
    }
}

/// Checking one `br_table` target after the first: the label must denote a
/// frame, whose label types must equal the first target's.
pub open spec fn spec_check_targets(ctl: Seq<ControlFrame>, labels: Seq<u32>, k: int, f0: ControlFrame, types: Seq<FunctionType>) -> Result<(), CodeValidationError>
    decreases labels.len() - k when 0 <= k <= labels.len()
{
    if k >= labels.len() {
        Ok(())
    } else {
        match spec_jump(ctl, labels[k]) {
            Err(e) => Err(e),
            Ok(fk) => match spec_label_types(fk.kind, fk.block_type, types) {
                Err(e) => Err(e),
                Ok(a) => match spec_label_types(f0.kind, f0.block_type, types) {
                    Err(e) => Err(e),
                    Ok(b) => if a != b {
                        Err(CodeValidationError::TargetLabelsTypeMismatch)
                    } else {
                        spec_check_targets(ctl, labels, k + 1, f0, types)
                    },
                },
            },
        }
    }
}

/// The `br_table` step over the table's label sequence: pop the selector,
/// check every target agrees with the first, pop the first target's label
/// types, and mark the code unreachable.
pub open spec fn spec_step_br_table(ops: Seq<Operand>, ctl: Seq<ControlFrame>, labels: Seq<u32>, types: Seq<FunctionType>) -> Result<(Seq<Operand>, Seq<ControlFrame>), CodeValidationError>
    recommends
        ctl.len() > 0,
        labels.len() >= 1,
{
    match spec_pop_expected(ops, ctl.last(), Operand::Known(ValueType::I32)) {
        Err(e) => Err(e),
        Ok((_, rest)) => match spec_jump(ctl, labels[0]) {
            Err(e) => Err(e),
            Ok(f0) => match spec_check_targets(ctl, labels, 1, f0, types) {
                Err(e) => Err(e),
                Ok(()) => match spec_label_types(f0.kind, f0.block_type, types) {
                    Err(e) => Err(e),
                    Ok(ts) => match spec_pop_expecteds(rest, ctl.last(), ts) {
                        Err(e) => Err(e),
                        Ok(rest2) => Ok(spec_unreachable_state(rest2, ctl)),
                    },
                },
            },
        },
    }
}

/// How one instruction transforms the two stacks of the type checker, given
/// the module context: the declared globals, the function's locals, the type
/// section, the function index space's type indices, and whether a table
/// and a memory exist.
#[verifier::opaque]
pub open spec fn spec_step(
    ops: Seq<Operand>,
    ctl: Seq<ControlFrame>,
    instr: Instruction,
    globals: Seq<GlobalType>,
    locals: Seq<ValueType>,
    types: Seq<FunctionType>,
    type_indices: Seq<TypeIndex>,
    has_table: bool,
    has_memory: bool,
) -> Result<(Seq<Operand>, Seq<ControlFrame>), CodeValidationError>
    recommends
        ctl.len() > 0,
{
    let last = ctl.last();
    match instr {
        Instruction::Unreachable => Ok(spec_unreachable_state(ops, ctl)),
        Instruction::Nop => Ok((ops, ctl)),
        Instruction::Block { block_type } => spec_enter(
            ops,
            ctl,
            ControlFrameKind::Block,
            block_type,
            types,
        ),
        Instruction::Loop { block_type } => spec_enter(
            ops,
            ctl,
            ControlFrameKind::Loop,
            block_type,
            types,
        ),
        Instruction::If { block_type } => match spec_pop_expected(
            ops,
            last,
            Operand::Known(ValueType::I32),
        ) {
            Ok((_, rest)) => spec_enter(rest, ctl, ControlFrameKind::If, block_type, types),
            Err(e) => Err(e),
        },
        Instruction::Else => match spec_pop_control(ops, ctl, types) {
            Ok((f, ops2, ctl2)) => Ok(
                (
                    ops2,
                    ctl2.push(
                        ControlFrame {
                            kind: ControlFrameKind::Else,
                            block_type: f.block_type,
                            height: ops2.len() as usize,
                            unreachable: false,
                        },
                    ),
                ),
            ),
            Err(e) => Err(e),
        },
        Instruction::End => match spec_pop_control(ops, ctl, types) {
            Ok((f, ops2, ctl2)) => match spec_block_results(f.block_type, types) {
                Ok(rs) => Ok((ops2 + rs.map_values(|t: ValueType| Operand::Known(t)), ctl2)),
                Err(e) => Err(e),
            },
            Err(e) => Err(e),
        },
        Instruction::Branch { label_index } => match spec_jump(ctl, label_index.0) {
            Err(e) => Err(e),
            Ok(f) => match spec_label_types(f.kind, f.block_type, types) {
                Err(e) => Err(e),
                Ok(ts) => match spec_pop_expecteds(ops, last, ts) {
                    Ok(rest) => Ok(spec_unreachable_state(rest, ctl)),
                    Err(e) => Err(e),
                },
            },
        },
        Instruction::BranchIf { label_index } => match spec_pop_expected(
            ops,
            last,
            Operand::Known(ValueType::I32),
        ) {
            Err(e) => Err(e),
            Ok((_, rest)) => match spec_jump(ctl, label_index.0) {
                Err(e) => Err(e),
                Ok(f) => match spec_label_types(f.kind, f.block_type, types) {
                    Err(e) => Err(e),
                    Ok(ts) => match spec_pop_expecteds(rest, last, ts) {
                        Ok(rest2) => Ok(
                            (rest2 + ts.map_values(|t: ValueType| Operand::Known(t)), ctl),
                        ),
                        Err(e) => Err(e),
                    },
                },
            },
        },
        Instruction::BranchTable { branch_table_reader } => spec_step_br_table(
            ops,
            ctl,
            branch_table_reader.spec_labels(),
            types,
        ),
        Instruction::Return => match spec_block_results(ctl[0].block_type, types) {
            Err(e) => Err(e),
            Ok(rs) => match spec_pop_expecteds(ops, last, rs) {
                Ok(rest) => Ok(spec_unreachable_state(rest, ctl)),
                Err(e) => Err(e),
            },
        },
        Instruction::Call { func_index } => if func_index.0 >= type_indices.len() {
            Err(CodeValidationError::InvalidFunctionIndex(func_index))
        } else {
            let ti = type_indices[func_index.0 as int];
            if ti.0 >= types.len() {
                Err(CodeValidationError::InvalidTypeIndex(ti))
            } else {
                let ft_params = types[ti.0 as int].params@;
                let ft_results = types[ti.0 as int].results@;
                match spec_pop_expecteds(ops, last, ft_params) {
                    Ok(rest) => Ok(
                        (rest + ft_results.map_values(|t: ValueType| Operand::Known(t)), ctl),
                    ),
                    Err(e) => Err(e),
                }
            }
        },
        Instruction::CallIndirect { type_index } => if !has_table {
            Err(CodeValidationError::UndefinedTable)
        } else if type_index.0 >= types.len() {
            Err(CodeValidationError::InvalidTypeIndex(type_index))
        } else {
            match spec_pop_expected(ops, last, Operand::Known(ValueType::I32)) {
                Err(e) => Err(e),
                Ok((_, rest)) => {
                    let ft_params = types[type_index.0 as int].params@;
                    let ft_results = types[type_index.0 as int].results@;
                    match spec_pop_expecteds(rest, last, ft_params) {
                        Ok(rest2) => Ok(
                            (rest2 + ft_results.map_values(|t: ValueType| Operand::Known(t)), ctl),
                        ),
                        Err(e) => Err(e),
                    }
                },
            }
        },
        Instruction::Drop => match spec_pop(ops, last) {
            Ok((_, rest)) => Ok((rest, ctl)),
            Err(e) => Err(e),
        },
        Instruction::Select => match spec_pop_expected(ops, last, Operand::Known(ValueType::I32)) {
            Err(e) => Err(e),
            Ok((_, rest)) => match spec_pop(rest, last) {
                Err(e) => Err(e),
                Ok((first, rest2)) => match spec_pop(rest2, last) {
                    Err(e) => Err(e),
                    Ok((second, rest3)) => match spec_unify(second, first) {
                        Ok(op) => Ok((rest3.push(op), ctl)),
                        Err(e) => Err(e),
                    },
                },
            },
        },
        Instruction::LocalGet { local_index } => if local_index.0 < locals.len() {
            Ok((ops.push(Operand::Known(locals[local_index.0 as int])), ctl))
        } else {
            Err(CodeValidationError::InvalidLocalIndex(local_index))
        },
        Instruction::LocalSet { local_index } => if local_index.0 < locals.len() {
            match spec_pop_expected(ops, last, Operand::Known(locals[local_index.0 as int])) {
                Ok((_, rest)) => Ok((rest, ctl)),
                Err(e) => Err(e),
            }
        } else {
            Err(CodeValidationError::InvalidLocalIndex(local_index))
        },
        Instruction::LocalTee { local_index } => if local_index.0 < locals.len() {
            match spec_pop_expected(ops, last, Operand::Known(locals[local_index.0 as int])) {
                Ok((_, rest)) => Ok(
                    (rest.push(Operand::Known(locals[local_index.0 as int])), ctl),
                ),
                Err(e) => Err(e),
            }
        } else {
            Err(CodeValidationError::InvalidLocalIndex(local_index))
        },
        Instruction::GlobalGet { global_index } => if global_index.0 < globals.len() {
            Ok((ops.push(Operand::Known(globals[global_index.0 as int].var_type)), ctl))
        } else {
            Err(CodeValidationError::InvalidGlobalIndex(global_index))
        },
        Instruction::GlobalSet { global_index } => if global_index.0 < globals.len() {
            match spec_pop_expected(
                ops,
                last,
                Operand::Known(globals[global_index.0 as int].var_type),
            ) {
                Ok((_, rest)) => if !globals[global_index.0 as int].mutable {
                    Err(CodeValidationError::SettingImmutableGlobal(global_index))
                } else {
                    Ok((rest, ctl))
                },
                Err(e) => Err(e),
            }
        } else {
            Err(CodeValidationError::InvalidGlobalIndex(global_index))
        },
        Instruction::MemorySize => if !has_memory {
            Err(CodeValidationError::UndefinedMemory)
        } else {
            Ok((ops.push(Operand::Known(ValueType::I32)), ctl))
        },
        Instruction::MemoryGrow => if !has_memory {
            Err(CodeValidationError::UndefinedMemory)
        } else {
            spec_unop(ops, ctl, ValueType::I32, ValueType::I32)
        },
        Instruction::I32Const(_) => Ok((ops.push(Operand::Known(ValueType::I32)), ctl)),
        Instruction::I64Const(_) => Ok((ops.push(Operand::Known(ValueType::I64)), ctl)),
        Instruction::F32Const(_) => Ok((ops.push(Operand::Known(ValueType::F32)), ctl)),
        Instruction::F64Const(_) => Ok((ops.push(Operand::Known(ValueType::F64)), ctl)),
        Instruction::I32Eqz => spec_unop(ops, ctl, ValueType::I32, ValueType::I32),
        Instruction::I32Eq | Instruction::I32Ne | Instruction::I32Lts | Instruction::I32Ltu
            | Instruction::I32Gts | Instruction::I32Gtu | Instruction::I32Les
            | Instruction::I32Leu | Instruction::I32Ges | Instruction::I32Geu => spec_binop(
            ops,
            ctl,
            ValueType::I32,
            ValueType::I32,
        ),
        Instruction::I64Eqz => spec_unop(ops, ctl, ValueType::I64, ValueType::I32),
        Instruction::I64Eq | Instruction::I64Ne | Instruction::I64Lts | Instruction::I64Ltu
            | Instruction::I64Gts | Instruction::I64Gtu | Instruction::I64Les
            | Instruction::I64Leu | Instruction::I64Ges | Instruction::I64Geu => spec_binop(
            ops,
            ctl,
            ValueType::I64,
            ValueType::I32,
        ),
        Instruction::F32Eq | Instruction::F32Ne | Instruction::F32Lt | Instruction::F32Gt
            | Instruction::F32Le | Instruction::F32Ge => spec_binop(
            ops,
            ctl,
            ValueType::F32,
            ValueType::I32,
        ),
        Instruction::F64Eq | Instruction::F64Ne | Instruction::F64Lt | Instruction::F64Gt
            | Instruction::F64Le | Instruction::F64Ge => spec_binop(
            ops,
            ctl,
            ValueType::F64,
            ValueType::I32,
        ),
        Instruction::I32Clz | Instruction::I32Ctz | Instruction::I32Popcnt => spec_unop(
            ops,
            ctl,
            ValueType::I32,
            ValueType::I32,
        ),
        Instruction::I32Add | Instruction::I32Sub | Instruction::I32Mul | Instruction::I32Divs
            | Instruction::I32Divu | Instruction::I32Rems | Instruction::I32Remu
            | Instruction::I32And | Instruction::I32Or | Instruction::I32Xor
            | Instruction::I32Shl | Instruction::I32Shrs | Instruction::I32Shru
            | Instruction::I32Rotl | Instruction::I32Rotr => spec_binop(
            ops,
            ctl,
            ValueType::I32,
            ValueType::I32,
        ),
        Instruction::I64Clz | Instruction::I64Ctz | Instruction::I64Popcnt => spec_unop(
            ops,
            ctl,
            ValueType::I64,
            ValueType::I64,
        ),
        Instruction::I64Add | Instruction::I64Sub | Instruction::I64Mul | Instruction::I64Divs
            | Instruction::I64Divu | Instruction::I64Rems | Instruction::I64Remu
            | Instruction::I64And | Instruction::I64Or | Instruction::I64Xor
            | Instruction::I64Shl | Instruction::I64Shrs | Instruction::I64Shru
            | Instruction::I64Rotl | Instruction::I64Rotr => spec_binop(
            ops,
            ctl,
            ValueType::I64,
            ValueType::I64,
        ),
        Instruction::F32Abs | Instruction::F32Neg | Instruction::F32Ceil | Instruction::F32Floor
            | Instruction::F32Trunc | Instruction::F32Nearest | Instruction::F32Sqrt => spec_unop(
            ops,
            ctl,
            ValueType::F32,
            ValueType::F32,
        ),
        Instruction::F32Add | Instruction::F32Sub | Instruction::F32Mul | Instruction::F32Div
            | Instruction::F32Min | Instruction::F32Max | Instruction::F32Copysign => spec_binop(
            ops,
            ctl,
            ValueType::F32,
            ValueType::F32,
        ),
        Instruction::F64Abs | Instruction::F64Neg | Instruction::F64Ceil | Instruction::F64Floor
            | Instruction::F64Trunc | Instruction::F64Nearest | Instruction::F64Sqrt => spec_unop(
            ops,
            ctl,
            ValueType::F64,
            ValueType::F64,
        ),
        Instruction::F64Add | Instruction::F64Sub | Instruction::F64Mul | Instruction::F64Div
            | Instruction::F64Min | Instruction::F64Max | Instruction::F64Copysign => spec_binop(
            ops,
            ctl,
            ValueType::F64,
            ValueType::F64,
        ),
        Instruction::I32WrapI64 => spec_unop(ops, ctl, ValueType::I64, ValueType::I32),
        Instruction::I32TruncF32s | Instruction::I32TruncF32u => spec_unop(
            ops,
            ctl,
            ValueType::F32,
            ValueType::I32,
        ),
        Instruction::I32TruncF64s | Instruction::I32TruncF64u => spec_unop(
            ops,
            ctl,
            ValueType::F64,
            ValueType::I32,
        ),
        Instruction::I64ExtendI32s | Instruction::I64ExtendI32u => spec_unop(
            ops,
            ctl,
            ValueType::I32,
            ValueType::I64,
        ),
        Instruction::I64TruncF32s | Instruction::I64TruncF32u => spec_unop(
            ops,
            ctl,
            ValueType::F32,
            ValueType::I64,
        ),
        Instruction::I64TruncF64s | Instruction::I64TruncF64u => spec_unop(
            ops,
            ctl,
            ValueType::F64,
            ValueType::I64,
        ),
        Instruction::F32ConvertI32s | Instruction::F32ConvertI32u => spec_unop(
            ops,
            ctl,
            ValueType::I32,
            ValueType::F32,
        ),
        Instruction::F32ConvertI64s | Instruction::F32ConvertI64u => spec_unop(
            ops,
            ctl,
            ValueType::I64,
            ValueType::F32,
        ),
        Instruction::F32DemoteF64 => spec_unop(ops, ctl, ValueType::F64, ValueType::F32),
        Instruction::F64ConvertI32s | Instruction::F64ConvertI32u => spec_unop(
            ops,
            ctl,
            ValueType::I32,
            ValueType::F64,
        ),
        Instruction::F64ConvertI64s | Instruction::F64ConvertI64u => spec_unop(
            ops,
            ctl,
            ValueType::I64,
            ValueType::F64,
        ),
        Instruction::F64PromoteF32 => spec_unop(ops, ctl, ValueType::F32, ValueType::F64),
        Instruction::I32ReinterpretF32 => spec_unop(ops, ctl, ValueType::F32, ValueType::I32),
        Instruction::I64ReinterpretF64 => spec_unop(ops, ctl, ValueType::F64, ValueType::I64),
        Instruction::F32ReinterpretI32 => spec_unop(ops, ctl, ValueType::I32, ValueType::F32),
        Instruction::F64ReinterpretI64 => spec_unop(ops, ctl, ValueType::I64, ValueType::F64),
        Instruction::I32Extend8s | Instruction::I32Extend16s => spec_unop(
            ops,
            ctl,
            ValueType::I32,
            ValueType::I32,
        ),
        Instruction::I64Extend8s | Instruction::I64Extend16s | Instruction::I64Extend32s
            => spec_unop(ops, ctl, ValueType::I64, ValueType::I64),
        Instruction::I32TruncSatF32s | Instruction::I32TruncSatF32u => spec_unop(
            ops,
            ctl,
            ValueType::F32,
            ValueType::I32,
        ),
        Instruction::I32TruncSatF64s | Instruction::I32TruncSatF64u => spec_unop(
            ops,
            ctl,
            ValueType::F64,
            ValueType::I32,
        ),
        Instruction::I64TruncSatF32s | Instruction::I64TruncSatF32u => spec_unop(
            ops,
            ctl,
            ValueType::F32,
            ValueType::I64,
        ),
        Instruction::I64TruncSatF64s | Instruction::I64TruncSatF64u => spec_unop(
            ops,
            ctl,
            ValueType::F64,
            ValueType::I64,
        ),
        _ => {
            // Loads and stores: presence of a memory, then the alignment
            // bound, then the access's stack signature.
            match spec_load_op(instr) {
                Some((m, max_align, t)) => if !has_memory {
                    Err(CodeValidationError::UndefinedMemory)
                } else if m.alignment > max_align {
                    Err(CodeValidationError::InvalidMemoryAlignment)
                } else {
                    spec_unop(ops, ctl, ValueType::I32, t)
                },
                None => match spec_store_op(instr) {
                    Some((m, max_align, t)) => if !has_memory {
                        Err(CodeValidationError::UndefinedMemory)
                    } else if m.alignment > max_align {
                        Err(CodeValidationError::InvalidMemoryAlignment)
                    } else {
                        match spec_pop_expected(ops, last, Operand::Known(t)) {
                            Err(e) => Err(e),
                            Ok((_, rest)) => match spec_pop_expected(
                                rest,
                                last,
                                Operand::Known(ValueType::I32),
                            ) {
                                Ok((_, rest2)) => Ok((rest2, ctl)),
                                Err(e) => Err(e),
                            },
                        }
                    },
                    None => Ok((ops, ctl)),
                },
            }
        },
    }
}

/// The result types a block type leaves, as a fresh vector.
fn block_results(bt: BlockType, function_types: &Vec<FunctionType>) -> (r: Result<
    Vec<ValueType>,
    CodeValidationError,
>)
    ensures
        match r {
            Ok(v) => spec_block_results(bt, function_types@) == Ok::<Seq<ValueType>,
                CodeValidationError>(v@),
            Err(e) => spec_block_results(bt, function_types@) == Err::<Seq<ValueType>,
                CodeValidationError>(e),
        },
{
    match bt {
        BlockType::Empty => {
            let v: Vec<ValueType> = Vec::new();
            proof {
                assert(v@ =~= Seq::<ValueType>::empty());
            }
            Ok(v)
        },
        BlockType::ValueType(t) => {
            let mut v: Vec<ValueType> = Vec::new();
            v.push(t);
            proof {
                assert(v@ =~= seq![t]);
            }
            Ok(v)
        },
        BlockType::TypeIndex(ti) => {
            if (ti.0 as usize) < function_types.len() {
                Ok(copy_value_types(&function_types[ti.0 as usize].results))
            } else {
                Err(CodeValidationError::InvalidTypeIndex(ti))
            }
        },
    }
}

/// The parameter types a block type takes, as a fresh vector.
fn block_params(bt: BlockType, function_types: &Vec<FunctionType>) -> (r: Result<
    Vec<ValueType>,
    CodeValidationError,
>)
    ensures
        match r {
            Ok(v) => spec_block_params(bt, function_types@) == Ok::<Seq<ValueType>,
                CodeValidationError>(v@),
            Err(e) => spec_block_params(bt, function_types@) == Err::<Seq<ValueType>,
                CodeValidationError>(e),
        },
{
    match bt {
        BlockType::Empty | BlockType::ValueType(_) => {
            let v: Vec<ValueType> = Vec::new();
            proof {
                assert(v@ =~= Seq::<ValueType>::empty());
            }
            Ok(v)
        },
        BlockType::TypeIndex(ti) => {
            if (ti.0 as usize) < function_types.len() {
                Ok(copy_value_types(&function_types[ti.0 as usize].params))
            } else {
                Err(CodeValidationError::InvalidTypeIndex(ti))
            }
        },
    }
}

/// The label types of a frame, as a fresh vector.
fn label_types(kind: ControlFrameKind, bt: BlockType, function_types: &Vec<FunctionType>) -> (r:
    Result<Vec<ValueType>, CodeValidationError>)
    ensures
        match r {
            Ok(v) => spec_label_types(kind, bt, function_types@) == Ok::<Seq<ValueType>,
                CodeValidationError>(v@),
            Err(e) => spec_label_types(kind, bt, function_types@) == Err::<Seq<ValueType>,
                CodeValidationError>(e),
        },
{
    match kind {
        ControlFrameKind::Loop => block_params(bt, function_types),
        _ => block_results(bt, function_types),
    }
}

/// A fresh vector with the same value types.
fn copy_value_types(src: &Vec<ValueType>) -> (r: Vec<ValueType>)
    ensures
        r@ == src@,
{
    let mut v: Vec<ValueType> = Vec::new();
    let mut i: usize = 0;
    while i < src.len()
        invariant
            i <= src@.len(),
            v@ == src@.take(i as int),
        decreases src@.len() - i,
    {
        v.push(src[i]);
        i = i + 1;
        proof {
            assert(src@.take(i as int) =~= src@.take(i - 1).push(src@[i - 1]));
        }
    }
    proof {
        assert(src@.take(src@.len() as int) =~= src@);
    }
    v
}

/// Whether two value-type vectors hold the same types in the same order.
fn value_types_eq(a: &Vec<ValueType>, b: &Vec<ValueType>) -> (r: bool)
    ensures
        r == (a@ == b@),
{
    if a.len() != b.len() {
        proof {
            assert(a@ != b@);
        }
        return false;
    }
    let mut i: usize = 0;
    while i < a.len()
        invariant
            a@.len() == b@.len(),
            i <= a@.len(),
            forall|k: int| 0 <= k < i ==> a@[k] == b@[k],
        decreases a@.len() - i,
    {
        if a[i] != b[i] {
            proof {
                assert(a@[i as int] != b@[i as int]);
            }
            return false;
        }
        i = i + 1;
    }
    proof {
        assert(a@ =~= b@);
    }
    true
}

/// The structured control instructions and branches.
pub open spec fn spec_is_control(instr: Instruction) -> bool {
    match instr {
        Instruction::Unreachable | Instruction::Nop | Instruction::Block { .. }
            | Instruction::Loop { .. } | Instruction::If { .. } | Instruction::Else
            | Instruction::End | Instruction::Branch { .. } | Instruction::BranchIf { .. }
            | Instruction::BranchTable { .. } | Instruction::Return => true,
        _ => false,
    }
}

/// The instructions that read the module context by index, plus the
/// parametric operators and memory queries.
pub open spec fn spec_is_index(instr: Instruction) -> bool {
    match instr {
        Instruction::Call { .. } | Instruction::CallIndirect { .. } | Instruction::Drop
            | Instruction::Select | Instruction::LocalGet { .. } | Instruction::LocalSet { .. }
            | Instruction::LocalTee { .. } | Instruction::GlobalGet { .. }
            | Instruction::GlobalSet { .. } | Instruction::MemorySize | Instruction::MemoryGrow
            => true,
        _ => false,
    }
}

/// The instructions whose effect does not depend on the module context
/// beyond the presence of a memory: constants, numeric and conversion
/// operators, and memory accesses.
pub open spec fn spec_is_plain(instr: Instruction) -> bool {
    match instr {
        Instruction::Unreachable | Instruction::Nop | Instruction::Block { .. }
            | Instruction::Loop { .. } | Instruction::If { .. } | Instruction::Else
            | Instruction::End | Instruction::Branch { .. } | Instruction::BranchIf { .. }
            | Instruction::BranchTable { .. } | Instruction::Return | Instruction::Call { .. }
            | Instruction::CallIndirect { .. } | Instruction::Drop | Instruction::Select
            | Instruction::LocalGet { .. } | Instruction::LocalSet { .. }
            | Instruction::LocalTee { .. } | Instruction::GlobalGet { .. }
            | Instruction::GlobalSet { .. } | Instruction::MemorySize | Instruction::MemoryGrow
            => false,
        _ => true,
    }
}

/// The loads' immediate, alignment bound and loaded type.
fn load_op(instruction: &Instruction) -> (r: Option<(MemoryArgument, u32, ValueType)>)
    ensures
        r == spec_load_op(*instruction),
{
    match *instruction {
        Instruction::I32Load { memory_argument } => Some((memory_argument, 2, ValueType::I32)),
        Instruction::I64Load { memory_argument } => Some((memory_argument, 3, ValueType::I64)),
        Instruction::F32Load { memory_argument } => Some((memory_argument, 2, ValueType::F32)),
        Instruction::F64Load { memory_argument } => Some((memory_argument, 3, ValueType::F64)),
        Instruction::I32Load8s { memory_argument } => Some((memory_argument, 0, ValueType::I32)),
        Instruction::I32Load8u { memory_argument } => Some((memory_argument, 0, ValueType::I32)),
        Instruction::I32Load16s { memory_argument } => Some((memory_argument, 1, ValueType::I32)),
        Instruction::I32Load16u { memory_argument } => Some((memory_argument, 1, ValueType::I32)),
        Instruction::I64Load8s { memory_argument } => Some((memory_argument, 0, ValueType::I64)),
        Instruction::I64Load8u { memory_argument } => Some((memory_argument, 0, ValueType::I64)),
        Instruction::I64Load16s { memory_argument } => Some((memory_argument, 1, ValueType::I64)),
        Instruction::I64Load16u { memory_argument } => Some((memory_argument, 1, ValueType::I64)),
        Instruction::I64Load32s { memory_argument } => Some((memory_argument, 2, ValueType::I64)),
        Instruction::I64Load32u { memory_argument } => Some((memory_argument, 2, ValueType::I64)),
        _ => None,
    }
}

/// The stores' immediate, alignment bound and stored type.
fn store_op(instruction: &Instruction) -> (r: Option<(MemoryArgument, u32, ValueType)>)
    ensures
        r == spec_store_op(*instruction),
{
    match *instruction {
        Instruction::I32Store { memory_argument } => Some((memory_argument, 2, ValueType::I32)),
        Instruction::I64Store { memory_argument } => Some((memory_argument, 3, ValueType::I64)),
        Instruction::F32Store { memory_argument } => Some((memory_argument, 2, ValueType::F32)),
        Instruction::F64Store { memory_argument } => Some((memory_argument, 3, ValueType::F64)),
        Instruction::I32Store8 { memory_argument } => Some((memory_argument, 0, ValueType::I32)),
        Instruction::I32Store16 { memory_argument } => Some((memory_argument, 1, ValueType::I32)),
        Instruction::I64Store8 { memory_argument } => Some((memory_argument, 0, ValueType::I64)),
        Instruction::I64Store16 { memory_argument } => Some((memory_argument, 1, ValueType::I64)),
        Instruction::I64Store32 { memory_argument } => Some((memory_argument, 2, ValueType::I64)),
        _ => None,
    }
}

/// Whether the expression at the start of `s` is a well-formed constant
/// expression of the expected type: one constant producer — a numeric
/// constant, or a `global.get` of an already-declared immutable imported
/// global — then `End`, then nothing more.
pub open spec fn spec_const_expr_ok(s: Seq<u8>, expected_type: ValueType, imported_globals: Seq<GlobalType>) -> Result<(), CodeValidationError> {
    match crate::readers::instruction::spec_instruction_at(s, 0) {
        Err(e) => Err(CodeValidationError::InstructionReader(e)),
        Ok((oi, j)) => {
            let const_type = match oi {
                Some(Instruction::I32Const(_)) => Some(ValueType::I32),
                Some(Instruction::I64Const(_)) => Some(ValueType::I64),
                Some(Instruction::F32Const(_)) => Some(ValueType::F32),
                Some(Instruction::F64Const(_)) => Some(ValueType::F64),
                Some(Instruction::GlobalGet { global_index }) => if global_index.0
                    < imported_globals.len() && !imported_globals[global_index.0 as int].mutable {
                    Some(imported_globals[global_index.0 as int].var_type)
                } else {
                    None
                },
                _ => None,
            };
            match const_type {
                None => Err(CodeValidationError::InvalidInitExpr),
                Some(t) => if t != expected_type {
                    Err(CodeValidationError::InvalidInitExpr)
                } else {
                    match crate::readers::instruction::spec_instruction_at(s, j) {
                        Err(e) => Err(CodeValidationError::InstructionReader(e)),
                        Ok((oi2, k)) => if !(oi2 == Some(Instruction::End)) {
                            Err(CodeValidationError::InvalidInitExpr)
                        } else if crate::readers::instruction::spec_instruction_at(s, k) is Ok {
                            Err(CodeValidationError::InvalidInitExpr)
                        } else {
                            Ok(())
                        },
                    }
                },
            }
        },
    }
}

/// Accepts exactly the constant expressions of the expected type, as
/// `spec_const_expr_ok` says: a single constant producer, then `End`, then
/// nothing.  A `global.get` producer must name an immutable imported global,
/// so only those are handed in.
pub fn is_expr_const_and_of_right_type(
    instruction_reader: &mut crate::readers::instruction::InstructionReader,
    expected_type: ValueType,
    imported_globals: &Vec<GlobalType>,
) -> (r: Result<(), CodeValidationError>)
    requires
        old(instruction_reader).wf(),
        old(instruction_reader).pos() == 0,
    ensures
        r == spec_const_expr_ok(
            old(instruction_reader).bytes(),
            expected_type,
            imported_globals@,
        ),
{
    let instruction = match instruction_reader.read() {
        Ok(i) => i,
        Err(e) => {
            return Err(CodeValidationError::InstructionReader(e));
        },
    };
    let const_type = match instruction {
        Instruction::I32Const(_) => ValueType::I32,
        Instruction::I64Const(_) => ValueType::I64,
        Instruction::F32Const(_) => ValueType::F32,
        Instruction::F64Const(_) => ValueType::F64,
        Instruction::GlobalGet { global_index } => {
            if (global_index.0 as usize) < imported_globals.len()
                && !imported_globals[global_index.0 as usize].mutable {
                imported_globals[global_index.0 as usize].var_type
            } else {
                return Err(CodeValidationError::InvalidInitExpr);
            }
        },
        _ => {
            return Err(CodeValidationError::InvalidInitExpr);
        },
    };
    if const_type != expected_type {
        return Err(CodeValidationError::InvalidInitExpr);
    }
    let instruction = match instruction_reader.read() {
        Ok(i) => i,
        Err(e) => {
            return Err(CodeValidationError::InstructionReader(e));
        },
    };
    match instruction {
        Instruction::End => {},
        _ => {
            return Err(CodeValidationError::InvalidInitExpr);
        },
    }
    if instruction_reader.read().is_ok() {
        return Err(CodeValidationError::InvalidInitExpr);
    }
    Ok(())
}

/// The function's locals: a run of `count` copies of one value type for
/// each declared run, in declaration order.
pub open spec fn spec_expand_locals(runs: Seq<crate::types::Locals>) -> Seq<ValueType>
    decreases runs.len()
{
    if runs.len() == 0 {
        Seq::empty()
    } else {
        Seq::new(runs[0].count as nat, |i: int| runs[0].value_type) + spec_expand_locals(
            runs.drop_first(),
        )
    }
}

/// Checking a function body instruction by instruction from position `i`:
/// every decoded instruction's stack effect per `spec_step`, until the
/// region's bytes are exhausted.  Instructions after the outermost frame has
/// been closed underflow the operand stack.
#[verifier::opaque]
pub open spec fn spec_validate_body(
    s: Seq<u8>,
    i: int,
    ops: Seq<Operand>,
    ctl: Seq<ControlFrame>,
    globals: Seq<GlobalType>,
    locals: Seq<ValueType>,
    types: Seq<FunctionType>,
    type_indices: Seq<TypeIndex>,
    has_table: bool,
    has_memory: bool,
) -> Result<(), CodeValidationError>
    decreases s.len() - i when 0 <= i <= s.len()
{
    if i == s.len() {
        Ok(())
    } else if ctl.len() == 0 {
        Err(CodeValidationError::OperandStackEmpty)
    } else {
        match crate::readers::instruction::spec_instr_shape(s, i) {
            Err(e) => Err(CodeValidationError::InstructionReader(e)),
            Ok((oi, j)) => if !(i < j <= s.len()) {
                // A decoded instruction always advances within the region;
                // this branch is never taken.
                Err(CodeValidationError::OperandStackEmpty)
            } else {
                let step = match oi {
                    Some(m) => spec_step(
                        ops,
                        ctl,
                        m,
                        globals,
                        locals,
                        types,
                        type_indices,
                        has_table,
                        has_memory,
                    ),
                    None => match crate::readers::branch_table::spec_br_table_at(s, i + 1) {
                        Ok((labels, _)) => spec_step_br_table(ops, ctl, labels, types),
                        Err(_) => Err(CodeValidationError::OperandStackEmpty),
                    },
                };
                match step {
                    Err(e) => Err(e),
                    Ok((ops2, ctl2)) => spec_validate_body(
                        s,
                        j,
                        ops2,
                        ctl2,
                        globals,
                        locals,
                        types,
                        type_indices,
                        has_table,
                        has_memory,
                    ),
                }
            },
        }
    }
}

/// Checking one whole code entry: the function's type index must exist and
/// be declared, the locals vector must decode, and the body must check out
/// instruction by instruction starting from one frame typed by the
/// function's type.
#[verifier::opaque]
pub open spec fn spec_validate_code(
    data: Seq<u8>,
    globals: Seq<GlobalType>,
    types: Seq<FunctionType>,
    type_indices: Seq<TypeIndex>,
    function_index: FuncIndex,
    has_table: bool,
    has_memory: bool,
) -> Result<(), CodeValidationError> {
    if function_index.0 >= type_indices.len() {
        Err(CodeValidationError::InvalidFunctionIndex(function_index))
    } else {
        let fti = type_indices[function_index.0 as int];
        match crate::leb::leb128_u32_at(data, 0) {
            Err(e) => Err(
                CodeValidationError::CodeReader(
                    crate::readers::code_section::CodeReaderError::BinaryReaderError(e),
                ),
            ),
            Ok((n, j)) => if fti.0 >= types.len() {
                Err(CodeValidationError::InvalidTypeIndex(fti))
            } else {
                match crate::readers::code_section::spec_locals_list_at(data, j, n) {
                    Err(e) => Err(
                        CodeValidationError::CodeReader(
                            crate::readers::code_section::CodeReaderError::BinaryReaderError(e),
                        ),
                    ),
                    Ok((runs, k)) => {
                        let locals = types[fti.0 as int].params@ + spec_expand_locals(runs);
                        spec_validate_body(
                            data.skip(k),
                            0,
                            Seq::empty(),
                            seq![
                                ControlFrame {
                                    kind: ControlFrameKind::Block,
                                    block_type: BlockType::TypeIndex(fti),
                                    height: 0,
                                    unreachable: false,
                                },
                            ],
                            globals,
                            locals,
                            types,
                            type_indices,
                            has_table,
                            has_memory,
                        )
                    },
                }
            },
        }
    }
}

/// Each appended locals run extends the expansion at its end.
proof fn lemma_expand_locals_snoc(runs: Seq<crate::types::Locals>, l: crate::types::Locals)
    ensures
        spec_expand_locals(runs.push(l)) == spec_expand_locals(runs) + Seq::new(
            l.count as nat,
            |i: int| l.value_type,
        ),
    decreases runs.len(),
{
    if runs.len() == 0 {
        assert(runs.push(l)[0] == l);
        assert(runs.push(l).drop_first() =~= Seq::<crate::types::Locals>::empty());
        assert(spec_expand_locals(Seq::<crate::types::Locals>::empty())
            =~= Seq::<ValueType>::empty());
        assert(spec_expand_locals(runs.push(l)) =~= Seq::new(
            l.count as nat,
            |i: int| l.value_type,
        ));
        assert(spec_expand_locals(runs) + Seq::new(l.count as nat, |i: int| l.value_type)
            =~= Seq::new(l.count as nat, |i: int| l.value_type));
    } else {
        assert(runs.push(l).drop_first() =~= runs.drop_first().push(l));
        lemma_expand_locals_snoc(runs.drop_first(), l);
        assert(runs.push(l)[0] == runs[0]);
        assert(spec_expand_locals(runs.push(l)) =~= spec_expand_locals(runs) + Seq::new(
            l.count as nat,
            |i: int| l.value_type,
        ));
    }
}

/// Checks one code entry against the accumulated module context.
pub struct CodeValidator<'a> {
    code: crate::readers::code_section::Code<'a>,
}

impl<'a> CodeValidator<'a> {
    /// The entry's bytes: its locals vector, then its body.
    pub closed spec fn spec_data(&self) -> Seq<u8> {
        self.code.spec_data()
    }

    pub fn new(code: crate::readers::code_section::Code<'a>) -> (r: CodeValidator<'a>)
        ensures
            r.spec_data() == code.spec_data(),
    {
        CodeValidator { code }
    }

    /// Runs the type check of one function body, exactly as
    /// `spec_validate_code` says.
    #[verifier::rlimit(100)]
    #[verifier::spinoff_prover]
    pub fn validate(
        &mut self,
        globals: &Vec<GlobalType>,
        function_types: &Vec<FunctionType>,
        function_type_indices: &Vec<TypeIndex>,
        function_index: FuncIndex,
        max_table_index: Option<TableIndex>,
        max_memory_index: Option<MemoryIndex>,
    ) -> (r: Result<(), CodeValidationError>)
        ensures
            final(self).spec_data() == old(self).spec_data(),
            r == spec_validate_code(
                old(self).spec_data(),
                globals@,
                function_types@,
                function_type_indices@,
                function_index,
                max_table_index is Some,
                max_memory_index is Some,
            ),
    {
        proof {
            reveal(spec_validate_code);
            reveal(spec_validate_body);
        }
        let ghost data = self.spec_data();
        if function_index.0 as usize >= function_type_indices.len() {
            return Err(CodeValidationError::InvalidFunctionIndex(function_index));
        }
        let func_type_index = function_type_indices[function_index.0 as usize];
        let mut locals_reader = match self.code.get_locals_reader() {
            Ok(lr) => lr,
            Err(crate::readers::code_section::CodeReaderError::BinaryReaderError(e)) => {
                return Err(
                    CodeValidationError::CodeReader(
                        crate::readers::code_section::CodeReaderError::BinaryReaderError(e),
                    ),
                );
            },
        };
        if func_type_index.0 as usize >= function_types.len() {
            return Err(CodeValidationError::InvalidTypeIndex(func_type_index));
        }
        // The locals: the parameters first, then each declared run expanded.
        let mut locals: Vec<ValueType> = copy_value_types(
            &function_types[func_type_index.0 as usize].params,
        );
        let ghost start = locals_reader.pos();
        let ghost total = locals_reader.spec_remaining() as nat;
        let ghost params = function_types@[func_type_index.0 as int].params@;
        let ghost mut runs: Seq<crate::types::Locals> = Seq::empty();
        proof {
            assert(spec_expand_locals(runs) =~= Seq::<ValueType>::empty());
            assert(locals@ =~= params + spec_expand_locals(runs));
        }
        let mut remaining = locals_reader.get_count();
        proof {
            assert(locals_reader.spec_remaining() == remaining);
        }
        while remaining > 0
            invariant
                data == old(self).spec_data(),
                self == old(self),
                function_index.0 < function_type_indices@.len(),
                func_type_index == function_type_indices@[function_index.0 as int],
                func_type_index.0 < function_types@.len(),
                crate::leb::leb128_u32_at(data, 0) == Ok::<(nat, int),
                    crate::leb::BinaryReaderError>((total, start)),
                locals_reader.wf(),
                locals_reader.body() == data,
                remaining == locals_reader.spec_remaining(),
                locals@ == params + spec_expand_locals(runs),
                crate::readers::code_section::spec_locals_list_at(data, start, total) == (
                match crate::readers::code_section::spec_locals_list_at(
                    data,
                    locals_reader.pos(),
                    locals_reader.spec_remaining() as nat,
                ) {
                    Ok((ls, j)) => Ok::<(Seq<crate::types::Locals>, int),
                        crate::leb::BinaryReaderError>((runs + ls, j)),
                    Err(e) => Err::<(Seq<crate::types::Locals>, int),
                        crate::leb::BinaryReaderError>(e),
                }),
            decreases remaining,
        {
            proof {
                reveal(spec_validate_code);
            }
            let ghost prev_runs = runs;
            let l = match locals_reader.read() {
                Ok(l) => l,
                Err(crate::readers::code_section::CodeReaderError::BinaryReaderError(e)) => {
                    return Err(
                        CodeValidationError::CodeReader(
                            crate::readers::code_section::CodeReaderError::BinaryReaderError(e),
                        ),
                    );
                },
            };
            proof {
                runs = runs.push(l);
            }
            remaining = remaining - 1;
            let ghost locals0 = locals@;
            let mut c: u32 = 0;
            while c < l.count
                invariant
                    c <= l.count,
                    locals@ == locals0 + Seq::new(c as nat, |i: int| l.value_type),
                decreases l.count - c,
            {
                locals.push(l.value_type);
                c = c + 1;
                proof {
                    assert(locals@ =~= locals0 + Seq::new(c as nat, |i: int| l.value_type));
                }
            }
            proof {
                lemma_expand_locals_snoc(prev_runs, l);
                assert(locals@ =~= params + spec_expand_locals(runs));
                let rest = crate::readers::code_section::spec_locals_list_at(
                    data,
                    locals_reader.pos(),
                    locals_reader.spec_remaining() as nat,
                );
                if rest is Ok {
                    let ls = rest->Ok_0.0;
                    assert((prev_runs + (seq![l] + ls)) =~= (runs + ls));
                }
            }
        }
        proof {
            assert(runs + Seq::<crate::types::Locals>::empty() =~= runs);
        }
        let locals_iteration_proof = match locals_reader.get_iteration_proof() {
            Ok(p) => p,
            Err(crate::readers::code_section::CodeReaderError::BinaryReaderError(e)) => {
                proof {
                    assert(false);
                }
                return Err(
                    CodeValidationError::CodeReader(
                        crate::readers::code_section::CodeReaderError::BinaryReaderError(e),
                    ),
                );
            },
        };
        let mut instruction_reader = match self.code.get_instruction_reader(
            locals_iteration_proof,
        ) {
            Ok(ir) => ir,
            Err(_) => {
                proof {
                    assert(false);
                }
                return Err(CodeValidationError::InvalidInitExpr);
            },
        };
        let ghost body = instruction_reader.bytes();
        let mut state = CodeValidatorState::new(func_type_index);
        let ghost ops0 = state.ops();
        let ghost ctl0 = state.ctl();
        loop
            invariant
                data == old(self).spec_data(),
                self == old(self),
                function_index.0 < function_type_indices@.len(),
                instruction_reader.wf(),
                instruction_reader.bytes() == body,
                0 <= instruction_reader.pos() <= body.len(),
                spec_frames_ok(state.ops(), state.ctl()),
                spec_validate_code(
                    data,
                    globals@,
                    function_types@,
                    function_type_indices@,
                    function_index,
                    max_table_index is Some,
                    max_memory_index is Some,
                ) == spec_validate_body(
                    body,
                    instruction_reader.pos(),
                    state.ops(),
                    state.ctl(),
                    globals@,
                    locals@,
                    function_types@,
                    function_type_indices@,
                    max_table_index is Some,
                    max_memory_index is Some,
                ),
            ensures
                data == old(self).spec_data(),
                self == old(self),
                function_index.0 < function_type_indices@.len(),
                instruction_reader.wf(),
                instruction_reader.bytes() == body,
                0 <= instruction_reader.pos() <= body.len(),
                spec_frames_ok(state.ops(), state.ctl()),
                spec_validate_code(
                    data,
                    globals@,
                    function_types@,
                    function_type_indices@,
                    function_index,
                    max_table_index is Some,
                    max_memory_index is Some,
                ) == spec_validate_body(
                    body,
                    instruction_reader.pos(),
                    state.ops(),
                    state.ctl(),
                    globals@,
                    locals@,
                    function_types@,
                    function_type_indices@,
                    max_table_index is Some,
                    max_memory_index is Some,
                ),
                instruction_reader.pos() == body.len(),
            decreases body.len() - instruction_reader.pos(),
        {
            proof {
                reveal(spec_validate_code);
                reveal(spec_validate_body);
            }
            if instruction_reader.eof() {
                break;
            }
            if !state.has_open_frame() {
                proof {
                    assert(spec_validate_body(
                        body,
                        instruction_reader.pos(),
                        state.ops(),
                        state.ctl(),
                        globals@,
                        locals@,
                        function_types@,
                        function_type_indices@,
                        max_table_index is Some,
                        max_memory_index is Some,
                    ) == Err::<(), CodeValidationError>(CodeValidationError::OperandStackEmpty));
                }
                return Err(CodeValidationError::OperandStackEmpty);
            }
            let ghost prev_pos = instruction_reader.pos();
            let ghost prev_ops = state.ops();
            let ghost prev_ctl = state.ctl();
            let instruction = match instruction_reader.read() {
                Ok(i) => i,
                Err(e) => {
                    proof {
                        assert(spec_validate_body(
                            body,
                            prev_pos,
                            prev_ops,
                            prev_ctl,
                            globals@,
                            locals@,
                            function_types@,
                            function_type_indices@,
                            max_table_index is Some,
                            max_memory_index is Some,
                        ) == Err::<(), CodeValidationError>(
                            CodeValidationError::InstructionReader(e),
                        ));
                    }
                    return Err(CodeValidationError::InstructionReader(e));
                },
            };
            match state.validate_instruction(
                &instruction,
                globals,
                &locals,
                function_types,
                function_type_indices,
                max_table_index,
                max_memory_index,
            ) {
                Ok(()) => {},
                Err(e) => {
                    proof {
                        reveal(spec_validate_body);
                        reveal(spec_step);
                        assert(spec_validate_body(
                            body,
                            prev_pos,
                            prev_ops,
                            prev_ctl,
                            globals@,
                            locals@,
                            function_types@,
                            function_type_indices@,
                            max_table_index is Some,
                            max_memory_index is Some,
                        ) == Err::<(), CodeValidationError>(e));
                    }
                    return Err(e);
                },
            }
            proof {
                reveal(spec_validate_body);
                reveal(spec_step);
                assert(spec_validate_body(
                    body,
                    prev_pos,
                    prev_ops,
                    prev_ctl,
                    globals@,
                    locals@,
                    function_types@,
                    function_type_indices@,
                    max_table_index is Some,
                    max_memory_index is Some,
                ) == spec_validate_body(
                    body,
                    instruction_reader.pos(),
                    state.ops(),
                    state.ctl(),
                    globals@,
                    locals@,
                    function_types@,
                    function_type_indices@,
                    max_table_index is Some,
                    max_memory_index is Some,
                ));
            }
        }
        Ok(())
    }
}


/// In unreachable code every pop succeeds: once the current frame is marked
/// unreachable and the operand stack sits at its entry height, popping any
/// expected types — singly or as a whole list — yields operands and leaves
/// the stack where it was, until the frame itself is closed.
pub proof fn lemma_unreachable_pops_always_succeed(
    ops: Seq<Operand>,
    frame: ControlFrame,
    expected: Seq<ValueType>,
)
    requires
        frame.unreachable,
        ops.len() == frame.height,
    ensures
        forall|e: Operand| #[trigger] spec_pop_expected(ops, frame, e) == Ok::<(
            Operand,
            Seq<Operand>,
        ), CodeValidationError>((e, ops)),
        spec_pop_expecteds(ops, frame, expected) == Ok::<Seq<Operand>, CodeValidationError>(ops),
    decreases expected.len(),
{
    assert forall|e: Operand| #[trigger] spec_pop_expected(ops, frame, e) == Ok::<(
        Operand,
        Seq<Operand>,
    ), CodeValidationError>((e, ops)) by {
        assert(spec_pop(ops, frame) == Ok::<(Operand, Seq<Operand>), CodeValidationError>(
            (Operand::Unknown, ops),
        ));
    }
    if expected.len() > 0 {
        lemma_unreachable_pops_always_succeed(ops, frame, expected.drop_last());
    }
}

/// A `br_table` validates exactly when every target denotes a frame and all
/// the targets' label-type sequences equal the first target's, element for
/// element; a failure is the first offending target's error.
pub proof fn lemma_br_table_targets_uniform(
    ctl: Seq<ControlFrame>,
    labels: Seq<u32>,
    k: int,
    f0: ControlFrame,
    types: Seq<FunctionType>,
)
    requires
        0 <= k <= labels.len(),
        forall|i: int| k <= i < labels.len() ==> #[trigger] labels[i] < ctl.len(),
        spec_label_types(f0.kind, f0.block_type, types) is Ok,
        forall|i: int| k <= i < labels.len() ==> #[trigger] spec_label_types(
            ctl[ctl.len() - 1 - labels[i]].kind,
            ctl[ctl.len() - 1 - labels[i]].block_type,
            types,
        ) is Ok,
    ensures
        spec_check_targets(ctl, labels, k, f0, types) is Ok <==> forall|i: int|
            k <= i < labels.len() ==> #[trigger] spec_label_types(
                ctl[ctl.len() - 1 - labels[i]].kind,
                ctl[ctl.len() - 1 - labels[i]].block_type,
                types,
            ) == spec_label_types(f0.kind, f0.block_type, types),
    decreases labels.len() - k,
{
    if k < labels.len() {
        lemma_br_table_targets_uniform(ctl, labels, k + 1, f0, types);
    }
}

} // verus!
