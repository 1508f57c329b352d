use water::{
    CodeValidationError, DataValidationError, ExportValidationError, GlobalIndex, Operand,
    Parser, PreambleValidationError, ValidationError, Validator,
};

/// Parses and validates a whole module, draining consumed bytes as the
/// parser reports them.
fn run(module: &[u8]) -> Result<(), ValidationError> {
    let mut parser = Parser::new();
    let mut validator = Validator::new();
    let mut offset = 0;
    loop {
        let (consumed, chunk) = parser.parse(&module[offset..]).expect("parse error");
        validator.validate(&chunk)?;
        offset += consumed;
        if matches!(chunk, water::Chunk::Done) {
            return Ok(());
        }
    }
}

#[test]
fn minimal_valid_module() {
    assert_eq!(Ok(()), run(&[0x00, 0x61, 0x73, 0x6D, 0x01, 0x00, 0x00, 0x00]));
}

#[test]
fn bad_version_is_rejected() {
    assert_eq!(
        Err(ValidationError::PreambleValidation(PreambleValidationError::BadVersion)),
        run(&[0x00, 0x61, 0x73, 0x6D, 0x02, 0x00, 0x00, 0x00])
    );
}

#[test]
fn bad_magic_is_rejected() {
    assert_eq!(
        Err(ValidationError::PreambleValidation(PreambleValidationError::BadMagicNumber)),
        run(&[0x00, 0x61, 0x73, 0x6E, 0x01, 0x00, 0x00, 0x00])
    );
}

#[test]
fn function_returning_its_parameter_is_accepted() {
    let module = [
        0x00, 0x61, 0x73, 0x6D, 0x01, 0x00, 0x00, 0x00, // preamble
        0x01, 0x06, 0x01, 0x60, 0x01, 0x7F, 0x01, 0x7F, // type [i32] -> [i32]
        0x03, 0x02, 0x01, 0x00, // one function of type 0
        0x0A, 0x06, 0x01, 0x04, 0x00, 0x20, 0x00, 0x0B, // local.get 0; end
    ];
    assert_eq!(Ok(()), run(&module));
}

#[test]
fn empty_body_underflows_the_result() {
    let module = [
        0x00, 0x61, 0x73, 0x6D, 0x01, 0x00, 0x00, 0x00, // preamble
        0x01, 0x06, 0x01, 0x60, 0x01, 0x7F, 0x01, 0x7F, // type [i32] -> [i32]
        0x03, 0x02, 0x01, 0x00, // one function of type 0
        0x0A, 0x04, 0x01, 0x02, 0x00, 0x0B, // just end
    ];
    assert_eq!(
        Err(ValidationError::CodeValidation(CodeValidationError::OperandStackEmpty)),
        run(&module)
    );
}

#[test]
fn setting_an_immutable_global_is_rejected() {
    let module = [
        0x00, 0x61, 0x73, 0x6D, 0x01, 0x00, 0x00, 0x00, // preamble
        0x01, 0x04, 0x01, 0x60, 0x00, 0x00, // type [] -> []
        0x02, 0x08, 0x01, 0x01, 0x6D, 0x01, 0x67, 0x03, 0x7F, 0x00, // import immutable i32 global
        0x03, 0x02, 0x01, 0x00, // one function of type 0
        0x0A, 0x08, 0x01, 0x06, 0x00, 0x41, 0x01, 0x24, 0x00, 0x0B, // i32.const 1; global.set 0
    ];
    assert_eq!(
        Err(ValidationError::CodeValidation(CodeValidationError::SettingImmutableGlobal(
            GlobalIndex(0)
        ))),
        run(&module)
    );
}

#[test]
fn duplicate_export_name_is_rejected() {
    let module = [
        0x00, 0x61, 0x73, 0x6D, 0x01, 0x00, 0x00, 0x00, // preamble
        0x01, 0x04, 0x01, 0x60, 0x00, 0x00, // type [] -> []
        0x03, 0x02, 0x01, 0x00, // one function of type 0
        0x07, 0x09, 0x02, 0x01, 0x78, 0x00, 0x00, 0x01, 0x78, 0x00, 0x00, // "x" twice
    ];
    assert_eq!(
        Err(ValidationError::ExportValidation(ExportValidationError::DuplicateName)),
        run(&module)
    );
}

#[test]
fn data_offset_of_wrong_type_is_rejected() {
    let module = [
        0x00, 0x61, 0x73, 0x6D, 0x01, 0x00, 0x00, 0x00, // preamble
        0x05, 0x03, 0x01, 0x00, 0x01, // one memory
        0x0B, 0x09, 0x01, 0x00, 0x43, 0x00, 0x00, 0x00, 0x00, 0x0B, 0x00, // f32.const 0 offset
    ];
    assert_eq!(
        Err(ValidationError::DataValidation(DataValidationError::CodeValidation(
            CodeValidationError::InvalidInitExpr
        ))),
        run(&module)
    );
}

#[test]
fn unreachable_code_accepts_any_pops() {
    // unreachable; i32.add still checks out: the popped operands are unknown.
    let module = [
        0x00, 0x61, 0x73, 0x6D, 0x01, 0x00, 0x00, 0x00, // preamble
        0x01, 0x06, 0x01, 0x60, 0x01, 0x7F, 0x01, 0x7F, // type [i32] -> [i32]
        0x03, 0x02, 0x01, 0x00, // one function of type 0
        0x0A, 0x07, 0x01, 0x05, 0x00, 0x00, 0x6A, 0x6A, 0x0B, // unreachable; add; add; end
    ];
    assert_eq!(Ok(()), run(&module));
}

#[test]
fn unknown_section_is_rejected() {
    let module = [
        0x00, 0x61, 0x73, 0x6D, 0x01, 0x00, 0x00, 0x00, // preamble
        0x0D, 0x01, 0x00, // section id 13
    ];
    assert_eq!(Err(ValidationError::UnknownSection(0x0D)), run(&module));
}

#[test]
fn two_memories_are_rejected() {
    let module = [
        0x00, 0x61, 0x73, 0x6D, 0x01, 0x00, 0x00, 0x00, // preamble
        0x05, 0x05, 0x02, 0x00, 0x01, 0x00, 0x01, // two memories
    ];
    assert_eq!(
        Err(ValidationError::MemoryValidation(
            water::MemoryLimitsValidationError::InvalidMemoryLimits
        )),
        run(&module)
    );
}

#[test]
fn two_tables_are_rejected() {
    let module = [
        0x00, 0x61, 0x73, 0x6D, 0x01, 0x00, 0x00, 0x00, // preamble
        0x04, 0x07, 0x02, 0x70, 0x00, 0x00, 0x70, 0x00, 0x00, // two tables
    ];
    assert_eq!(
        Err(ValidationError::ImportValidation(
            water::ImportValidationError::InvalidTableLimits
        )),
        run(&module)
    );
}

#[test]
fn code_entries_follow_imported_functions() {
    // One imported function of type [] -> [] and one defined function of
    // type [i32] -> [i32]: the single code entry must check against the
    // defined function's type, not the import's.
    let module = [
        0x00, 0x61, 0x73, 0x6D, 0x01, 0x00, 0x00, 0x00, // preamble
        0x01, 0x09, 0x02, 0x60, 0x00, 0x00, 0x60, 0x01, 0x7F, 0x01, 0x7F, // two types
        0x02, 0x07, 0x01, 0x01, 0x6D, 0x01, 0x66, 0x00, 0x00, // import func of type 0
        0x03, 0x02, 0x01, 0x01, // one defined function of type 1
        0x0A, 0x06, 0x01, 0x04, 0x00, 0x20, 0x00, 0x0B, // local.get 0; end
    ];
    assert_eq!(Ok(()), run(&module));
}

#[test]
fn missing_code_entry_is_rejected() {
    let module = [
        0x00, 0x61, 0x73, 0x6D, 0x01, 0x00, 0x00, 0x00, // preamble
        0x01, 0x04, 0x01, 0x60, 0x00, 0x00, // type [] -> []
        0x03, 0x02, 0x01, 0x00, // one function of type 0
        0x0A, 0x01, 0x00, // empty code section
    ];
    assert_eq!(
        Err(ValidationError::CodeValidation(CodeValidationError::InvalidFunctionIndex(
            water::FuncIndex(0)
        ))),
        run(&module)
    );
}

#[test]
fn initializer_reading_mutable_global_is_rejected() {
    let module = [
        0x00, 0x61, 0x73, 0x6D, 0x01, 0x00, 0x00, 0x00, // preamble
        0x02, 0x08, 0x01, 0x01, 0x6D, 0x01, 0x67, 0x03, 0x7F, 0x01, // import mutable i32 global
        0x06, 0x06, 0x01, 0x7F, 0x00, 0x23, 0x00, 0x0B, // global whose init is global.get 0
    ];
    assert_eq!(
        Err(ValidationError::GlobalValidation(water::GlobalValidationError::CodeValidation(
            CodeValidationError::InvalidInitExpr
        ))),
        run(&module)
    );
}

#[test]
fn initializer_reading_immutable_imported_global_is_accepted() {
    let module = [
        0x00, 0x61, 0x73, 0x6D, 0x01, 0x00, 0x00, 0x00, // preamble
        0x02, 0x08, 0x01, 0x01, 0x6D, 0x01, 0x67, 0x03, 0x7F, 0x00, // import immutable i32 global
        0x06, 0x06, 0x01, 0x7F, 0x00, 0x23, 0x00, 0x0B, // global whose init is global.get 0
    ];
    assert_eq!(Ok(()), run(&module));
}

#[test]
fn data_offset_immediate_may_contain_an_end_byte() {
    // The offset is i32.const 11, whose immediate is the End opcode's byte:
    // the region must be delimited by decoding, not by byte scanning.
    let module = [
        0x00, 0x61, 0x73, 0x6D, 0x01, 0x00, 0x00, 0x00, // preamble
        0x05, 0x03, 0x01, 0x00, 0x01, // one memory
        0x0B, 0x06, 0x01, 0x00, 0x41, 0x0B, 0x0B, 0x00, // offset i32.const 11; end
    ];
    assert_eq!(Ok(()), run(&module));
}

#[test]
fn mismatching_operands_are_reported() {
    // i64.const 1; drop works, but i64.const then i32.add does not.
    let module = [
        0x00, 0x61, 0x73, 0x6D, 0x01, 0x00, 0x00, 0x00, // preamble
        0x01, 0x06, 0x01, 0x60, 0x01, 0x7F, 0x01, 0x7F, // type [i32] -> [i32]
        0x03, 0x02, 0x01, 0x00, // one function of type 0
        0x0A, 0x09, 0x01, 0x07, 0x00, 0x42, 0x01, 0x20, 0x00, 0x6A, 0x0B,
    ];
    assert_eq!(
        Err(ValidationError::CodeValidation(CodeValidationError::TypeMismatch {
            expected: Operand::Known(water::ValueType::I32),
            actual: Operand::Known(water::ValueType::I64),
        })),
        run(&module)
    );
}
