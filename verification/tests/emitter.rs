use tortuga::compiler::emitter::instruction::{
    emit_block_type, emit_control_instruction, emit_expression, emit_instruction,
    emit_memory_instruction, emit_numeric_instruction,
};
use tortuga::compiler::emitter::module::{
    emit_element, emit_module, emit_module_section, emit_module_with_version, ModuleSection,
};
use tortuga::compiler::emitter::types::emit_limit;
use tortuga::compiler::emitter::values::{emit_i32, emit_u32, emit_name};
use tortuga::compiler::emitter::{BinaryWebAssemblyEmitter, Emit, Emitter};
use tortuga::web_assembly::{
    BlockType, ControlInstruction, Element, ElementInitializer, ElementMode, Expression,
    FloatType, FunctionType, Instruction, IntegerType, Limit, MemoryArgument, MemoryInstruction,
    Module, Name, NumberType, NumericInstruction, ReferenceType, ResultType, ValueType,
    VariableInstruction,
};
use tortuga::CompilerError;

#[test]
fn empty_module() {
    let mut buffer = Vec::new();
    let module = Module::new();

    module.emit(&mut buffer).unwrap();

    assert_eq!(buffer.as_slice(), b"\x00\x61\x73\x6D\x01\x00\x00\x00")
}

#[test]
fn leb128_values() {
    let mut output = Vec::new();
    assert_eq!(emit_u32(624485, &mut output), 3);
    assert_eq!(output, vec![0xE5, 0x8E, 0x26]);

    let mut output = Vec::new();
    assert_eq!(emit_i32(-123456, &mut output), 3);
    assert_eq!(output, vec![0xC0, 0xBB, 0x78]);
}

#[test]
fn name_is_prefixed_by_length() {
    let mut output = Vec::new();
    emit_name(&Name::new("héllo".to_string()), &mut output);
    assert_eq!(output, vec![6, b'h', 0xC3, 0xA9, b'l', b'l', b'o']);
}

#[test]
fn numeric_instructions() {
    let mut output = Vec::new();
    assert_eq!(
        emit_numeric_instruction(&NumericInstruction::I32Constant(42), &mut output),
        Ok(2)
    );
    assert_eq!(
        emit_numeric_instruction(&NumericInstruction::Add(NumberType::I64), &mut output),
        Ok(1)
    );
    assert_eq!(
        emit_numeric_instruction(
            &NumericInstruction::ConvertAndTruncateWithSaturation(
                IntegerType::I64,
                FloatType::F64,
                tortuga::web_assembly::SignExtension::Unsigned,
            ),
            &mut output
        ),
        Ok(2)
    );
    assert_eq!(
        emit_numeric_instruction(&NumericInstruction::F32Constant(1.5f32.to_bits()), &mut output),
        Ok(5)
    );
    assert_eq!(
        output,
        vec![0x41, 42, 0x7C, 0xFC, 7, 0x43, 0x00, 0x00, 0xC0, 0x3F]
    );
}

#[test]
fn reinterpretation_between_widths_is_invalid() {
    let mut output = vec![1u8];
    assert_eq!(
        emit_numeric_instruction(
            &NumericInstruction::ReinterpretFloat(IntegerType::I32, FloatType::F64),
            &mut output
        ),
        Err(CompilerError::InvalidSyntax)
    );
    assert_eq!(output, vec![1u8]);
}

#[test]
fn memory_instructions() {
    let mut output = Vec::new();
    let argument = MemoryArgument::new(2, 300);
    assert_eq!(
        emit_memory_instruction(&MemoryInstruction::Load(NumberType::I32, argument), &mut output),
        4
    );
    assert_eq!(emit_memory_instruction(&MemoryInstruction::MemoryCopy, &mut output), 4);
    assert_eq!(output, vec![0x28, 2, 0xAC, 0x02, 0xFC, 10, 0, 0]);
}

#[test]
fn block_types() {
    let mut output = Vec::new();
    emit_block_type(&BlockType::Empty, &mut output);
    emit_block_type(&BlockType::ValueType(ValueType::Number(NumberType::I32)), &mut output);
    emit_block_type(&BlockType::Index(64), &mut output);
    assert_eq!(output, vec![0x40, 0x7F, 0xC0, 0x00]);
}

#[test]
fn if_with_else_branch() {
    let positive = Expression::new(vec![Instruction::Numeric(NumericInstruction::I32Constant(1))]);
    let negative = Expression::new(vec![Instruction::Numeric(NumericInstruction::I32Constant(2))]);
    let instruction = ControlInstruction::If(
        BlockType::ValueType(ValueType::Number(NumberType::I32)),
        positive,
        Some(negative),
    );
    let mut output = Vec::new();
    assert_eq!(emit_control_instruction(&instruction, &mut output), Ok(8));
    assert_eq!(output, vec![0x04, 0x7F, 0x41, 1, 0x05, 0x41, 2, 0x0B]);
}

#[test]
fn nested_invalid_instruction_fails() {
    let body = Expression::new(vec![
        Instruction::Variable(VariableInstruction::LocalGet(0)),
        Instruction::Numeric(NumericInstruction::ReinterpretInteger(FloatType::F32, IntegerType::I64)),
    ]);
    let block = Instruction::Control(ControlInstruction::Block(BlockType::Empty, body));
    let mut output = Vec::new();
    assert_eq!(emit_instruction(&block, &mut output), Err(CompilerError::InvalidSyntax));
}

#[test]
fn expression_ends_with_end() {
    let expression = Expression::new(vec![
        Instruction::Variable(VariableInstruction::LocalGet(1)),
        Instruction::Control(ControlInstruction::Return),
    ]);
    let mut output = Vec::new();
    assert_eq!(emit_expression(&expression, &mut output), Ok(4));
    assert_eq!(output, vec![0x20, 1, 0x0F, 0x0B]);
}

#[test]
fn limits() {
    let mut output = Vec::new();
    emit_limit(&Limit::new(1, Some(2)), &mut output);
    emit_limit(&Limit::new(3, None), &mut output);
    assert_eq!(output, vec![0x01, 1, 2, 0x00, 3]);
}

#[test]
fn external_function_indices_are_invalid() {
    for mode in [
        ElementMode::Passive,
        ElementMode::Declarative,
        ElementMode::Active(1, Expression::new(vec![])),
    ] {
        let element = Element::new(
            ReferenceType::External,
            mode,
            ElementInitializer::FunctionIndex(vec![0]),
        );
        let mut output = Vec::new();
        assert_eq!(emit_element(&element, &mut output), Err(CompilerError::InvalidSyntax));
        assert!(output.is_empty());
    }

    let element = Element::new(
        ReferenceType::Function,
        ElementMode::Passive,
        ElementInitializer::FunctionIndex(vec![3]),
    );
    let mut output = Vec::new();
    assert_eq!(emit_element(&element, &mut output), Ok(4));
    assert_eq!(output, vec![0x01, 0x00, 1, 3]);
}

#[test]
fn function_indices_in_a_table_or_declared_use_element_kind_zero() {
    let offset = Expression::new(vec![Instruction::Numeric(NumericInstruction::I32Constant(4))]);
    let element = Element::new(
        ReferenceType::Function,
        ElementMode::Active(2, offset),
        ElementInitializer::FunctionIndex(vec![7]),
    );
    let mut output = Vec::new();
    assert_eq!(emit_element(&element, &mut output), Ok(8));
    assert_eq!(output, vec![0x02, 2, 0x41, 4, 0x0B, 0x00, 1, 7]);

    let element = Element::new(
        ReferenceType::Function,
        ElementMode::Declarative,
        ElementInitializer::FunctionIndex(vec![7]),
    );
    let mut output = Vec::new();
    assert_eq!(emit_element(&element, &mut output), Ok(4));
    assert_eq!(output, vec![0x03, 0x00, 1, 7]);
}

#[test]
fn offset_without_encoding_leaves_the_bytes_written_before_it() {
    let offset = Expression::new(vec![Instruction::Numeric(NumericInstruction::ReinterpretFloat(
        IntegerType::I32,
        FloatType::F64,
    ))]);
    let element = Element::new(
        ReferenceType::Function,
        ElementMode::Active(0, offset),
        ElementInitializer::FunctionIndex(vec![7]),
    );
    let mut output = vec![9];
    assert_eq!(emit_element(&element, &mut output), Err(CompilerError::InvalidSyntax));
    assert_eq!(output[..2], [9, 0x00]);
}

#[test]
fn module_with_a_type_and_the_version() {
    let mut module = Module::new();
    let parameters = ResultType::new(vec![ValueType::Number(NumberType::I32)]);
    let results = ResultType::new(vec![]);
    module.add_type(FunctionType::new(parameters, results));

    let mut output = Vec::new();
    let bytes = emit_module_with_version(&module, "0.1", &mut output).unwrap();

    let mut expected = vec![0x00, 0x61, 0x73, 0x6D, 0x01, 0x00, 0x00, 0x00];
    expected.extend_from_slice(&[0x00, 11, 7]);
    expected.extend_from_slice(b"version");
    expected.extend_from_slice(b"0.1");
    expected.extend_from_slice(&[0x01, 5, 1, 0x60, 1, 0x7F, 0]);
    assert_eq!(output, expected);
    assert_eq!(bytes, expected.len());
}

#[test]
fn empty_module_is_the_preamble_alone() {
    let mut output = Vec::new();
    let bytes = emit_module(&Module::new(), &mut output).unwrap();

    assert_eq!(output.as_slice(), b"\x00\x61\x73\x6D\x01\x00\x00\x00");
    assert_eq!(bytes, 8);
}

#[test]
fn module_with_a_type() {
    let mut module = Module::new();
    let parameters = ResultType::new(vec![ValueType::Number(NumberType::I32)]);
    let results = ResultType::new(vec![]);
    module.add_type(FunctionType::new(parameters, results));

    let mut output = Vec::new();
    let bytes = emit_module(&module, &mut output).unwrap();

    let mut expected = vec![0x00, 0x61, 0x73, 0x6D, 0x01, 0x00, 0x00, 0x00];
    expected.extend_from_slice(&[0x01, 5, 1, 0x60, 1, 0x7F, 0]);
    assert_eq!(output, expected);
    assert_eq!(bytes, expected.len());
}

#[test]
fn module_sections_have_ids() {
    let mut output = Vec::new();
    emit_module_section(ModuleSection::DataCountSection, &mut output);
    emit_module_section(ModuleSection::CustomSection, &mut output);
    assert_eq!(output, vec![12, 0]);
    assert_eq!(ModuleSection::CodeSection.id(), 10);
}

#[test]
fn binary_emitter() {
    let emitter = BinaryWebAssemblyEmitter::new();
    let mut output = Vec::new();
    assert_eq!(emitter.emit(&NumberType::F64, &mut output), Ok(1));
    assert_eq!(emitter.emit(&-1i64, &mut output), Ok(1));
    assert_eq!(emitter.emit(&Name::new("ab".to_string()), &mut output), Ok(2));
    assert_eq!(emitter.emit(&Module::new(), &mut output), Ok(8));
    assert_eq!(output[..4], [0x7C, 0x7F, b'a', b'b']);
}
