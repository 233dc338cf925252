//! The binary encoding of WebAssembly instructions and expressions.
//!
//! See <https://webassembly.github.io/spec/core/binary/instructions.html>
use crate::compiler::emitter::types::{
    concat, emit_reference_type, lemma_concat_all, lemma_concat_step, emit_value_type, emit_value_types, reference_type_byte, value_type_byte,
    value_type_encoding, vector_encoding,
};
use crate::compiler::emitter::values::{
    emit_byte, emit_f32, emit_f64, emit_i32, emit_i64, emit_u32, emit_usize, leb128_signed,
    leb128_unsigned, little_endian,
};
use crate::compiler::errors::CompilerError;
use crate::web_assembly::{
    BlockType, ControlInstruction, Expression, FloatType, Instruction, IntegerType, MemoryArgument, MemoryInstruction, NumberType,
    NumericInstruction, ParametricInstruction, ReferenceInstruction, SignExtension, StorageSize,
    TableInstruction, ValueType, VariableInstruction,
};
use vstd::prelude::*;

verus! {

/// The opcode of a numeric instruction that has no immediate operand: its first byte, and the
/// number that follows a `0xFC` prefix byte. A reinterpretation between an integer type and a
/// floating-point type of another width has none, nor do the constants.
pub open spec fn numeric_opcode(instruction: NumericInstruction) -> Option<(u8, Option<u32>)> {
    match instruction {
        NumericInstruction::EqualToZero(a) => match a {
            IntegerType::I32 => Some((0x45u8, None)),
            IntegerType::I64 => Some((0x50u8, None)),
        },
        NumericInstruction::Equal(a) => match a {
            NumberType::I32 => Some((0x46u8, None)),
            NumberType::I64 => Some((0x51u8, None)),
            NumberType::F32 => Some((0x5Bu8, None)),
            NumberType::F64 => Some((0x61u8, None)),
        },
        NumericInstruction::NotEqual(a) => match a {
            NumberType::I32 => Some((0x47u8, None)),
            NumberType::I64 => Some((0x52u8, None)),
            NumberType::F32 => Some((0x5Cu8, None)),
            NumberType::F64 => Some((0x62u8, None)),
        },
        NumericInstruction::LessThanInteger(a, b) => match (a, b) {
            (IntegerType::I32, SignExtension::Signed) => Some((0x48u8, None)),
            (IntegerType::I32, SignExtension::Unsigned) => Some((0x49u8, None)),
            (IntegerType::I64, SignExtension::Signed) => Some((0x53u8, None)),
            (IntegerType::I64, SignExtension::Unsigned) => Some((0x54u8, None)),
        },
        NumericInstruction::GreaterThanInteger(a, b) => match (a, b) {
            (IntegerType::I32, SignExtension::Signed) => Some((0x4Au8, None)),
            (IntegerType::I32, SignExtension::Unsigned) => Some((0x4Bu8, None)),
            (IntegerType::I64, SignExtension::Signed) => Some((0x55u8, None)),
            (IntegerType::I64, SignExtension::Unsigned) => Some((0x56u8, None)),
        },
        NumericInstruction::LessThanOrEqualToInteger(a, b) => match (a, b) {
            (IntegerType::I32, SignExtension::Signed) => Some((0x4Cu8, None)),
            (IntegerType::I32, SignExtension::Unsigned) => Some((0x4Du8, None)),
            (IntegerType::I64, SignExtension::Signed) => Some((0x57u8, None)),
            (IntegerType::I64, SignExtension::Unsigned) => Some((0x58u8, None)),
        },
        NumericInstruction::GreaterThanOrEqualToInteger(a, b) => match (a, b) {
            (IntegerType::I32, SignExtension::Signed) => Some((0x4Eu8, None)),
            (IntegerType::I32, SignExtension::Unsigned) => Some((0x4Fu8, None)),
            (IntegerType::I64, SignExtension::Signed) => Some((0x59u8, None)),
            (IntegerType::I64, SignExtension::Unsigned) => Some((0x5Au8, None)),
        },
        NumericInstruction::LessThanFloat(a) => match a {
            FloatType::F32 => Some((0x5Du8, None)),
            FloatType::F64 => Some((0x63u8, None)),
        },
        NumericInstruction::GreaterThanFloat(a) => match a {
            FloatType::F32 => Some((0x5Eu8, None)),
            FloatType::F64 => Some((0x64u8, None)),
        },
        NumericInstruction::LessThanOrEqualToFloat(a) => match a {
            FloatType::F32 => Some((0x5Fu8, None)),
            FloatType::F64 => Some((0x65u8, None)),
        },
        NumericInstruction::GreaterThanOrEqualToFloat(a) => match a {
            FloatType::F32 => Some((0x60u8, None)),
            FloatType::F64 => Some((0x66u8, None)),
        },
        NumericInstruction::CountLeadingZeros(a) => match a {
            IntegerType::I32 => Some((0x67u8, None)),
            IntegerType::I64 => Some((0x79u8, None)),
        },
        NumericInstruction::CountTrailingZeros(a) => match a {
            IntegerType::I32 => Some((0x68u8, None)),
            IntegerType::I64 => Some((0x7Au8, None)),
        },
        NumericInstruction::CountOnes(a) => match a {
            IntegerType::I32 => Some((0x69u8, None)),
            IntegerType::I64 => Some((0x7Bu8, None)),
        },
        NumericInstruction::Add(a) => match a {
            NumberType::I32 => Some((0x6Au8, None)),
            NumberType::I64 => Some((0x7Cu8, None)),
            NumberType::F32 => Some((0x92u8, None)),
            NumberType::F64 => Some((0xA0u8, None)),
        },
        NumericInstruction::Subtract(a) => match a {
            NumberType::I32 => Some((0x6Bu8, None)),
            NumberType::I64 => Some((0x7Du8, None)),
            NumberType::F32 => Some((0x93u8, None)),
            NumberType::F64 => Some((0xA1u8, None)),
        },
        NumericInstruction::Multiply(a) => match a {
            NumberType::I32 => Some((0x6Cu8, None)),
            NumberType::I64 => Some((0x7Eu8, None)),
            NumberType::F32 => Some((0x94u8, None)),
            NumberType::F64 => Some((0xA2u8, None)),
        },
        NumericInstruction::DivideInteger(a, b) => match (a, b) {
            (IntegerType::I32, SignExtension::Signed) => Some((0x6Du8, None)),
            (IntegerType::I32, SignExtension::Unsigned) => Some((0x6Eu8, None)),
            (IntegerType::I64, SignExtension::Signed) => Some((0x7Fu8, None)),
            (IntegerType::I64, SignExtension::Unsigned) => Some((0x80u8, None)),
        },
        NumericInstruction::Remainder(a, b) => match (a, b) {
            (IntegerType::I32, SignExtension::Signed) => Some((0x6Fu8, None)),
            (IntegerType::I32, SignExtension::Unsigned) => Some((0x70u8, None)),
            (IntegerType::I64, SignExtension::Signed) => Some((0x81u8, None)),
            (IntegerType::I64, SignExtension::Unsigned) => Some((0x82u8, None)),
        },
        NumericInstruction::And(a) => match a {
            IntegerType::I32 => Some((0x71u8, None)),
            IntegerType::I64 => Some((0x83u8, None)),
        },
        NumericInstruction::Or(a) => match a {
            IntegerType::I32 => Some((0x72u8, None)),
            IntegerType::I64 => Some((0x84u8, None)),
        },
        NumericInstruction::Xor(a) => match a {
            IntegerType::I32 => Some((0x73u8, None)),
            IntegerType::I64 => Some((0x85u8, None)),
        },
        NumericInstruction::ShiftLeft(a) => match a {
            IntegerType::I32 => Some((0x74u8, None)),
            IntegerType::I64 => Some((0x86u8, None)),
        },
        NumericInstruction::ShiftRight(a, b) => match (a, b) {
            (IntegerType::I32, SignExtension::Signed) => Some((0x75u8, None)),
            (IntegerType::I32, SignExtension::Unsigned) => Some((0x76u8, None)),
            (IntegerType::I64, SignExtension::Signed) => Some((0x87u8, None)),
            (IntegerType::I64, SignExtension::Unsigned) => Some((0x88u8, None)),
        },
        NumericInstruction::RotateLeft(a) => match a {
            IntegerType::I32 => Some((0x77u8, None)),
            IntegerType::I64 => Some((0x89u8, None)),
        },
        NumericInstruction::RotateRight(a) => match a {
            IntegerType::I32 => Some((0x78u8, None)),
            IntegerType::I64 => Some((0x8Au8, None)),
        },
        NumericInstruction::AbsoluteValue(a) => match a {
            FloatType::F32 => Some((0x8Bu8, None)),
            FloatType::F64 => Some((0x99u8, None)),
        },
        NumericInstruction::Negate(a) => match a {
            FloatType::F32 => Some((0x8Cu8, None)),
            FloatType::F64 => Some((0x9Au8, None)),
        },
        NumericInstruction::Ceiling(a) => match a {
            FloatType::F32 => Some((0x8Du8, None)),
            FloatType::F64 => Some((0x9Bu8, None)),
        },
        NumericInstruction::Floor(a) => match a {
            FloatType::F32 => Some((0x8Eu8, None)),
            FloatType::F64 => Some((0x9Cu8, None)),
        },
        NumericInstruction::Truncate(a) => match a {
            FloatType::F32 => Some((0x8Fu8, None)),
            FloatType::F64 => Some((0x9Du8, None)),
        },
        NumericInstruction::Nearest(a) => match a {
            FloatType::F32 => Some((0x90u8, None)),
            FloatType::F64 => Some((0x9Eu8, None)),
        },
        NumericInstruction::SquareRoot(a) => match a {
            FloatType::F32 => Some((0x91u8, None)),
            FloatType::F64 => Some((0x9Fu8, None)),
        },
        NumericInstruction::DivideFloat(a) => match a {
            FloatType::F32 => Some((0x95u8, None)),
            FloatType::F64 => Some((0xA3u8, None)),
        },
        NumericInstruction::Minimum(a) => match a {
            FloatType::F32 => Some((0x96u8, None)),
            FloatType::F64 => Some((0xA4u8, None)),
        },
        NumericInstruction::Maximum(a) => match a {
            FloatType::F32 => Some((0x97u8, None)),
            FloatType::F64 => Some((0xA5u8, None)),
        },
        NumericInstruction::CopySign(a) => match a {
            FloatType::F32 => Some((0x98u8, None)),
            FloatType::F64 => Some((0xA6u8, None)),
        },
        NumericInstruction::Wrap => Some((0xA7u8, None)),
        NumericInstruction::ConvertAndTruncate(a, b, c) => match (a, b, c) {
            (IntegerType::I32, FloatType::F32, SignExtension::Signed) => Some((0xA8u8, None)),
            (IntegerType::I32, FloatType::F32, SignExtension::Unsigned) => Some((0xA9u8, None)),
            (IntegerType::I32, FloatType::F64, SignExtension::Signed) => Some((0xAAu8, None)),
            (IntegerType::I32, FloatType::F64, SignExtension::Unsigned) => Some((0xABu8, None)),
            (IntegerType::I64, FloatType::F32, SignExtension::Signed) => Some((0xAEu8, None)),
            (IntegerType::I64, FloatType::F32, SignExtension::Unsigned) => Some((0xAFu8, None)),
            (IntegerType::I64, FloatType::F64, SignExtension::Signed) => Some((0xB0u8, None)),
            (IntegerType::I64, FloatType::F64, SignExtension::Unsigned) => Some((0xB1u8, None)),
        },
        NumericInstruction::ExtendWithSignExtension(a) => match a {
            SignExtension::Signed => Some((0xACu8, None)),
            SignExtension::Unsigned => Some((0xADu8, None)),
        },
        NumericInstruction::Convert(a, b, c) => match (a, b, c) {
            (FloatType::F32, IntegerType::I32, SignExtension::Signed) => Some((0xB2u8, None)),
            (FloatType::F32, IntegerType::I32, SignExtension::Unsigned) => Some((0xB3u8, None)),
            (FloatType::F32, IntegerType::I64, SignExtension::Signed) => Some((0xB4u8, None)),
            (FloatType::F32, IntegerType::I64, SignExtension::Unsigned) => Some((0xB5u8, None)),
            (FloatType::F64, IntegerType::I32, SignExtension::Signed) => Some((0xB7u8, None)),
            (FloatType::F64, IntegerType::I32, SignExtension::Unsigned) => Some((0xB8u8, None)),
            (FloatType::F64, IntegerType::I64, SignExtension::Signed) => Some((0xB9u8, None)),
            (FloatType::F64, IntegerType::I64, SignExtension::Unsigned) => Some((0xBAu8, None)),
        },
        NumericInstruction::Demote => Some((0xB6u8, None)),
        NumericInstruction::Promote => Some((0xBBu8, None)),
        NumericInstruction::ReinterpretFloat(a, b) => match (a, b) {
            (IntegerType::I32, FloatType::F32) => Some((0xBCu8, None)),
            (IntegerType::I64, FloatType::F64) => Some((0xBDu8, None)),
            _ => None,
        },
        NumericInstruction::ReinterpretInteger(a, b) => match (a, b) {
            (FloatType::F32, IntegerType::I32) => Some((0xBEu8, None)),
            (FloatType::F64, IntegerType::I64) => Some((0xBFu8, None)),
            _ => None,
        },
        NumericInstruction::ExtendSigned(a) => match a {
            StorageSize::I32_8 => Some((0xC0u8, None)),
            StorageSize::I32_16 => Some((0xC1u8, None)),
            StorageSize::I64_8 => Some((0xC2u8, None)),
            StorageSize::I64_16 => Some((0xC3u8, None)),
            StorageSize::I64_32 => Some((0xC4u8, None)),
        },
        NumericInstruction::ConvertAndTruncateWithSaturation(a, b, c) => match (a, b, c) {
            (IntegerType::I32, FloatType::F32, SignExtension::Signed) => Some((0xFCu8, Some(0u32))),
            (IntegerType::I32, FloatType::F32, SignExtension::Unsigned) => Some((0xFCu8, Some(1u32))),
            (IntegerType::I32, FloatType::F64, SignExtension::Signed) => Some((0xFCu8, Some(2u32))),
            (IntegerType::I32, FloatType::F64, SignExtension::Unsigned) => Some((0xFCu8, Some(3u32))),
            (IntegerType::I64, FloatType::F32, SignExtension::Signed) => Some((0xFCu8, Some(4u32))),
            (IntegerType::I64, FloatType::F32, SignExtension::Unsigned) => Some((0xFCu8, Some(5u32))),
            (IntegerType::I64, FloatType::F64, SignExtension::Signed) => Some((0xFCu8, Some(6u32))),
            (IntegerType::I64, FloatType::F64, SignExtension::Unsigned) => Some((0xFCu8, Some(7u32))),
        },
        _ => None,
    }
}

/// The numeric instruction that an opcode, and the sub-opcode behind the `0xFC` prefix, stand
/// for in the WebAssembly binary format.
pub open spec fn numeric_instruction_of(opcode: (u8, Option<u32>)) -> Option<NumericInstruction> {
    match opcode {
        (0x45u8, None) => Some(NumericInstruction::EqualToZero(IntegerType::I32)),
        (0x50u8, None) => Some(NumericInstruction::EqualToZero(IntegerType::I64)),
        (0x46u8, None) => Some(NumericInstruction::Equal(NumberType::I32)),
        (0x51u8, None) => Some(NumericInstruction::Equal(NumberType::I64)),
        (0x5Bu8, None) => Some(NumericInstruction::Equal(NumberType::F32)),
        (0x61u8, None) => Some(NumericInstruction::Equal(NumberType::F64)),
        (0x47u8, None) => Some(NumericInstruction::NotEqual(NumberType::I32)),
        (0x52u8, None) => Some(NumericInstruction::NotEqual(NumberType::I64)),
        (0x5Cu8, None) => Some(NumericInstruction::NotEqual(NumberType::F32)),
        (0x62u8, None) => Some(NumericInstruction::NotEqual(NumberType::F64)),
        (0x48u8, None) => Some(NumericInstruction::LessThanInteger(IntegerType::I32, SignExtension::Signed)),
        (0x49u8, None) => Some(NumericInstruction::LessThanInteger(IntegerType::I32, SignExtension::Unsigned)),
        (0x53u8, None) => Some(NumericInstruction::LessThanInteger(IntegerType::I64, SignExtension::Signed)),
        (0x54u8, None) => Some(NumericInstruction::LessThanInteger(IntegerType::I64, SignExtension::Unsigned)),
        (0x4Au8, None) => Some(NumericInstruction::GreaterThanInteger(IntegerType::I32, SignExtension::Signed)),
        (0x4Bu8, None) => Some(NumericInstruction::GreaterThanInteger(IntegerType::I32, SignExtension::Unsigned)),
        (0x55u8, None) => Some(NumericInstruction::GreaterThanInteger(IntegerType::I64, SignExtension::Signed)),
        (0x56u8, None) => Some(NumericInstruction::GreaterThanInteger(IntegerType::I64, SignExtension::Unsigned)),
        (0x4Cu8, None) => Some(NumericInstruction::LessThanOrEqualToInteger(IntegerType::I32, SignExtension::Signed)),
        (0x4Du8, None) => Some(NumericInstruction::LessThanOrEqualToInteger(IntegerType::I32, SignExtension::Unsigned)),
        (0x57u8, None) => Some(NumericInstruction::LessThanOrEqualToInteger(IntegerType::I64, SignExtension::Signed)),
        (0x58u8, None) => Some(NumericInstruction::LessThanOrEqualToInteger(IntegerType::I64, SignExtension::Unsigned)),
        (0x4Eu8, None) => Some(NumericInstruction::GreaterThanOrEqualToInteger(IntegerType::I32, SignExtension::Signed)),
        (0x4Fu8, None) => Some(NumericInstruction::GreaterThanOrEqualToInteger(IntegerType::I32, SignExtension::Unsigned)),
        (0x59u8, None) => Some(NumericInstruction::GreaterThanOrEqualToInteger(IntegerType::I64, SignExtension::Signed)),
        (0x5Au8, None) => Some(NumericInstruction::GreaterThanOrEqualToInteger(IntegerType::I64, SignExtension::Unsigned)),
        (0x5Du8, None) => Some(NumericInstruction::LessThanFloat(FloatType::F32)),
        (0x63u8, None) => Some(NumericInstruction::LessThanFloat(FloatType::F64)),
        (0x5Eu8, None) => Some(NumericInstruction::GreaterThanFloat(FloatType::F32)),
        (0x64u8, None) => Some(NumericInstruction::GreaterThanFloat(FloatType::F64)),
        (0x5Fu8, None) => Some(NumericInstruction::LessThanOrEqualToFloat(FloatType::F32)),
        (0x65u8, None) => Some(NumericInstruction::LessThanOrEqualToFloat(FloatType::F64)),
        (0x60u8, None) => Some(NumericInstruction::GreaterThanOrEqualToFloat(FloatType::F32)),
        (0x66u8, None) => Some(NumericInstruction::GreaterThanOrEqualToFloat(FloatType::F64)),
        (0x67u8, None) => Some(NumericInstruction::CountLeadingZeros(IntegerType::I32)),
        (0x79u8, None) => Some(NumericInstruction::CountLeadingZeros(IntegerType::I64)),
        (0x68u8, None) => Some(NumericInstruction::CountTrailingZeros(IntegerType::I32)),
        (0x7Au8, None) => Some(NumericInstruction::CountTrailingZeros(IntegerType::I64)),
        (0x69u8, None) => Some(NumericInstruction::CountOnes(IntegerType::I32)),
        (0x7Bu8, None) => Some(NumericInstruction::CountOnes(IntegerType::I64)),
        (0x6Au8, None) => Some(NumericInstruction::Add(NumberType::I32)),
        (0x7Cu8, None) => Some(NumericInstruction::Add(NumberType::I64)),
        (0x92u8, None) => Some(NumericInstruction::Add(NumberType::F32)),
        (0xA0u8, None) => Some(NumericInstruction::Add(NumberType::F64)),
        (0x6Bu8, None) => Some(NumericInstruction::Subtract(NumberType::I32)),
        (0x7Du8, None) => Some(NumericInstruction::Subtract(NumberType::I64)),
        (0x93u8, None) => Some(NumericInstruction::Subtract(NumberType::F32)),
        (0xA1u8, None) => Some(NumericInstruction::Subtract(NumberType::F64)),
        (0x6Cu8, None) => Some(NumericInstruction::Multiply(NumberType::I32)),
        (0x7Eu8, None) => Some(NumericInstruction::Multiply(NumberType::I64)),
        (0x94u8, None) => Some(NumericInstruction::Multiply(NumberType::F32)),
        (0xA2u8, None) => Some(NumericInstruction::Multiply(NumberType::F64)),
        (0x6Du8, None) => Some(NumericInstruction::DivideInteger(IntegerType::I32, SignExtension::Signed)),
        (0x6Eu8, None) => Some(NumericInstruction::DivideInteger(IntegerType::I32, SignExtension::Unsigned)),
        (0x7Fu8, None) => Some(NumericInstruction::DivideInteger(IntegerType::I64, SignExtension::Signed)),
        (0x80u8, None) => Some(NumericInstruction::DivideInteger(IntegerType::I64, SignExtension::Unsigned)),
        (0x6Fu8, None) => Some(NumericInstruction::Remainder(IntegerType::I32, SignExtension::Signed)),
        (0x70u8, None) => Some(NumericInstruction::Remainder(IntegerType::I32, SignExtension::Unsigned)),
        (0x81u8, None) => Some(NumericInstruction::Remainder(IntegerType::I64, SignExtension::Signed)),
        (0x82u8, None) => Some(NumericInstruction::Remainder(IntegerType::I64, SignExtension::Unsigned)),
        (0x71u8, None) => Some(NumericInstruction::And(IntegerType::I32)),
        (0x83u8, None) => Some(NumericInstruction::And(IntegerType::I64)),
        (0x72u8, None) => Some(NumericInstruction::Or(IntegerType::I32)),
        (0x84u8, None) => Some(NumericInstruction::Or(IntegerType::I64)),
        (0x73u8, None) => Some(NumericInstruction::Xor(IntegerType::I32)),
        (0x85u8, None) => Some(NumericInstruction::Xor(IntegerType::I64)),
        (0x74u8, None) => Some(NumericInstruction::ShiftLeft(IntegerType::I32)),
        (0x86u8, None) => Some(NumericInstruction::ShiftLeft(IntegerType::I64)),
        (0x75u8, None) => Some(NumericInstruction::ShiftRight(IntegerType::I32, SignExtension::Signed)),
        (0x76u8, None) => Some(NumericInstruction::ShiftRight(IntegerType::I32, SignExtension::Unsigned)),
        (0x87u8, None) => Some(NumericInstruction::ShiftRight(IntegerType::I64, SignExtension::Signed)),
        (0x88u8, None) => Some(NumericInstruction::ShiftRight(IntegerType::I64, SignExtension::Unsigned)),
        (0x77u8, None) => Some(NumericInstruction::RotateLeft(IntegerType::I32)),
        (0x89u8, None) => Some(NumericInstruction::RotateLeft(IntegerType::I64)),
        (0x78u8, None) => Some(NumericInstruction::RotateRight(IntegerType::I32)),
        (0x8Au8, None) => Some(NumericInstruction::RotateRight(IntegerType::I64)),
        (0x8Bu8, None) => Some(NumericInstruction::AbsoluteValue(FloatType::F32)),
        (0x99u8, None) => Some(NumericInstruction::AbsoluteValue(FloatType::F64)),
        (0x8Cu8, None) => Some(NumericInstruction::Negate(FloatType::F32)),
        (0x9Au8, None) => Some(NumericInstruction::Negate(FloatType::F64)),
        (0x8Du8, None) => Some(NumericInstruction::Ceiling(FloatType::F32)),
        (0x9Bu8, None) => Some(NumericInstruction::Ceiling(FloatType::F64)),
        (0x8Eu8, None) => Some(NumericInstruction::Floor(FloatType::F32)),
        (0x9Cu8, None) => Some(NumericInstruction::Floor(FloatType::F64)),
        (0x8Fu8, None) => Some(NumericInstruction::Truncate(FloatType::F32)),
        (0x9Du8, None) => Some(NumericInstruction::Truncate(FloatType::F64)),
        (0x90u8, None) => Some(NumericInstruction::Nearest(FloatType::F32)),
        (0x9Eu8, None) => Some(NumericInstruction::Nearest(FloatType::F64)),
        (0x91u8, None) => Some(NumericInstruction::SquareRoot(FloatType::F32)),
        (0x9Fu8, None) => Some(NumericInstruction::SquareRoot(FloatType::F64)),
        (0x95u8, None) => Some(NumericInstruction::DivideFloat(FloatType::F32)),
        (0xA3u8, None) => Some(NumericInstruction::DivideFloat(FloatType::F64)),
        (0x96u8, None) => Some(NumericInstruction::Minimum(FloatType::F32)),
        (0xA4u8, None) => Some(NumericInstruction::Minimum(FloatType::F64)),
        (0x97u8, None) => Some(NumericInstruction::Maximum(FloatType::F32)),
        (0xA5u8, None) => Some(NumericInstruction::Maximum(FloatType::F64)),
        (0x98u8, None) => Some(NumericInstruction::CopySign(FloatType::F32)),
        (0xA6u8, None) => Some(NumericInstruction::CopySign(FloatType::F64)),
        (0xA7u8, None) => Some(NumericInstruction::Wrap),
        (0xA8u8, None) => Some(NumericInstruction::ConvertAndTruncate(IntegerType::I32, FloatType::F32, SignExtension::Signed)),
        (0xA9u8, None) => Some(NumericInstruction::ConvertAndTruncate(IntegerType::I32, FloatType::F32, SignExtension::Unsigned)),
        (0xAAu8, None) => Some(NumericInstruction::ConvertAndTruncate(IntegerType::I32, FloatType::F64, SignExtension::Signed)),
        (0xABu8, None) => Some(NumericInstruction::ConvertAndTruncate(IntegerType::I32, FloatType::F64, SignExtension::Unsigned)),
        (0xAEu8, None) => Some(NumericInstruction::ConvertAndTruncate(IntegerType::I64, FloatType::F32, SignExtension::Signed)),
        (0xAFu8, None) => Some(NumericInstruction::ConvertAndTruncate(IntegerType::I64, FloatType::F32, SignExtension::Unsigned)),
        (0xB0u8, None) => Some(NumericInstruction::ConvertAndTruncate(IntegerType::I64, FloatType::F64, SignExtension::Signed)),
        (0xB1u8, None) => Some(NumericInstruction::ConvertAndTruncate(IntegerType::I64, FloatType::F64, SignExtension::Unsigned)),
        (0xACu8, None) => Some(NumericInstruction::ExtendWithSignExtension(SignExtension::Signed)),
        (0xADu8, None) => Some(NumericInstruction::ExtendWithSignExtension(SignExtension::Unsigned)),
        (0xB2u8, None) => Some(NumericInstruction::Convert(FloatType::F32, IntegerType::I32, SignExtension::Signed)),
        (0xB3u8, None) => Some(NumericInstruction::Convert(FloatType::F32, IntegerType::I32, SignExtension::Unsigned)),
        (0xB4u8, None) => Some(NumericInstruction::Convert(FloatType::F32, IntegerType::I64, SignExtension::Signed)),
        (0xB5u8, None) => Some(NumericInstruction::Convert(FloatType::F32, IntegerType::I64, SignExtension::Unsigned)),
        (0xB7u8, None) => Some(NumericInstruction::Convert(FloatType::F64, IntegerType::I32, SignExtension::Signed)),
        (0xB8u8, None) => Some(NumericInstruction::Convert(FloatType::F64, IntegerType::I32, SignExtension::Unsigned)),
        (0xB9u8, None) => Some(NumericInstruction::Convert(FloatType::F64, IntegerType::I64, SignExtension::Signed)),
        (0xBAu8, None) => Some(NumericInstruction::Convert(FloatType::F64, IntegerType::I64, SignExtension::Unsigned)),
        (0xB6u8, None) => Some(NumericInstruction::Demote),
        (0xBBu8, None) => Some(NumericInstruction::Promote),
        (0xBCu8, None) => Some(NumericInstruction::ReinterpretFloat(IntegerType::I32, FloatType::F32)),
        (0xBDu8, None) => Some(NumericInstruction::ReinterpretFloat(IntegerType::I64, FloatType::F64)),
        (0xBEu8, None) => Some(NumericInstruction::ReinterpretInteger(FloatType::F32, IntegerType::I32)),
        (0xBFu8, None) => Some(NumericInstruction::ReinterpretInteger(FloatType::F64, IntegerType::I64)),
        (0xC0u8, None) => Some(NumericInstruction::ExtendSigned(StorageSize::I32_8)),
        (0xC1u8, None) => Some(NumericInstruction::ExtendSigned(StorageSize::I32_16)),
        (0xC2u8, None) => Some(NumericInstruction::ExtendSigned(StorageSize::I64_8)),
        (0xC3u8, None) => Some(NumericInstruction::ExtendSigned(StorageSize::I64_16)),
        (0xC4u8, None) => Some(NumericInstruction::ExtendSigned(StorageSize::I64_32)),
        (0xFCu8, Some(0u32)) => Some(NumericInstruction::ConvertAndTruncateWithSaturation(IntegerType::I32, FloatType::F32, SignExtension::Signed)),
        (0xFCu8, Some(1u32)) => Some(NumericInstruction::ConvertAndTruncateWithSaturation(IntegerType::I32, FloatType::F32, SignExtension::Unsigned)),
        (0xFCu8, Some(2u32)) => Some(NumericInstruction::ConvertAndTruncateWithSaturation(IntegerType::I32, FloatType::F64, SignExtension::Signed)),
        (0xFCu8, Some(3u32)) => Some(NumericInstruction::ConvertAndTruncateWithSaturation(IntegerType::I32, FloatType::F64, SignExtension::Unsigned)),
        (0xFCu8, Some(4u32)) => Some(NumericInstruction::ConvertAndTruncateWithSaturation(IntegerType::I64, FloatType::F32, SignExtension::Signed)),
        (0xFCu8, Some(5u32)) => Some(NumericInstruction::ConvertAndTruncateWithSaturation(IntegerType::I64, FloatType::F32, SignExtension::Unsigned)),
        (0xFCu8, Some(6u32)) => Some(NumericInstruction::ConvertAndTruncateWithSaturation(IntegerType::I64, FloatType::F64, SignExtension::Signed)),
        (0xFCu8, Some(7u32)) => Some(NumericInstruction::ConvertAndTruncateWithSaturation(IntegerType::I64, FloatType::F64, SignExtension::Unsigned)),
        _ => None,
    }
}

/// Reading back an instruction's opcode gives the instruction.
proof fn lemma_numeric_opcode_reads_back(a: NumericInstruction)
    requires
        numeric_opcode(a) is Some,
    ensures
        numeric_instruction_of(numeric_opcode(a)->0) == Some(a),
{
    match a {
        NumericInstruction::EqualToZero(x) => {
            match x {
                IntegerType::I32 => {},
                IntegerType::I64 => {},
            }
        },
        NumericInstruction::Equal(x) => {
            match x {
                NumberType::I32 => {},
                NumberType::I64 => {},
                NumberType::F32 => {},
                NumberType::F64 => {},
            }
        },
        NumericInstruction::NotEqual(x) => {
            match x {
                NumberType::I32 => {},
                NumberType::I64 => {},
                NumberType::F32 => {},
                NumberType::F64 => {},
            }
        },
        NumericInstruction::LessThanInteger(x, y) => {
            match (x, y) {
                (IntegerType::I32, SignExtension::Signed) => {},
                (IntegerType::I32, SignExtension::Unsigned) => {},
                (IntegerType::I64, SignExtension::Signed) => {},
                (IntegerType::I64, SignExtension::Unsigned) => {},
                _ => {},
            }
        },
        NumericInstruction::GreaterThanInteger(x, y) => {
            match (x, y) {
                (IntegerType::I32, SignExtension::Signed) => {},
                (IntegerType::I32, SignExtension::Unsigned) => {},
                (IntegerType::I64, SignExtension::Signed) => {},
                (IntegerType::I64, SignExtension::Unsigned) => {},
                _ => {},
            }
        },
        NumericInstruction::LessThanOrEqualToInteger(x, y) => {
            match (x, y) {
                (IntegerType::I32, SignExtension::Signed) => {},
                (IntegerType::I32, SignExtension::Unsigned) => {},
                (IntegerType::I64, SignExtension::Signed) => {},
                (IntegerType::I64, SignExtension::Unsigned) => {},
                _ => {},
            }
        },
        NumericInstruction::GreaterThanOrEqualToInteger(x, y) => {
            match (x, y) {
                (IntegerType::I32, SignExtension::Signed) => {},
                (IntegerType::I32, SignExtension::Unsigned) => {},
                (IntegerType::I64, SignExtension::Signed) => {},
                (IntegerType::I64, SignExtension::Unsigned) => {},
                _ => {},
            }
        },
        NumericInstruction::LessThanFloat(x) => {
            match x {
                FloatType::F32 => {},
                FloatType::F64 => {},
            }
        },
        NumericInstruction::GreaterThanFloat(x) => {
            match x {
                FloatType::F32 => {},
                FloatType::F64 => {},
            }
        },
        NumericInstruction::LessThanOrEqualToFloat(x) => {
            match x {
                FloatType::F32 => {},
                FloatType::F64 => {},
            }
        },
        NumericInstruction::GreaterThanOrEqualToFloat(x) => {
            match x {
                FloatType::F32 => {},
                FloatType::F64 => {},
            }
        },
        NumericInstruction::CountLeadingZeros(x) => {
            match x {
                IntegerType::I32 => {},
                IntegerType::I64 => {},
            }
        },
        NumericInstruction::CountTrailingZeros(x) => {
            match x {
                IntegerType::I32 => {},
                IntegerType::I64 => {},
            }
        },
        NumericInstruction::CountOnes(x) => {
            match x {
                IntegerType::I32 => {},
                IntegerType::I64 => {},
            }
        },
        NumericInstruction::Add(x) => {
            match x {
                NumberType::I32 => {},
                NumberType::I64 => {},
                NumberType::F32 => {},
                NumberType::F64 => {},
            }
        },
        NumericInstruction::Subtract(x) => {
            match x {
                NumberType::I32 => {},
                NumberType::I64 => {},
                NumberType::F32 => {},
                NumberType::F64 => {},
            }
        },
        NumericInstruction::Multiply(x) => {
            match x {
                NumberType::I32 => {},
                NumberType::I64 => {},
                NumberType::F32 => {},
                NumberType::F64 => {},
            }
        },
        NumericInstruction::DivideInteger(x, y) => {
            match (x, y) {
                (IntegerType::I32, SignExtension::Signed) => {},
                (IntegerType::I32, SignExtension::Unsigned) => {},
                (IntegerType::I64, SignExtension::Signed) => {},
                (IntegerType::I64, SignExtension::Unsigned) => {},
                _ => {},
            }
        },
        NumericInstruction::Remainder(x, y) => {
            match (x, y) {
                (IntegerType::I32, SignExtension::Signed) => {},
                (IntegerType::I32, SignExtension::Unsigned) => {},
                (IntegerType::I64, SignExtension::Signed) => {},
                (IntegerType::I64, SignExtension::Unsigned) => {},
                _ => {},
            }
        },
        NumericInstruction::And(x) => {
            match x {
                IntegerType::I32 => {},
                IntegerType::I64 => {},
            }
        },
        NumericInstruction::Or(x) => {
            match x {
                IntegerType::I32 => {},
                IntegerType::I64 => {},
            }
        },
        NumericInstruction::Xor(x) => {
            match x {
                IntegerType::I32 => {},
                IntegerType::I64 => {},
            }
        },
        NumericInstruction::ShiftLeft(x) => {
            match x {
                IntegerType::I32 => {},
                IntegerType::I64 => {},
            }
        },
        NumericInstruction::ShiftRight(x, y) => {
            match (x, y) {
                (IntegerType::I32, SignExtension::Signed) => {},
                (IntegerType::I32, SignExtension::Unsigned) => {},
                (IntegerType::I64, SignExtension::Signed) => {},
                (IntegerType::I64, SignExtension::Unsigned) => {},
                _ => {},
            }
        },
        NumericInstruction::RotateLeft(x) => {
            match x {
                IntegerType::I32 => {},
                IntegerType::I64 => {},
            }
        },
        NumericInstruction::RotateRight(x) => {
            match x {
                IntegerType::I32 => {},
                IntegerType::I64 => {},
            }
        },
        NumericInstruction::AbsoluteValue(x) => {
            match x {
                FloatType::F32 => {},
                FloatType::F64 => {},
            }
        },
        NumericInstruction::Negate(x) => {
            match x {
                FloatType::F32 => {},
                FloatType::F64 => {},
            }
        },
        NumericInstruction::Ceiling(x) => {
            match x {
                FloatType::F32 => {},
                FloatType::F64 => {},
            }
        },
        NumericInstruction::Floor(x) => {
            match x {
                FloatType::F32 => {},
                FloatType::F64 => {},
            }
        },
        NumericInstruction::Truncate(x) => {
            match x {
                FloatType::F32 => {},
                FloatType::F64 => {},
            }
        },
        NumericInstruction::Nearest(x) => {
            match x {
                FloatType::F32 => {},
                FloatType::F64 => {},
            }
        },
        NumericInstruction::SquareRoot(x) => {
            match x {
                FloatType::F32 => {},
                FloatType::F64 => {},
            }
        },
        NumericInstruction::DivideFloat(x) => {
            match x {
                FloatType::F32 => {},
                FloatType::F64 => {},
            }
        },
        NumericInstruction::Minimum(x) => {
            match x {
                FloatType::F32 => {},
                FloatType::F64 => {},
            }
        },
        NumericInstruction::Maximum(x) => {
            match x {
                FloatType::F32 => {},
                FloatType::F64 => {},
            }
        },
        NumericInstruction::CopySign(x) => {
            match x {
                FloatType::F32 => {},
                FloatType::F64 => {},
            }
        },
        NumericInstruction::Wrap => {},
        NumericInstruction::ConvertAndTruncate(x, y, z) => {
            match (x, y, z) {
                (IntegerType::I32, FloatType::F32, SignExtension::Signed) => {},
                (IntegerType::I32, FloatType::F32, SignExtension::Unsigned) => {},
                (IntegerType::I32, FloatType::F64, SignExtension::Signed) => {},
                (IntegerType::I32, FloatType::F64, SignExtension::Unsigned) => {},
                (IntegerType::I64, FloatType::F32, SignExtension::Signed) => {},
                (IntegerType::I64, FloatType::F32, SignExtension::Unsigned) => {},
                (IntegerType::I64, FloatType::F64, SignExtension::Signed) => {},
                (IntegerType::I64, FloatType::F64, SignExtension::Unsigned) => {},
                _ => {},
            }
        },
        NumericInstruction::ExtendWithSignExtension(x) => {
            match x {
                SignExtension::Signed => {},
                SignExtension::Unsigned => {},
            }
        },
        NumericInstruction::Convert(x, y, z) => {
            match (x, y, z) {
                (FloatType::F32, IntegerType::I32, SignExtension::Signed) => {},
                (FloatType::F32, IntegerType::I32, SignExtension::Unsigned) => {},
                (FloatType::F32, IntegerType::I64, SignExtension::Signed) => {},
                (FloatType::F32, IntegerType::I64, SignExtension::Unsigned) => {},
                (FloatType::F64, IntegerType::I32, SignExtension::Signed) => {},
                (FloatType::F64, IntegerType::I32, SignExtension::Unsigned) => {},
                (FloatType::F64, IntegerType::I64, SignExtension::Signed) => {},
                (FloatType::F64, IntegerType::I64, SignExtension::Unsigned) => {},
                _ => {},
            }
        },
        NumericInstruction::Demote => {},
        NumericInstruction::Promote => {},
        NumericInstruction::ReinterpretFloat(x, y) => {
            match (x, y) {
                (IntegerType::I32, FloatType::F32) => {},
                (IntegerType::I64, FloatType::F64) => {},
                _ => {},
            }
        },
        NumericInstruction::ReinterpretInteger(x, y) => {
            match (x, y) {
                (FloatType::F32, IntegerType::I32) => {},
                (FloatType::F64, IntegerType::I64) => {},
                _ => {},
            }
        },
        NumericInstruction::ExtendSigned(x) => {
            match x {
                StorageSize::I32_8 => {},
                StorageSize::I32_16 => {},
                StorageSize::I64_8 => {},
                StorageSize::I64_16 => {},
                StorageSize::I64_32 => {},
            }
        },
        NumericInstruction::ConvertAndTruncateWithSaturation(x, y, z) => {
            match (x, y, z) {
                (IntegerType::I32, FloatType::F32, SignExtension::Signed) => {},
                (IntegerType::I32, FloatType::F32, SignExtension::Unsigned) => {},
                (IntegerType::I32, FloatType::F64, SignExtension::Signed) => {},
                (IntegerType::I32, FloatType::F64, SignExtension::Unsigned) => {},
                (IntegerType::I64, FloatType::F32, SignExtension::Signed) => {},
                (IntegerType::I64, FloatType::F32, SignExtension::Unsigned) => {},
                (IntegerType::I64, FloatType::F64, SignExtension::Signed) => {},
                (IntegerType::I64, FloatType::F64, SignExtension::Unsigned) => {},
                _ => {},
            }
        },
        _ => {},
    }
}

/// No two numeric instructions share an opcode: the opcode (and the sub-opcode of the
/// instructions behind the `0xFC` prefix) tells the instruction.
pub proof fn lemma_numeric_opcodes_are_distinct(a: NumericInstruction, b: NumericInstruction)
    requires
        numeric_opcode(a) is Some,
        numeric_opcode(a) == numeric_opcode(b),
    ensures
        a == b,
{
    lemma_numeric_opcode_reads_back(a);
    lemma_numeric_opcode_reads_back(b);
}

/// In each number type, subtraction and multiplication come right after addition in the
/// opcode table: `add`, `sub`, `mul` are three consecutive opcodes without a sub-opcode.
pub proof fn lemma_arithmetic_opcodes_are_consecutive(t: NumberType)
    ensures
        numeric_opcode(NumericInstruction::Add(t)) matches Some((add, None)) && numeric_opcode(
            NumericInstruction::Subtract(t),
        ) == Some(((add + 1) as u8, None::<u32>)) && numeric_opcode(
            NumericInstruction::Multiply(t),
        ) == Some(((add + 2) as u8, None::<u32>)),
{
}

/// The bytes of an opcode.
pub open spec fn opcode_encoding(opcode: (u8, Option<u32>)) -> Seq<u8> {
    match opcode.1 {
        Some(code) => seq![opcode.0] + leb128_unsigned(code as nat),
        None => seq![opcode.0],
    }
}

/// The encoding of a numeric instruction, or `None` where it has none.
pub open spec fn numeric_instruction_encoding(instruction: NumericInstruction) -> Option<Seq<u8>> {
    match instruction {
        NumericInstruction::I32Constant(value) => Some(seq![0x41u8] + leb128_signed(value as int)),
        NumericInstruction::I64Constant(value) => Some(seq![0x42u8] + leb128_signed(value as int)),
        NumericInstruction::F32Constant(bits) => Some(seq![0x43u8] + little_endian(bits as nat, 4)),
        NumericInstruction::F64Constant(bits) => Some(seq![0x44u8] + little_endian(bits as nat, 8)),
        _ => match numeric_opcode(instruction) {
            Some(opcode) => Some(opcode_encoding(opcode)),
            None => None,
        },
    }
}

fn numeric_opcode_of(instruction: &NumericInstruction) -> (r: Option<(u8, Option<u32>)>)
    ensures
        r == numeric_opcode(*instruction),
{
    match instruction {
        NumericInstruction::EqualToZero(a) => match *a {
            IntegerType::I32 => Some((0x45u8, None)),
            IntegerType::I64 => Some((0x50u8, None)),
        },
        NumericInstruction::Equal(a) => match *a {
            NumberType::I32 => Some((0x46u8, None)),
            NumberType::I64 => Some((0x51u8, None)),
            NumberType::F32 => Some((0x5Bu8, None)),
            NumberType::F64 => Some((0x61u8, None)),
        },
        NumericInstruction::NotEqual(a) => match *a {
            NumberType::I32 => Some((0x47u8, None)),
            NumberType::I64 => Some((0x52u8, None)),
            NumberType::F32 => Some((0x5Cu8, None)),
            NumberType::F64 => Some((0x62u8, None)),
        },
        NumericInstruction::LessThanInteger(a, b) => match (*a, *b) {
            (IntegerType::I32, SignExtension::Signed) => Some((0x48u8, None)),
            (IntegerType::I32, SignExtension::Unsigned) => Some((0x49u8, None)),
            (IntegerType::I64, SignExtension::Signed) => Some((0x53u8, None)),
            (IntegerType::I64, SignExtension::Unsigned) => Some((0x54u8, None)),
        },
        NumericInstruction::GreaterThanInteger(a, b) => match (*a, *b) {
            (IntegerType::I32, SignExtension::Signed) => Some((0x4Au8, None)),
            (IntegerType::I32, SignExtension::Unsigned) => Some((0x4Bu8, None)),
            (IntegerType::I64, SignExtension::Signed) => Some((0x55u8, None)),
            (IntegerType::I64, SignExtension::Unsigned) => Some((0x56u8, None)),
        },
        NumericInstruction::LessThanOrEqualToInteger(a, b) => match (*a, *b) {
            (IntegerType::I32, SignExtension::Signed) => Some((0x4Cu8, None)),
            (IntegerType::I32, SignExtension::Unsigned) => Some((0x4Du8, None)),
            (IntegerType::I64, SignExtension::Signed) => Some((0x57u8, None)),
            (IntegerType::I64, SignExtension::Unsigned) => Some((0x58u8, None)),
        },
        NumericInstruction::GreaterThanOrEqualToInteger(a, b) => match (*a, *b) {
            (IntegerType::I32, SignExtension::Signed) => Some((0x4Eu8, None)),
            (IntegerType::I32, SignExtension::Unsigned) => Some((0x4Fu8, None)),
            (IntegerType::I64, SignExtension::Signed) => Some((0x59u8, None)),
            (IntegerType::I64, SignExtension::Unsigned) => Some((0x5Au8, None)),
        },
        NumericInstruction::LessThanFloat(a) => match *a {
            FloatType::F32 => Some((0x5Du8, None)),
            FloatType::F64 => Some((0x63u8, None)),
        },
        NumericInstruction::GreaterThanFloat(a) => match *a {
            FloatType::F32 => Some((0x5Eu8, None)),
            FloatType::F64 => Some((0x64u8, None)),
        },
        NumericInstruction::LessThanOrEqualToFloat(a) => match *a {
            FloatType::F32 => Some((0x5Fu8, None)),
            FloatType::F64 => Some((0x65u8, None)),
        },
        NumericInstruction::GreaterThanOrEqualToFloat(a) => match *a {
            FloatType::F32 => Some((0x60u8, None)),
            FloatType::F64 => Some((0x66u8, None)),
        },
        NumericInstruction::CountLeadingZeros(a) => match *a {
            IntegerType::I32 => Some((0x67u8, None)),
            IntegerType::I64 => Some((0x79u8, None)),
        },
        NumericInstruction::CountTrailingZeros(a) => match *a {
            IntegerType::I32 => Some((0x68u8, None)),
            IntegerType::I64 => Some((0x7Au8, None)),
        },
        NumericInstruction::CountOnes(a) => match *a {
            IntegerType::I32 => Some((0x69u8, None)),
            IntegerType::I64 => Some((0x7Bu8, None)),
        },
        NumericInstruction::Add(a) => match *a {
            NumberType::I32 => Some((0x6Au8, None)),
            NumberType::I64 => Some((0x7Cu8, None)),
            NumberType::F32 => Some((0x92u8, None)),
            NumberType::F64 => Some((0xA0u8, None)),
        },
        NumericInstruction::Subtract(a) => match *a {
            NumberType::I32 => Some((0x6Bu8, None)),
            NumberType::I64 => Some((0x7Du8, None)),
            NumberType::F32 => Some((0x93u8, None)),
            NumberType::F64 => Some((0xA1u8, None)),
        },
        NumericInstruction::Multiply(a) => match *a {
            NumberType::I32 => Some((0x6Cu8, None)),
            NumberType::I64 => Some((0x7Eu8, None)),
            NumberType::F32 => Some((0x94u8, None)),
            NumberType::F64 => Some((0xA2u8, None)),
        },
        NumericInstruction::DivideInteger(a, b) => match (*a, *b) {
            (IntegerType::I32, SignExtension::Signed) => Some((0x6Du8, None)),
            (IntegerType::I32, SignExtension::Unsigned) => Some((0x6Eu8, None)),
            (IntegerType::I64, SignExtension::Signed) => Some((0x7Fu8, None)),
            (IntegerType::I64, SignExtension::Unsigned) => Some((0x80u8, None)),
        },
        NumericInstruction::Remainder(a, b) => match (*a, *b) {
            (IntegerType::I32, SignExtension::Signed) => Some((0x6Fu8, None)),
            (IntegerType::I32, SignExtension::Unsigned) => Some((0x70u8, None)),
            (IntegerType::I64, SignExtension::Signed) => Some((0x81u8, None)),
            (IntegerType::I64, SignExtension::Unsigned) => Some((0x82u8, None)),
        },
        NumericInstruction::And(a) => match *a {
            IntegerType::I32 => Some((0x71u8, None)),
            IntegerType::I64 => Some((0x83u8, None)),
        },
        NumericInstruction::Or(a) => match *a {
            IntegerType::I32 => Some((0x72u8, None)),
            IntegerType::I64 => Some((0x84u8, None)),
        },
        NumericInstruction::Xor(a) => match *a {
            IntegerType::I32 => Some((0x73u8, None)),
            IntegerType::I64 => Some((0x85u8, None)),
        },
        NumericInstruction::ShiftLeft(a) => match *a {
            IntegerType::I32 => Some((0x74u8, None)),
            IntegerType::I64 => Some((0x86u8, None)),
        },
        NumericInstruction::ShiftRight(a, b) => match (*a, *b) {
            (IntegerType::I32, SignExtension::Signed) => Some((0x75u8, None)),
            (IntegerType::I32, SignExtension::Unsigned) => Some((0x76u8, None)),
            (IntegerType::I64, SignExtension::Signed) => Some((0x87u8, None)),
            (IntegerType::I64, SignExtension::Unsigned) => Some((0x88u8, None)),
        },
        NumericInstruction::RotateLeft(a) => match *a {
            IntegerType::I32 => Some((0x77u8, None)),
            IntegerType::I64 => Some((0x89u8, None)),
        },
        NumericInstruction::RotateRight(a) => match *a {
            IntegerType::I32 => Some((0x78u8, None)),
            IntegerType::I64 => Some((0x8Au8, None)),
        },
        NumericInstruction::AbsoluteValue(a) => match *a {
            FloatType::F32 => Some((0x8Bu8, None)),
            FloatType::F64 => Some((0x99u8, None)),
        },
        NumericInstruction::Negate(a) => match *a {
            FloatType::F32 => Some((0x8Cu8, None)),
            FloatType::F64 => Some((0x9Au8, None)),
        },
        NumericInstruction::Ceiling(a) => match *a {
            FloatType::F32 => Some((0x8Du8, None)),
            FloatType::F64 => Some((0x9Bu8, None)),
        },
        NumericInstruction::Floor(a) => match *a {
            FloatType::F32 => Some((0x8Eu8, None)),
            FloatType::F64 => Some((0x9Cu8, None)),
        },
        NumericInstruction::Truncate(a) => match *a {
            FloatType::F32 => Some((0x8Fu8, None)),
            FloatType::F64 => Some((0x9Du8, None)),
        },
        NumericInstruction::Nearest(a) => match *a {
            FloatType::F32 => Some((0x90u8, None)),
            FloatType::F64 => Some((0x9Eu8, None)),
        },
        NumericInstruction::SquareRoot(a) => match *a {
            FloatType::F32 => Some((0x91u8, None)),
            FloatType::F64 => Some((0x9Fu8, None)),
        },
        NumericInstruction::DivideFloat(a) => match *a {
            FloatType::F32 => Some((0x95u8, None)),
            FloatType::F64 => Some((0xA3u8, None)),
        },
        NumericInstruction::Minimum(a) => match *a {
            FloatType::F32 => Some((0x96u8, None)),
            FloatType::F64 => Some((0xA4u8, None)),
        },
        NumericInstruction::Maximum(a) => match *a {
            FloatType::F32 => Some((0x97u8, None)),
            FloatType::F64 => Some((0xA5u8, None)),
        },
        NumericInstruction::CopySign(a) => match *a {
            FloatType::F32 => Some((0x98u8, None)),
            FloatType::F64 => Some((0xA6u8, None)),
        },
        NumericInstruction::Wrap => Some((0xA7u8, None)),
        NumericInstruction::ConvertAndTruncate(a, b, c) => match (*a, *b, *c) {
            (IntegerType::I32, FloatType::F32, SignExtension::Signed) => Some((0xA8u8, None)),
            (IntegerType::I32, FloatType::F32, SignExtension::Unsigned) => Some((0xA9u8, None)),
            (IntegerType::I32, FloatType::F64, SignExtension::Signed) => Some((0xAAu8, None)),
            (IntegerType::I32, FloatType::F64, SignExtension::Unsigned) => Some((0xABu8, None)),
            (IntegerType::I64, FloatType::F32, SignExtension::Signed) => Some((0xAEu8, None)),
            (IntegerType::I64, FloatType::F32, SignExtension::Unsigned) => Some((0xAFu8, None)),
            (IntegerType::I64, FloatType::F64, SignExtension::Signed) => Some((0xB0u8, None)),
            (IntegerType::I64, FloatType::F64, SignExtension::Unsigned) => Some((0xB1u8, None)),
        },
        NumericInstruction::ExtendWithSignExtension(a) => match *a {
            SignExtension::Signed => Some((0xACu8, None)),
            SignExtension::Unsigned => Some((0xADu8, None)),
        },
        NumericInstruction::Convert(a, b, c) => match (*a, *b, *c) {
            (FloatType::F32, IntegerType::I32, SignExtension::Signed) => Some((0xB2u8, None)),
            (FloatType::F32, IntegerType::I32, SignExtension::Unsigned) => Some((0xB3u8, None)),
            (FloatType::F32, IntegerType::I64, SignExtension::Signed) => Some((0xB4u8, None)),
            (FloatType::F32, IntegerType::I64, SignExtension::Unsigned) => Some((0xB5u8, None)),
            (FloatType::F64, IntegerType::I32, SignExtension::Signed) => Some((0xB7u8, None)),
            (FloatType::F64, IntegerType::I32, SignExtension::Unsigned) => Some((0xB8u8, None)),
            (FloatType::F64, IntegerType::I64, SignExtension::Signed) => Some((0xB9u8, None)),
            (FloatType::F64, IntegerType::I64, SignExtension::Unsigned) => Some((0xBAu8, None)),
        },
        NumericInstruction::Demote => Some((0xB6u8, None)),
        NumericInstruction::Promote => Some((0xBBu8, None)),
        NumericInstruction::ReinterpretFloat(a, b) => match (*a, *b) {
            (IntegerType::I32, FloatType::F32) => Some((0xBCu8, None)),
            (IntegerType::I64, FloatType::F64) => Some((0xBDu8, None)),
            _ => None,
        },
        NumericInstruction::ReinterpretInteger(a, b) => match (*a, *b) {
            (FloatType::F32, IntegerType::I32) => Some((0xBEu8, None)),
            (FloatType::F64, IntegerType::I64) => Some((0xBFu8, None)),
            _ => None,
        },
        NumericInstruction::ExtendSigned(a) => match *a {
            StorageSize::I32_8 => Some((0xC0u8, None)),
            StorageSize::I32_16 => Some((0xC1u8, None)),
            StorageSize::I64_8 => Some((0xC2u8, None)),
            StorageSize::I64_16 => Some((0xC3u8, None)),
            StorageSize::I64_32 => Some((0xC4u8, None)),
        },
        NumericInstruction::ConvertAndTruncateWithSaturation(a, b, c) => match (*a, *b, *c) {
            (IntegerType::I32, FloatType::F32, SignExtension::Signed) => Some((0xFCu8, Some(0u32))),
            (IntegerType::I32, FloatType::F32, SignExtension::Unsigned) => Some((0xFCu8, Some(1u32))),
            (IntegerType::I32, FloatType::F64, SignExtension::Signed) => Some((0xFCu8, Some(2u32))),
            (IntegerType::I32, FloatType::F64, SignExtension::Unsigned) => Some((0xFCu8, Some(3u32))),
            (IntegerType::I64, FloatType::F32, SignExtension::Signed) => Some((0xFCu8, Some(4u32))),
            (IntegerType::I64, FloatType::F32, SignExtension::Unsigned) => Some((0xFCu8, Some(5u32))),
            (IntegerType::I64, FloatType::F64, SignExtension::Signed) => Some((0xFCu8, Some(6u32))),
            (IntegerType::I64, FloatType::F64, SignExtension::Unsigned) => Some((0xFCu8, Some(7u32))),
        },
        _ => None,
    }
}

/// Emits a numeric instruction. An instruction that has no encoding is a syntax error, and
/// then nothing is written.
pub fn emit_numeric_instruction(instruction: &NumericInstruction, output: &mut Vec<u8>) -> (r:
    Result<usize, CompilerError>)
    ensures
        match numeric_instruction_encoding(*instruction) {
            Some(bytes) => {
                &&& final(output)@ == old(output)@ + bytes
                &&& r matches Ok(n) && n == bytes.len()
            },
            None => {
                &&& final(output)@ == old(output)@
                &&& r == Err::<usize, CompilerError>(CompilerError::InvalidSyntax)
            },
        },
{
    let start = output.len();
    match instruction {
        NumericInstruction::I32Constant(value) => {
            emit_byte(0x41u8, output);
            emit_i32(*value, output);
        },
        NumericInstruction::I64Constant(value) => {
            emit_byte(0x42u8, output);
            emit_i64(*value, output);
        },
        NumericInstruction::F32Constant(bits) => {
            emit_byte(0x43u8, output);
            emit_f32(*bits, output);
        },
        NumericInstruction::F64Constant(bits) => {
            emit_byte(0x44u8, output);
            emit_f64(*bits, output);
        },
        _ => match numeric_opcode_of(instruction) {
            Some((first, None)) => {
                emit_byte(first, output);
            },
            Some((first, Some(code))) => {
                emit_byte(first, output);
                emit_u32(code, output);
            },
            None => {
                return Err(CompilerError::InvalidSyntax);
            },
        },
    }
    assert(output@ =~= old(output)@ + numeric_instruction_encoding(*instruction)->0);
    Ok(output.len() - start)
}

/// A reference instruction: `ref.null` with its type, `ref.is_null`, or `ref.func` with a
/// function index.
pub open spec fn reference_instruction_encoding(instruction: ReferenceInstruction) -> Seq<u8> {
    match instruction {
        ReferenceInstruction::ReferenceNull(kind) => seq![0xD0u8, reference_type_byte(kind)],
        ReferenceInstruction::ReferenceIsNull => seq![0xD1u8],
        ReferenceInstruction::ReferenceFunction(index) => seq![0xD2u8] + leb128_unsigned(
            index as nat,
        ),
    }
}

/// A parametric instruction: `drop`, or `select` with or without its vector of value types.
pub open spec fn parametric_instruction_encoding(instruction: ParametricInstruction) -> Seq<u8> {
    match instruction {
        ParametricInstruction::Drop => seq![0x1Au8],
        ParametricInstruction::Select(Some(kinds)) => seq![0x1Cu8] + vector_encoding(
            kinds@,
            |k: ValueType| value_type_encoding(k),
        ),
        ParametricInstruction::Select(None) => seq![0x1Bu8],
    }
}

/// A variable instruction: its opcode and the index of the local or global.
pub open spec fn variable_instruction_encoding(instruction: VariableInstruction) -> Seq<u8> {
    match instruction {
        VariableInstruction::LocalGet(index) => seq![0x20u8] + leb128_unsigned(index as nat),
        VariableInstruction::LocalSet(index) => seq![0x21u8] + leb128_unsigned(index as nat),
        VariableInstruction::LocalTee(index) => seq![0x22u8] + leb128_unsigned(index as nat),
        VariableInstruction::GlobalGet(index) => seq![0x23u8] + leb128_unsigned(index as nat),
        VariableInstruction::GlobalSet(index) => seq![0x24u8] + leb128_unsigned(index as nat),
    }
}

/// The prefix of an instruction written as `0xFC` followed by a number.
pub open spec fn prefixed(code: nat) -> Seq<u8> {
    seq![0xFCu8] + leb128_unsigned(code)
}

/// A table instruction: its opcode, then its element and table indices.
pub open spec fn table_instruction_encoding(instruction: TableInstruction) -> Seq<u8> {
    match instruction {
        TableInstruction::TableGet(index) => seq![0x25u8] + leb128_unsigned(index as nat),
        TableInstruction::TableSet(index) => seq![0x26u8] + leb128_unsigned(index as nat),
        TableInstruction::TableInit(element, table) => prefixed(12) + leb128_unsigned(
            element as nat,
        ) + leb128_unsigned(table as nat),
        TableInstruction::ElementDrop(index) => prefixed(13) + leb128_unsigned(index as nat),
        TableInstruction::TableCopy(a, b) => prefixed(14) + leb128_unsigned(a as nat)
            + leb128_unsigned(b as nat),
        TableInstruction::TableGrow(index) => prefixed(15) + leb128_unsigned(index as nat),
        TableInstruction::TableSize(index) => prefixed(16) + leb128_unsigned(index as nat),
        TableInstruction::TableFill(index) => prefixed(17) + leb128_unsigned(index as nat),
    }
}

/// A memory argument: its alignment, then its offset.
pub open spec fn memory_argument_encoding(argument: MemoryArgument) -> Seq<u8> {
    leb128_unsigned(argument.align as nat) + leb128_unsigned(argument.offset as nat)
}

/// The opcode of a load or store.
pub open spec fn memory_access_opcode(instruction: MemoryInstruction) -> u8 {
    match instruction {
        MemoryInstruction::Load(NumberType::I32, _) => 0x28,
        MemoryInstruction::Load(NumberType::I64, _) => 0x29,
        MemoryInstruction::Load(NumberType::F32, _) => 0x2A,
        MemoryInstruction::Load(NumberType::F64, _) => 0x2B,
        MemoryInstruction::LoadPartial(StorageSize::I32_8, SignExtension::Signed, _) => 0x2C,
        MemoryInstruction::LoadPartial(StorageSize::I32_8, SignExtension::Unsigned, _) => 0x2D,
        MemoryInstruction::LoadPartial(StorageSize::I32_16, SignExtension::Signed, _) => 0x2E,
        MemoryInstruction::LoadPartial(StorageSize::I32_16, SignExtension::Unsigned, _) => 0x2F,
        MemoryInstruction::LoadPartial(StorageSize::I64_8, SignExtension::Signed, _) => 0x30,
        MemoryInstruction::LoadPartial(StorageSize::I64_8, SignExtension::Unsigned, _) => 0x31,
        MemoryInstruction::LoadPartial(StorageSize::I64_16, SignExtension::Signed, _) => 0x32,
        MemoryInstruction::LoadPartial(StorageSize::I64_16, SignExtension::Unsigned, _) => 0x33,
        MemoryInstruction::LoadPartial(StorageSize::I64_32, SignExtension::Signed, _) => 0x34,
        MemoryInstruction::LoadPartial(StorageSize::I64_32, SignExtension::Unsigned, _) => 0x35,
        MemoryInstruction::Store(NumberType::I32, _) => 0x36,
        MemoryInstruction::Store(NumberType::I64, _) => 0x37,
        MemoryInstruction::Store(NumberType::F32, _) => 0x38,
        MemoryInstruction::Store(NumberType::F64, _) => 0x39,
        MemoryInstruction::StorePartial(StorageSize::I32_8, _) => 0x3A,
        MemoryInstruction::StorePartial(StorageSize::I32_16, _) => 0x3B,
        MemoryInstruction::StorePartial(StorageSize::I64_8, _) => 0x3C,
        MemoryInstruction::StorePartial(StorageSize::I64_16, _) => 0x3D,
        MemoryInstruction::StorePartial(StorageSize::I64_32, _) => 0x3E,
        _ => 0x00,
    }
}

/// A memory instruction: a load or store with its memory argument, or one of the bulk
/// operations on memory 0.
pub open spec fn memory_instruction_encoding(instruction: MemoryInstruction) -> Seq<u8> {
    match instruction {
        MemoryInstruction::Load(_, argument) => seq![memory_access_opcode(instruction)]
            + memory_argument_encoding(argument),
        MemoryInstruction::LoadPartial(_, _, argument) => seq![memory_access_opcode(instruction)]
            + memory_argument_encoding(argument),
        MemoryInstruction::Store(_, argument) => seq![memory_access_opcode(instruction)]
            + memory_argument_encoding(argument),
        MemoryInstruction::StorePartial(_, argument) => seq![memory_access_opcode(instruction)]
            + memory_argument_encoding(argument),
        MemoryInstruction::MemorySize => seq![0x3Fu8, 0x00u8],
        MemoryInstruction::MemoryGrow => seq![0x40u8, 0x00u8],
        MemoryInstruction::MemoryInit(index) => prefixed(8) + leb128_unsigned(index as nat) + seq![
            0x00u8,
        ],
        MemoryInstruction::DataDrop(index) => prefixed(9) + leb128_unsigned(index as nat),
        MemoryInstruction::MemoryCopy => prefixed(10) + seq![0x00u8, 0x00u8],
        MemoryInstruction::MemoryFill => prefixed(11) + seq![0x00u8],
    }
}

/// A block type: a type index as a signed integer, a single value type, or `0x40` for none.
pub open spec fn block_type_encoding(kind: BlockType) -> Seq<u8> {
    match kind {
        BlockType::Index(index) => leb128_signed((index as i64) as int),
        BlockType::ValueType(value) => seq![value_type_byte(value)],
        BlockType::Empty => seq![0x40u8],
    }
}

/// Emits a reference instruction.
pub fn emit_reference_instruction(instruction: &ReferenceInstruction, output: &mut Vec<u8>) -> (r:
    usize)
    ensures
        final(output)@ == old(output)@ + reference_instruction_encoding(*instruction),
        r == reference_instruction_encoding(*instruction).len(),
{
    let start = output.len();
    match instruction {
        ReferenceInstruction::ReferenceNull(kind) => {
            emit_byte(0xD0u8, output);
            emit_reference_type(kind, output);
        },
        ReferenceInstruction::ReferenceIsNull => {
            emit_byte(0xD1u8, output);
        },
        ReferenceInstruction::ReferenceFunction(index) => {
            emit_byte(0xD2u8, output);
            emit_usize(*index, output);
        },
    }
    assert(output@ =~= old(output)@ + reference_instruction_encoding(*instruction));
    output.len() - start
}

/// Emits a parametric instruction.
pub fn emit_parametric_instruction(instruction: &ParametricInstruction, output: &mut Vec<u8>) -> (r:
    usize)
    ensures
        final(output)@ == old(output)@ + parametric_instruction_encoding(*instruction),
        r == parametric_instruction_encoding(*instruction).len(),
{
    let start = output.len();
    match instruction {
        ParametricInstruction::Drop => {
            emit_byte(0x1Au8, output);
        },
        ParametricInstruction::Select(Some(kinds)) => {
            emit_byte(0x1Cu8, output);
            emit_value_types(kinds.as_slice(), output);
        },
        ParametricInstruction::Select(None) => {
            emit_byte(0x1Bu8, output);
        },
    }
    assert(output@ =~= old(output)@ + parametric_instruction_encoding(*instruction));
    output.len() - start
}

/// Emits a variable instruction.
pub fn emit_variable_instruction(instruction: &VariableInstruction, output: &mut Vec<u8>) -> (r:
    usize)
    ensures
        final(output)@ == old(output)@ + variable_instruction_encoding(*instruction),
        r == variable_instruction_encoding(*instruction).len(),
{
    let start = output.len();
    let (opcode, index): (u8, usize) = match instruction {
        VariableInstruction::LocalGet(index) => (0x20, *index),
        VariableInstruction::LocalSet(index) => (0x21, *index),
        VariableInstruction::LocalTee(index) => (0x22, *index),
        VariableInstruction::GlobalGet(index) => (0x23, *index),
        VariableInstruction::GlobalSet(index) => (0x24, *index),
    };
    emit_byte(opcode, output);
    emit_usize(index, output);
    assert(output@ =~= old(output)@ + variable_instruction_encoding(*instruction));
    output.len() - start
}

fn emit_prefixed(code: u32, output: &mut Vec<u8>)
    ensures
        final(output)@ == old(output)@ + prefixed(code as nat),
{
    emit_byte(0xFCu8, output);
    emit_u32(code, output);
    assert(output@ =~= old(output)@ + prefixed(code as nat));
}

/// Emits a table instruction.
pub fn emit_table_instruction(instruction: &TableInstruction, output: &mut Vec<u8>) -> (r: usize)
    ensures
        final(output)@ == old(output)@ + table_instruction_encoding(*instruction),
        r == table_instruction_encoding(*instruction).len(),
{
    let start = output.len();
    match instruction {
        TableInstruction::TableGet(index) => {
            emit_byte(0x25u8, output);
            emit_usize(*index, output);
        },
        TableInstruction::TableSet(index) => {
            emit_byte(0x26u8, output);
            emit_usize(*index, output);
        },
        TableInstruction::TableInit(element, table) => {
            emit_prefixed(12, output);
            emit_usize(*element, output);
            emit_usize(*table, output);
        },
        TableInstruction::ElementDrop(index) => {
            emit_prefixed(13, output);
            emit_usize(*index, output);
        },
        TableInstruction::TableCopy(a, b) => {
            emit_prefixed(14, output);
            emit_usize(*a, output);
            emit_usize(*b, output);
        },
        TableInstruction::TableGrow(index) => {
            emit_prefixed(15, output);
            emit_usize(*index, output);
        },
        TableInstruction::TableSize(index) => {
            emit_prefixed(16, output);
            emit_usize(*index, output);
        },
        TableInstruction::TableFill(index) => {
            emit_prefixed(17, output);
            emit_usize(*index, output);
        },
    }
    assert(output@ =~= old(output)@ + table_instruction_encoding(*instruction));
    output.len() - start
}

/// Emits a memory argument.
pub fn emit_memory_argument(argument: &MemoryArgument, output: &mut Vec<u8>) -> (r: usize)
    ensures
        final(output)@ == old(output)@ + memory_argument_encoding(*argument),
        r == memory_argument_encoding(*argument).len(),
{
    let start = output.len();
    emit_usize(argument.align, output);
    emit_usize(argument.offset, output);
    assert(output@ =~= old(output)@ + memory_argument_encoding(*argument));
    output.len() - start
}

fn memory_access_opcode_of(instruction: &MemoryInstruction) -> (r: u8)
    ensures
        r == memory_access_opcode(*instruction),
{
    match instruction {
        MemoryInstruction::Load(kind, _) => match kind {
            NumberType::I32 => 0x28,
            NumberType::I64 => 0x29,
            NumberType::F32 => 0x2A,
            NumberType::F64 => 0x2B,
        },
        MemoryInstruction::LoadPartial(size, extension, _) => match (*size, *extension) {
            (StorageSize::I32_8, SignExtension::Signed) => 0x2C,
            (StorageSize::I32_8, SignExtension::Unsigned) => 0x2D,
            (StorageSize::I32_16, SignExtension::Signed) => 0x2E,
            (StorageSize::I32_16, SignExtension::Unsigned) => 0x2F,
            (StorageSize::I64_8, SignExtension::Signed) => 0x30,
            (StorageSize::I64_8, SignExtension::Unsigned) => 0x31,
            (StorageSize::I64_16, SignExtension::Signed) => 0x32,
            (StorageSize::I64_16, SignExtension::Unsigned) => 0x33,
            (StorageSize::I64_32, SignExtension::Signed) => 0x34,
            (StorageSize::I64_32, SignExtension::Unsigned) => 0x35,
        },
        MemoryInstruction::Store(kind, _) => match kind {
            NumberType::I32 => 0x36,
            NumberType::I64 => 0x37,
            NumberType::F32 => 0x38,
            NumberType::F64 => 0x39,
        },
        MemoryInstruction::StorePartial(size, _) => match size {
            StorageSize::I32_8 => 0x3A,
            StorageSize::I32_16 => 0x3B,
            StorageSize::I64_8 => 0x3C,
            StorageSize::I64_16 => 0x3D,
            StorageSize::I64_32 => 0x3E,
        },
        _ => 0x00,
    }
}

/// Emits a memory instruction.
pub fn emit_memory_instruction(instruction: &MemoryInstruction, output: &mut Vec<u8>) -> (r: usize)
    ensures
        final(output)@ == old(output)@ + memory_instruction_encoding(*instruction),
        r == memory_instruction_encoding(*instruction).len(),
{
    let start = output.len();
    match instruction {
        MemoryInstruction::Load(_, argument)
        | MemoryInstruction::LoadPartial(_, _, argument)
        | MemoryInstruction::Store(_, argument)
        | MemoryInstruction::StorePartial(_, argument) => {
            emit_byte(memory_access_opcode_of(instruction), output);
            emit_memory_argument(argument, output);
        },
        MemoryInstruction::MemorySize => {
            emit_byte(0x3Fu8, output);
            emit_byte(0x00u8, output);
        },
        MemoryInstruction::MemoryGrow => {
            emit_byte(0x40u8, output);
            emit_byte(0x00u8, output);
        },
        MemoryInstruction::MemoryInit(index) => {
            emit_prefixed(8, output);
            emit_usize(*index, output);
            emit_byte(0x00u8, output);
        },
        MemoryInstruction::DataDrop(index) => {
            emit_prefixed(9, output);
            emit_usize(*index, output);
        },
        MemoryInstruction::MemoryCopy => {
            emit_prefixed(10, output);
            emit_byte(0x00u8, output);
            emit_byte(0x00u8, output);
        },
        MemoryInstruction::MemoryFill => {
            emit_prefixed(11, output);
            emit_byte(0x00u8, output);
        },
    }
    assert(output@ =~= old(output)@ + memory_instruction_encoding(*instruction));
    output.len() - start
}

/// Emits a block type.
pub fn emit_block_type(kind: &BlockType, output: &mut Vec<u8>) -> (r: usize)
    ensures
        final(output)@ == old(output)@ + block_type_encoding(*kind),
        r == block_type_encoding(*kind).len(),
{
    let start = output.len();
    match kind {
        BlockType::Index(index) => {
            emit_i64(*index as i64, output);
        },
        BlockType::ValueType(value) => {
            emit_value_type(value, output);
        },
        BlockType::Empty => {
            emit_byte(0x40u8, output);
        },
    }
    assert(output@ =~= old(output)@ + block_type_encoding(*kind));
    output.len() - start
}

/// Appends two optional encodings; `None` where either is.
pub open spec fn followed_by(first: Option<Seq<u8>>, second: Option<Seq<u8>>) -> Option<Seq<u8>> {
    match (first, second) {
        (Some(a), Some(b)) => Some(a + b),
        _ => None,
    }
}

/// The encoding of an instruction, or `None` where it contains a numeric instruction that has
/// none.
pub open spec fn instruction_encoding(instruction: Instruction) -> Option<Seq<u8>>
    decreases instruction,
{
    match instruction {
        Instruction::Numeric(i) => numeric_instruction_encoding(i),
        Instruction::Reference(i) => Some(reference_instruction_encoding(i)),
        Instruction::Parametric(i) => Some(parametric_instruction_encoding(i)),
        Instruction::Variable(i) => Some(variable_instruction_encoding(i)),
        Instruction::Table(i) => Some(table_instruction_encoding(i)),
        Instruction::Memory(i) => Some(memory_instruction_encoding(i)),
        Instruction::Control(i) => control_instruction_encoding(i),
    }
}

/// The encodings of a sequence of instructions, one after the other.
pub open spec fn instructions_encoding(instructions: Seq<Instruction>) -> Option<Seq<u8>>
    decreases instructions,
{
    if instructions.len() == 0 {
        Some(Seq::empty())
    } else {
        followed_by(
            instructions_encoding(instructions.drop_last()),
            instruction_encoding(instructions.last()),
        )
    }
}

/// The instructions of an expression followed by `terminator`.
pub open spec fn terminated_encoding(expression: Expression, terminator: u8) -> Option<Seq<u8>>
    decreases expression,
{
    followed_by(instructions_encoding(expression.instructions@), Some(seq![terminator]))
}

/// An expression: its instructions, then `0x0B` (`end`).
pub open spec fn expression_encoding(expression: Expression) -> Option<Seq<u8>> {
    terminated_encoding(expression, 0x0B)
}

/// A control instruction. A block, a loop and an `if` carry their block type and body; an
/// `if` with an `else` branch ends its first branch with `0x05` (`else`) and its second with
/// `0x0B` (`end`).
pub open spec fn control_instruction_encoding(instruction: ControlInstruction) -> Option<Seq<u8>>
    decreases instruction,
{
    match instruction {
        ControlInstruction::Unreachable => Some(seq![0x00u8]),
        ControlInstruction::Nop => Some(seq![0x01u8]),
        ControlInstruction::Block(kind, body) => followed_by(
            Some(seq![0x02u8] + block_type_encoding(kind)),
            terminated_encoding(body, 0x0B),
        ),
        ControlInstruction::Loop(kind, body) => followed_by(
            Some(seq![0x03u8] + block_type_encoding(kind)),
            terminated_encoding(body, 0x0B),
        ),
        ControlInstruction::If(kind, positive, None) => followed_by(
            Some(seq![0x04u8] + block_type_encoding(kind)),
            terminated_encoding(positive, 0x0B),
        ),
        ControlInstruction::If(kind, positive, Some(negative)) => followed_by(
            followed_by(
                Some(seq![0x04u8] + block_type_encoding(kind)),
                terminated_encoding(positive, 0x05),
            ),
            terminated_encoding(negative, 0x0B),
        ),
        ControlInstruction::Branch(index) => Some(seq![0x0Cu8] + leb128_unsigned(index as nat)),
        ControlInstruction::BranchIf(index) => Some(seq![0x0Du8] + leb128_unsigned(index as nat)),
        ControlInstruction::BranchTable(indices, index) => Some(
            seq![0x0Eu8] + vector_encoding(indices@, |i: usize| leb128_unsigned(i as nat))
                + leb128_unsigned(index as nat),
        ),
        ControlInstruction::Return => Some(seq![0x0Fu8]),
        ControlInstruction::Call(index) => Some(seq![0x10u8] + leb128_unsigned(index as nat)),
        ControlInstruction::CallIndirect(table, kind) => Some(
            seq![0x11u8] + leb128_unsigned(kind as nat) + leb128_unsigned(table as nat),
        ),
    }
}

/// What an emitter leaves behind: where there is an encoding, the output with the encoding
/// appended and its length; where there is none, a syntax error, with what was written before
/// the failing instruction kept.
pub open spec fn emitted(
    before: Seq<u8>,
    after: Seq<u8>,
    r: Result<usize, CompilerError>,
    encoding: Option<Seq<u8>>,
) -> bool {
    match encoding {
        Some(bytes) => {
            &&& after == before + bytes
            &&& r matches Ok(n) && n == bytes.len()
        },
        None => {
            &&& r == Err::<usize, CompilerError>(CompilerError::InvalidSyntax)
            &&& before.is_prefix_of(after)
        },
    }
}

proof fn lemma_instructions_failure_extends(s: Seq<Instruction>, k: int)
    requires
        0 <= k <= s.len(),
        instructions_encoding(s.take(k)) is None,
    ensures
        instructions_encoding(s) is None,
    decreases s.len() - k,
{
    if k < s.len() {
        assert(s.take(k + 1).drop_last() =~= s.take(k));
        lemma_instructions_failure_extends(s, k + 1);
    } else {
        assert(s.take(k) =~= s);
    }
}

/// Emits a vector of indices.
pub(crate) fn emit_indices(indices: &[usize], output: &mut Vec<u8>) -> (r: usize)
    ensures
        final(output)@ == old(output)@ + vector_encoding(indices@, |i: usize| leb128_unsigned(i as nat)),
        r == vector_encoding(indices@, |i: usize| leb128_unsigned(i as nat)).len(),
{
    let ghost f = |i: usize| leb128_unsigned(i as nat);
    let start = output.len();
    emit_usize(indices.len(), output);
    let ghost prefix = output@;
    let mut i: usize = 0;
    while i < indices.len()
        invariant
            i <= indices@.len(),
            f == (|i: usize| leb128_unsigned(i as nat)),
            output@ == prefix + concat(indices@.take(i as int), f),
        decreases indices.len() - i,
    {
        emit_usize(indices[i], output);
        proof {
            lemma_concat_step(indices@, i as int, f);
        }
        i = i + 1;
    }
    proof {
        lemma_concat_all(indices@, f);
    }
    assert(output@ =~= old(output)@ + vector_encoding(indices@, f));
    output.len() - start
}

/// Emits an instruction.
pub fn emit_instruction(instruction: &Instruction, output: &mut Vec<u8>) -> (r: Result<
    usize,
    CompilerError,
>)
    ensures
        emitted(old(output)@, final(output)@, r, instruction_encoding(*instruction)),
    decreases instruction, 0nat,
{
    match instruction {
        Instruction::Numeric(i) => {
            let r = emit_numeric_instruction(i, output);
            assert(old(output)@.is_prefix_of(output@)) by {
                assert(output@.subrange(0, old(output)@.len() as int) =~= old(output)@);
            }
            r
        },
        Instruction::Reference(i) => Ok(emit_reference_instruction(i, output)),
        Instruction::Parametric(i) => Ok(emit_parametric_instruction(i, output)),
        Instruction::Variable(i) => Ok(emit_variable_instruction(i, output)),
        Instruction::Table(i) => Ok(emit_table_instruction(i, output)),
        Instruction::Memory(i) => Ok(emit_memory_instruction(i, output)),
        Instruction::Control(i) => emit_control_instruction(i, output),
    }
}

/// Emits a sequence of instructions, one after the other.
fn emit_instructions(instructions: &Vec<Instruction>, output: &mut Vec<u8>) -> (r: Result<
    usize,
    CompilerError,
>)
    ensures
        emitted(old(output)@, final(output)@, r, instructions_encoding(instructions@)),
    decreases instructions@, 0nat,
{
    let start = output.len();
    let ghost s = instructions@;
    let mut i: usize = 0;
    assert(s.take(0) =~= Seq::<Instruction>::empty());
    while i < instructions.len()
        invariant
            s == instructions@,
            i <= s.len(),
            start == old(output)@.len(),
            instructions_encoding(s.take(i as int)) is Some,
            output@ == old(output)@ + instructions_encoding(s.take(i as int))->0,
        decreases s.len() - i,
    {
        assert(s.take(i as int + 1).drop_last() =~= s.take(i as int));
        assert(s.take(i as int + 1).last() == s[i as int]);
        let ghost before = output@;
        match emit_instruction(&instructions[i], output) {
            Ok(_) => {},
            Err(e) => {
                proof {
                    lemma_instructions_failure_extends(s, i as int + 1);
                    assert(output@.subrange(0, old(output)@.len() as int) =~= old(output)@);
                }
                return Err(e);
            },
        }
        i = i + 1;
    }
    assert(s.take(s.len() as int) =~= s);
    assert(output@ =~= old(output)@ + instructions_encoding(s)->0);
    Ok(output.len() - start)
}

/// Emits the instructions of an expression followed by `terminator`.
fn emit_terminated(expression: &Expression, terminator: u8, output: &mut Vec<u8>) -> (r: Result<
    usize,
    CompilerError,
>)
    ensures
        emitted(old(output)@, final(output)@, r, terminated_encoding(*expression, terminator)),
    decreases expression, 1nat,
{
    let start = output.len();
    match emit_instructions(&expression.instructions, output) {
        Ok(_) => {},
        Err(e) => {
            return Err(e);
        },
    }
    emit_byte(terminator, output);
    assert(output@ =~= old(output)@ + terminated_encoding(*expression, terminator)->0);
    Ok(output.len() - start)
}

/// Emits an expression: its instructions, then `end`.
pub fn emit_expression(expression: &Expression, output: &mut Vec<u8>) -> (r: Result<
    usize,
    CompilerError,
>)
    ensures
        emitted(old(output)@, final(output)@, r, expression_encoding(*expression)),
{
    emit_terminated(expression, 0x0B, output)
}

/// Emits an opcode, a block type, then a body ended by `terminator`.
fn emit_block(
    opcode: u8,
    kind: &BlockType,
    body: &Expression,
    terminator: u8,
    output: &mut Vec<u8>,
) -> (r: Result<usize, CompilerError>)
    ensures
        emitted(
            old(output)@,
            final(output)@,
            r,
            followed_by(
                Some(seq![opcode] + block_type_encoding(*kind)),
                terminated_encoding(*body, terminator),
            ),
        ),
    decreases body, 2nat,
{
    let start = output.len();
    emit_byte(opcode, output);
    emit_block_type(kind, output);
    let ghost header = output@;
    match emit_terminated(body, terminator, output) {
        Ok(_) => {},
        Err(e) => {
            assert(output@.subrange(0, start as int) =~= old(output)@) by {
                assert(output@.subrange(0, header.len() as int) =~= header);
            }
            return Err(e);
        },
    }
    assert(output@ =~= old(output)@ + (seq![opcode] + block_type_encoding(*kind)
        + terminated_encoding(*body, terminator)->0));
    Ok(output.len() - start)
}

/// Emits a control instruction.
pub fn emit_control_instruction(instruction: &ControlInstruction, output: &mut Vec<u8>) -> (r:
    Result<usize, CompilerError>)
    ensures
        emitted(old(output)@, final(output)@, r, control_instruction_encoding(*instruction)),
    decreases instruction, 0nat,
{
    let start = output.len();
    match instruction {
        ControlInstruction::Unreachable => {
            emit_byte(0x00u8, output);
        },
        ControlInstruction::Nop => {
            emit_byte(0x01u8, output);
        },
        ControlInstruction::Block(kind, body) => {
            return emit_block(0x02u8, kind, body, 0x0B, output);
        },
        ControlInstruction::Loop(kind, body) => {
            return emit_block(0x03u8, kind, body, 0x0B, output);
        },
        ControlInstruction::If(kind, positive, None) => {
            return emit_block(0x04u8, kind, positive, 0x0B, output);
        },
        ControlInstruction::If(kind, positive, Some(negative)) => {
            match emit_block(0x04u8, kind, positive, 0x05, output) {
                Ok(_) => {},
                Err(e) => {
                    return Err(e);
                },
            }
            let ghost middle = output@;
            match emit_terminated(negative, 0x0B, output) {
                Ok(_) => {},
                Err(e) => {
                    assert(output@.subrange(0, start as int) =~= old(output)@) by {
                        assert(output@.subrange(0, middle.len() as int) =~= middle);
                    }
                    return Err(e);
                },
            }
        },
        ControlInstruction::Branch(index) => {
            emit_byte(0x0Cu8, output);
            emit_usize(*index, output);
        },
        ControlInstruction::BranchIf(index) => {
            emit_byte(0x0Du8, output);
            emit_usize(*index, output);
        },
        ControlInstruction::BranchTable(indices, index) => {
            emit_byte(0x0Eu8, output);
            emit_indices(indices.as_slice(), output);
            emit_usize(*index, output);
        },
        ControlInstruction::Return => {
            emit_byte(0x0Fu8, output);
        },
        ControlInstruction::Call(index) => {
            emit_byte(0x10u8, output);
            emit_usize(*index, output);
        },
        ControlInstruction::CallIndirect(table, kind) => {
            emit_byte(0x11u8, output);
            emit_usize(*kind, output);
            emit_usize(*table, output);
        },
    }
    assert(output@ =~= old(output)@ + control_instruction_encoding(*instruction)->0);
    Ok(output.len() - start)
}

} // verus!
