//! The binary encoding of WebAssembly types.
//!
//! See <https://webassembly.github.io/spec/core/binary/types.html>
use crate::compiler::emitter::values::{emit_byte, emit_usize, leb128_unsigned};
use crate::web_assembly::{
    FunctionType, GlobalType, Limit, MemoryType, NumberType, ReferenceType, ResultType, TableType,
    ValueType,
};
use vstd::prelude::*;

verus! {

/// The concatenation of `f` applied to each element of `s`, in order.
pub open spec fn concat<T>(s: Seq<T>, f: spec_fn(T) -> Seq<u8>) -> Seq<u8>
    decreases s.len(),
{
    if s.len() == 0 {
        Seq::empty()
    } else {
        concat(s.drop_last(), f) + f(s.last())
    }
}

/// A vector: its length, then the encoding of each element in order.
pub open spec fn vector_encoding<T>(s: Seq<T>, f: spec_fn(T) -> Seq<u8>) -> Seq<u8> {
    leb128_unsigned(s.len()) + concat(s, f)
}

pub proof fn lemma_concat_step<T>(s: Seq<T>, i: int, f: spec_fn(T) -> Seq<u8>)
    requires
        0 <= i < s.len(),
    ensures
        concat(s.take(i + 1), f) == concat(s.take(i), f) + f(s[i]),
{
    assert(s.take(i + 1).drop_last() =~= s.take(i));
    assert(s.take(i + 1).last() == s[i]);
}

pub proof fn lemma_concat_all<T>(s: Seq<T>, f: spec_fn(T) -> Seq<u8>)
    ensures
        concat(s.take(s.len() as int), f) == concat(s, f),
{
    assert(s.take(s.len() as int) =~= s);
}

pub open spec fn number_type_byte(kind: NumberType) -> u8 {
    match kind {
        NumberType::I32 => 0x7F,
        NumberType::I64 => 0x7E,
        NumberType::F32 => 0x7D,
        NumberType::F64 => 0x7C,
    }
}

pub open spec fn reference_type_byte(kind: ReferenceType) -> u8 {
    match kind {
        ReferenceType::Function => 0x70,
        ReferenceType::External => 0x6F,
    }
}

pub open spec fn value_type_byte(kind: ValueType) -> u8 {
    match kind {
        ValueType::Number(number) => number_type_byte(number),
        ValueType::Reference(reference) => reference_type_byte(reference),
    }
}

pub open spec fn value_type_encoding(kind: ValueType) -> Seq<u8> {
    seq![value_type_byte(kind)]
}

pub open spec fn result_type_encoding(kind: ResultType) -> Seq<u8> {
    vector_encoding(kind.kinds@, |k: ValueType| value_type_encoding(k))
}

pub open spec fn function_type_encoding(kind: FunctionType) -> Seq<u8> {
    seq![0x60u8] + result_type_encoding(kind.parameters) + result_type_encoding(kind.results)
}

pub open spec fn limit_encoding(limits: Limit) -> Seq<u8> {
    match limits.max {
        Some(max) => seq![0x01u8] + leb128_unsigned(limits.min as nat) + leb128_unsigned(
            max as nat,
        ),
        None => seq![0x00u8] + leb128_unsigned(limits.min as nat),
    }
}

pub open spec fn memory_type_encoding(kind: MemoryType) -> Seq<u8> {
    limit_encoding(kind.limits)
}

pub open spec fn table_type_encoding(kind: TableType) -> Seq<u8> {
    seq![reference_type_byte(kind.kind)] + limit_encoding(kind.limits)
}

pub open spec fn global_type_encoding(kind: GlobalType) -> Seq<u8> {
    value_type_encoding(kind.kind) + seq![
        if kind.mutable {
            0x01u8
        } else {
            0x00u8
        },
    ]
}

pub fn emit_number_type(kind: &NumberType, output: &mut Vec<u8>) -> (r: usize)
    ensures
        final(output)@ == old(output)@.push(number_type_byte(*kind)),
        r == 1,
{
    let value: u8 = match kind {
        NumberType::I32 => 0x7F,
        NumberType::I64 => 0x7E,
        NumberType::F32 => 0x7D,
        NumberType::F64 => 0x7C,
    };
    emit_byte(value, output)
}

pub fn emit_reference_type(kind: &ReferenceType, output: &mut Vec<u8>) -> (r: usize)
    ensures
        final(output)@ == old(output)@.push(reference_type_byte(*kind)),
        r == 1,
{
    let value: u8 = match kind {
        ReferenceType::Function => 0x70,
        ReferenceType::External => 0x6F,
    };
    emit_byte(value, output)
}

pub fn emit_value_type(kind: &ValueType, output: &mut Vec<u8>) -> (r: usize)
    ensures
        final(output)@ == old(output)@ + value_type_encoding(*kind),
        r == 1,
{
    let r = match kind {
        ValueType::Number(number_type) => emit_number_type(number_type, output),
        ValueType::Reference(reference_type) => emit_reference_type(reference_type, output),
    };
    assert(output@ =~= old(output)@ + value_type_encoding(*kind));
    r
}

/// Emits a vector of value types.
pub fn emit_value_types(kinds: &[ValueType], output: &mut Vec<u8>) -> (r: usize)
    ensures
        final(output)@ == old(output)@ + vector_encoding(kinds@, |k: ValueType| value_type_encoding(k)),
        r == vector_encoding(kinds@, |k: ValueType| value_type_encoding(k)).len(),
{
    let ghost f = |k: ValueType| value_type_encoding(k);
    let start = output.len();
    emit_usize(kinds.len(), output);
    let ghost prefix = output@;
    let mut i: usize = 0;
    while i < kinds.len()
        invariant
            i <= kinds@.len(),
            f == (|k: ValueType| value_type_encoding(k)),
            output@ == prefix + concat(kinds@.take(i as int), f),
        decreases kinds.len() - i,
    {
        emit_value_type(&kinds[i], output);
        proof {
            lemma_concat_step(kinds@, i as int, f);
        }
        i = i + 1;
    }
    proof {
        lemma_concat_all(kinds@, f);
    }
    assert(output@ =~= old(output)@ + vector_encoding(kinds@, f));
    output.len() - start
}

pub fn emit_result_type(kind: &ResultType, output: &mut Vec<u8>) -> (r: usize)
    ensures
        final(output)@ == old(output)@ + result_type_encoding(*kind),
        r == result_type_encoding(*kind).len(),
{
    emit_value_types(kind.kinds(), output)
}

pub fn emit_function_type(kind: &FunctionType, output: &mut Vec<u8>) -> (r: usize)
    ensures
        final(output)@ == old(output)@ + function_type_encoding(*kind),
        r == function_type_encoding(*kind).len(),
{
    let start = output.len();
    emit_byte(0x60u8, output);
    emit_result_type(&kind.parameters, output);
    emit_result_type(&kind.results, output);
    assert(output@ =~= old(output)@ + function_type_encoding(*kind));
    output.len() - start
}

pub fn emit_limit(limits: &Limit, output: &mut Vec<u8>) -> (r: usize)
    ensures
        final(output)@ == old(output)@ + limit_encoding(*limits),
        r == limit_encoding(*limits).len(),
{
    let start = output.len();
    match limits.max() {
        Some(max) => {
            emit_byte(0x01u8, output);
            emit_usize(limits.min(), output);
            emit_usize(max, output);
        },
        None => {
            emit_byte(0x00u8, output);
            emit_usize(limits.min(), output);
        },
    }
    assert(output@ =~= old(output)@ + limit_encoding(*limits));
    output.len() - start
}

pub fn emit_memory_type(kind: &MemoryType, output: &mut Vec<u8>) -> (r: usize)
    ensures
        final(output)@ == old(output)@ + memory_type_encoding(*kind),
        r == memory_type_encoding(*kind).len(),
{
    emit_limit(&kind.limits, output)
}

pub fn emit_table_type(kind: &TableType, output: &mut Vec<u8>) -> (r: usize)
    ensures
        final(output)@ == old(output)@ + table_type_encoding(*kind),
        r == table_type_encoding(*kind).len(),
{
    let start = output.len();
    emit_reference_type(&kind.kind, output);
    emit_limit(&kind.limits, output);
    assert(output@ =~= old(output)@ + table_type_encoding(*kind));
    output.len() - start
}

pub fn emit_global_type(kind: &GlobalType, output: &mut Vec<u8>) -> (r: usize)
    ensures
        final(output)@ == old(output)@ + global_type_encoding(*kind),
        r == global_type_encoding(*kind).len(),
{
    let start = output.len();
    emit_value_type(&kind.kind, output);
    let mutability: u8 = if kind.mutable {
        0x01
    } else {
        0x00
    };
    emit_byte(mutability, output);
    assert(output@ =~= old(output)@ + global_type_encoding(*kind));
    output.len() - start
}

} // verus!
