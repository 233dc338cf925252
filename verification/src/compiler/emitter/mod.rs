//! Emits the binary representation of a WebAssembly module.
//!
//! See <https://webassembly.github.io/spec/core/binary/index.html>
pub mod instruction;
pub mod module;
pub mod types;
pub mod values;

use crate::compiler::emitter::instruction::emitted;
use crate::compiler::emitter::module::module_encoding;
use crate::compiler::emitter::types::{emit_limit, emit_number_type, limit_encoding, number_type_byte};
use crate::compiler::emitter::values::{
    emit_bytes, emit_i32, emit_i64, emit_u32, emit_u64, emit_usize, leb128_signed, leb128_unsigned,
};
use crate::compiler::errors::CompilerError;
use crate::web_assembly::{Limit, Module, Name, NumberType};
use vstd::prelude::*;

verus! {

/// Emits a binary representation of a WebAssembly Abstract Syntax Tree (AST) to an output.
pub trait Emit {
    /// The bytes that represent this node, or `None` where it has no representation.
    spec fn encoding(&self) -> Option<Seq<u8>>;

    /// Appends the representation of this node to `output` and returns its length in bytes.
    fn emit(&self, output: &mut Vec<u8>) -> (r: Result<usize, CompilerError>)
        ensures
            emitted(old(output)@, final(output)@, r, self.encoding()),
    ;
}

/// Emits a representation of an Abstract Syntax Tree (AST) node of type `T` to an output.
pub trait Emitter<T> {
    /// The bytes that represent `node`, or `None` where it has no representation.
    spec fn representation(&self, node: T) -> Option<Seq<u8>>;

    /// Appends the representation of `node` to `output` and returns its length in bytes.
    fn emit(&self, node: &T, output: &mut Vec<u8>) -> (r: Result<usize, CompilerError>)
        ensures
            emitted(old(output)@, final(output)@, r, self.representation(*node)),
    ;
}

/// Emits the binary format of WebAssembly.
pub struct BinaryWebAssemblyEmitter {}

impl BinaryWebAssemblyEmitter {
    pub fn new() -> BinaryWebAssemblyEmitter {
        BinaryWebAssemblyEmitter {  }
    }
}

/// See <https://webassembly.github.io/spec/core/binary/modules.html>
impl Emitter<Module> for BinaryWebAssemblyEmitter {
    open spec fn representation(&self, node: Module) -> Option<Seq<u8>> {
        module_encoding(node, None)
    }

    fn emit(&self, node: &Module, output: &mut Vec<u8>) -> (r: Result<usize, CompilerError>) {
        Emit::emit(node, output)
    }
}

impl Emitter<NumberType> for BinaryWebAssemblyEmitter {
    open spec fn representation(&self, node: NumberType) -> Option<Seq<u8>> {
        Some(seq![number_type_byte(node)])
    }

    fn emit(&self, node: &NumberType, output: &mut Vec<u8>) -> (r: Result<usize, CompilerError>) {
        let r = emit_number_type(node, output);
        assert(output@ =~= old(output)@ + seq![number_type_byte(*node)]);
        Ok(r)
    }
}

impl Emitter<Limit> for BinaryWebAssemblyEmitter {
    open spec fn representation(&self, node: Limit) -> Option<Seq<u8>> {
        Some(limit_encoding(node))
    }

    fn emit(&self, node: &Limit, output: &mut Vec<u8>) -> (r: Result<usize, CompilerError>) {
        Ok(emit_limit(node, output))
    }
}

/// See <https://webassembly.github.io/spec/core/binary/values.html>
impl Emitter<i32> for BinaryWebAssemblyEmitter {
    open spec fn representation(&self, node: i32) -> Option<Seq<u8>> {
        Some(leb128_signed(node as int))
    }

    fn emit(&self, node: &i32, output: &mut Vec<u8>) -> (r: Result<usize, CompilerError>) {
        Ok(emit_i32(*node, output))
    }
}

impl Emitter<i64> for BinaryWebAssemblyEmitter {
    open spec fn representation(&self, node: i64) -> Option<Seq<u8>> {
        Some(leb128_signed(node as int))
    }

    fn emit(&self, node: &i64, output: &mut Vec<u8>) -> (r: Result<usize, CompilerError>) {
        Ok(emit_i64(*node, output))
    }
}

impl Emitter<u32> for BinaryWebAssemblyEmitter {
    open spec fn representation(&self, node: u32) -> Option<Seq<u8>> {
        Some(leb128_unsigned(node as nat))
    }

    fn emit(&self, node: &u32, output: &mut Vec<u8>) -> (r: Result<usize, CompilerError>) {
        Ok(emit_u32(*node, output))
    }
}

impl Emitter<u64> for BinaryWebAssemblyEmitter {
    open spec fn representation(&self, node: u64) -> Option<Seq<u8>> {
        Some(leb128_unsigned(node as nat))
    }

    fn emit(&self, node: &u64, output: &mut Vec<u8>) -> (r: Result<usize, CompilerError>) {
        Ok(emit_u64(*node, output))
    }
}

impl Emitter<usize> for BinaryWebAssemblyEmitter {
    open spec fn representation(&self, node: usize) -> Option<Seq<u8>> {
        Some(leb128_unsigned(node as nat))
    }

    fn emit(&self, node: &usize, output: &mut Vec<u8>) -> (r: Result<usize, CompilerError>) {
        Ok(emit_usize(*node, output))
    }
}

/// A name on its own: the bytes of its UTF-8 encoding, without their length.
impl Emitter<Name> for BinaryWebAssemblyEmitter {
    open spec fn representation(&self, node: Name) -> Option<Seq<u8>> {
        Some(node.bytes@)
    }

    fn emit(&self, node: &Name, output: &mut Vec<u8>) -> (r: Result<usize, CompilerError>) {
        Ok(emit_bytes(node.as_bytes(), output, false))
    }
}

} // verus!
