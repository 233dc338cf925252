//! Validation of WebAssembly modules.
use crate::compiler::emitter::Emit;
use crate::compiler::emitter::module::module_encoding;
use crate::compiler::errors::CompilerError;
use crate::web_assembly::Module;
use vstd::prelude::*;

verus! {

/// Compiles the bytes as a WebAssembly module with `wasmtime`'s default configuration
/// (`wasmtime::Engine::new`, `wasmtime::Module::new`) and instantiates it with no imports in
/// a fresh store (`wasmtime::Store::try_new`, `wasmtime::Instance::new`); true when every
/// step succeeds. Besides the bytes, success rests on the machine (memory, support for the
/// host), so nothing is claimed of the answer.
#[verifier::external_body]
fn instantiates(bytes: &[u8]) -> (r: bool) {
    wasmtime::Engine::new(&wasmtime::Config::default()).and_then(|engine| {
        let module = wasmtime::Module::new(&engine, bytes)?;
        let mut store = wasmtime::Store::try_new(&engine, 0u8)?;
        wasmtime::Instance::new(&mut store, &module, &[])
    }).is_ok()
}

/// A validation of a WebAssembly module.
pub trait Validate<T> {
    /// Tests that the module is well-formed. The meaning of well-formed -ness is specific to the
    /// trait implementation.
    fn validate(module: Module) -> Result<(), T>;
}

/// A check that a module encodes and can be compiled and instantiated.
pub struct SyntaxCheck {}

impl Validate<CompilerError> for SyntaxCheck {
    /// Emits the module and has its encoding compiled and instantiated. A module that cannot be
    /// encoded is refused as invalid syntax; one whose encoding is refused by the compiler as
    /// another error.
    fn validate(target: Module) -> (r: Result<(), CompilerError>)
        ensures
            module_encoding(target, None) is None ==> r == Err::<(), CompilerError>(
                CompilerError::InvalidSyntax,
            ),
            module_encoding(target, None) is Some ==> (r is Ok || r == Err::<(), CompilerError>(
                CompilerError::Other,
            )),
    {
        let mut bytes: Vec<u8> = Vec::new();
        match target.emit(&mut bytes) {
            Ok(_) => {},
            Err(e) => {
                return Err(e);
            },
        }
        if instantiates(bytes.as_slice()) {
            Ok(())
        } else {
            Err(CompilerError::Other)
        }
    }
}

} // verus!
