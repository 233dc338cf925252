//! Transforms a Tortuga process into a WebAssembly module.
use crate::compiler::errors::CompilerError;
use crate::web_assembly::{
    Export, ExportDescription, Index, Limit, Memory, MemoryType, Module, Name,
};
use vstd::prelude::*;

verus! {

/// The memory that every transformed module defines: one page at least, with no maximum.
pub open spec fn io_memory() -> Memory {
    Memory { kind: MemoryType { limits: Limit { min: 1, max: None } } }
}

/// The name under which the memory of a transformed module is exported: `io`, in UTF-8.
pub open spec fn io_name() -> Seq<u8> {
    vstd::utf8::encode_utf8(seq!['i', 'o'])
}

/// Transforms a process into a WebAssembly module. The module defines a single memory and
/// exports it under the name `io`, through which the process exchanges its input and output.
pub fn transform() -> (r: Result<Module, CompilerError>)
    ensures
        r matches Ok(module) && {
            &&& module.memories@ == seq![io_memory()]
            &&& module.exports@.len() == 1
            &&& module.exports@[0].name.bytes@ == io_name()
            &&& module.exports@[0].description == ExportDescription::Memory(0)
            &&& module.types@.len() == 0
            &&& module.functions@.len() == 0
            &&& module.tables@.len() == 0
            &&& module.globals@.len() == 0
            &&& module.elements@.len() == 0
            &&& module.data@.len() == 0
            &&& module.imports@.len() == 0
            &&& module.start is None
        },
{
    let mut module = Module::new();
    let index = define_memory(&mut module);
    assert(index == 0);
    Ok(module)
}

/// Adds the `io` memory to the module and exports it; returns the memory's index.
fn define_memory(module: &mut Module) -> (r: Index)
    requires
        old(module).memories@.len() < usize::MAX,
        old(module).exports@.len() < usize::MAX,
    ensures
        r == old(module).memories@.len(),
        final(module).memories@ == old(module).memories@.push(io_memory()),
        final(module).exports@.len() == old(module).exports@.len() + 1,
        final(module).exports@.drop_last() == old(module).exports@,
        final(module).exports@.last().name.bytes@ == io_name(),
        final(module).exports@.last().description == ExportDescription::Memory(r),
        final(module).types == old(module).types,
        final(module).functions == old(module).functions,
        final(module).tables == old(module).tables,
        final(module).globals == old(module).globals,
        final(module).elements == old(module).elements,
        final(module).data == old(module).data,
        final(module).imports == old(module).imports,
        final(module).start == old(module).start,
{
    let limit = Limit::new(1, None);
    let memory_type = MemoryType::new(limit);
    let memory = Memory::new(memory_type);
    let memory_index = module.add_memory(memory);
    let text = String::from_str("io");
    proof {
        reveal_strlit("io");
    }
    let name = Name::new(text);
    assert("io"@ =~= seq!['i', 'o']);
    let export_description = ExportDescription::Memory(memory_index);
    let export = Export::new(name, export_description);
    module.add_export(export);
    assert(module.exports@.drop_last() =~= old(module).exports@);
    memory_index
}

} // verus!
