use tortuga::compiler::validator::{SyntaxCheck, Validate};
use tortuga::web_assembly::{
    ControlInstruction, Element, ElementInitializer, ElementMode, Export, ExportDescription,
    Expression, FloatType, Function, FunctionType, Global, GlobalType, Instruction, IntegerType,
    Limit, Module, Name, NumberType, NumericInstruction, ReferenceType, ResultType, Start, Table,
    TableType, ValueType,
};
use tortuga::CompilerError;

#[test]
fn valid_empty_module() {
    let module = Module::new();
    let result = SyntaxCheck::validate(module);

    assert!(result.is_ok());
}

#[test]
fn valid_module_type_only() {
    let mut module = Module::new();
    let function_type = FunctionType::new(
        ResultType::new(vec![ValueType::Number(NumberType::I64)]),
        ResultType::new(vec![ValueType::Number(NumberType::F64)]),
    );
    module.add_type(function_type.clone());

    let result = SyntaxCheck::validate(module);

    assert!(result.is_ok());
}

#[test]
fn valid_module_table_only() {
    let mut module = Module::new();

    let table = Table::new(TableType::new(Limit::new(0, None), ReferenceType::Function));
    module.add_table(table);

    let result = SyntaxCheck::validate(module);

    assert!(result.is_ok());
}

#[test]
fn valid_module_global_only() {
    let mut module = Module::new();

    let global = Global::new(
        GlobalType::new(false, ValueType::Number(NumberType::I64)),
        Expression::new(vec![Instruction::Numeric(NumericInstruction::I64Constant(
            0,
        ))]),
    );
    module.add_global(global);

    let result = SyntaxCheck::validate(module);

    assert!(result.is_ok());
}

#[test]
fn valid_module_import_only() {
    let mut module = Module::new();

    let export = Export::new(
        Name::new("foobar".to_string()),
        ExportDescription::Global(0),
    );
    module.add_export(export.clone());

    let global = Global::new(
        GlobalType::new(false, ValueType::Number(NumberType::I64)),
        Expression::new(vec![Instruction::Numeric(NumericInstruction::I64Constant(
            0,
        ))]),
    );
    module.add_global(global);

    let result = SyntaxCheck::validate(module);

    assert!(result.is_ok());
}

// Modules that WebAssembly's own validation refuses: wasmtime refuses them whatever emits them,
// so these tests assert the refusal. A function of type (i64) -> (f64) whose body is a single
// `nop` leaves no result; a start function must take no parameters; an element may only name
// functions that the module defines.
//
// Modules with a memory (a memory alone, or a memory with a data segment) are valid, but
// instantiating one reserves several gigabytes of address space, which a machine with a limit
// on virtual memory refuses; so no test here instantiates a memory.

#[test]
fn function_whose_body_leaves_no_result_is_refused() {
    let mut module = Module::new();
    module.add_type(FunctionType::new(
        ResultType::new(vec![ValueType::Number(NumberType::I64)]),
        ResultType::new(vec![ValueType::Number(NumberType::F64)]),
    ));
    module.add_function(Function::new(
        0,
        ResultType::new(vec![ValueType::Number(NumberType::I32)]),
        Expression::new(vec![Instruction::Control(ControlInstruction::Nop)]),
    ));

    assert_eq!(SyntaxCheck::validate(module), Err(CompilerError::Other));
}

#[test]
fn element_of_a_missing_function_is_refused() {
    let mut module = Module::new();
    module.add_element(Element::new(
        ReferenceType::Function,
        ElementMode::Passive,
        ElementInitializer::FunctionIndex(vec![0]),
    ));
    module.add_table(Table::new(TableType::new(Limit::new(0, None), ReferenceType::Function)));

    assert_eq!(SyntaxCheck::validate(module), Err(CompilerError::Other));
}

#[test]
fn well_typed_start_function_and_element_are_accepted() {
    let mut module = Module::new();
    module.add_type(FunctionType::new(ResultType::new(vec![]), ResultType::new(vec![])));
    module.add_function(Function::new(
        0,
        ResultType::new(vec![ValueType::Number(NumberType::I32)]),
        Expression::new(vec![Instruction::Control(ControlInstruction::Nop)]),
    ));
    module.set_start(Some(Start::new(0)));
    module.add_element(Element::new(
        ReferenceType::Function,
        ElementMode::Passive,
        ElementInitializer::FunctionIndex(vec![0]),
    ));

    assert_eq!(SyntaxCheck::validate(module), Ok(()));
}

#[test]
fn module_that_cannot_be_encoded_is_invalid_syntax() {
    let mut module = Module::new();
    module.add_global(Global::new(
        GlobalType::new(false, ValueType::Number(NumberType::I32)),
        Expression::new(vec![Instruction::Numeric(NumericInstruction::ReinterpretFloat(
            IntegerType::I32,
            FloatType::F64,
        ))]),
    ));

    assert_eq!(SyntaxCheck::validate(module), Err(CompilerError::InvalidSyntax));
}

#[test]
fn start_function_with_parameters_is_refused() {
    let mut module = Module::new();
    module.add_type(FunctionType::new(
        ResultType::new(vec![ValueType::Number(NumberType::I64)]),
        ResultType::new(vec![]),
    ));
    module.add_function(Function::new(
        0,
        ResultType::new(vec![]),
        Expression::new(vec![Instruction::Control(ControlInstruction::Nop)]),
    ));
    module.set_start(Some(Start::new(0)));

    assert_eq!(SyntaxCheck::validate(module), Err(CompilerError::Other));
}
