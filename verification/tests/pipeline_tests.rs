use curry_lang::Rule;
use curry_lang::ast::ExpressionNode;
use curry_lang::ast::Statement;
use curry_lang::ast::StatementKind;
use curry_lang::errors::CompileError;
use curry_lang::escape::decode_user_string;
use curry_lang::ir::ArgValue;
use curry_lang::ir::Instruction;
use curry_lang::ll_code_gen::LLIRCodeGenerator;
use curry_lang::parser::CurryParser;

#[test]
fn hello_world_script_compiles_to_single_call() {
    let mut gen = LLIRCodeGenerator::new();
    gen.compile_source(r#"printf("Hello, world!")"#).unwrap();
    assert_eq!(gen.modules.len(), 1);
    let module = &gen.modules[0];
    assert_eq!(module.name, "main");
    assert_eq!(module.builtins.len(), 1);
    assert_eq!(module.builtins[0].name, "printf");
    assert!(module.builtins[0].variadic);
    assert_eq!(module.function_count(), 1);
    let main = module.function_at(0);
    assert_eq!(main.name, "main");
    assert_eq!(
        main.body,
        vec![
            Instruction::Call {
                callee: String::from("printf"),
                args: vec![ArgValue::ConstString(String::from("Hello, world!"))],
            },
            Instruction::Ret,
        ]
    );
    assert!(main.verify());
}

#[test]
fn empty_script_compiles_to_bare_return() {
    let mut gen = LLIRCodeGenerator::new();
    gen.compile_source("").unwrap();
    let main = &gen.modules[0].functions[0];
    assert_eq!(main.body, vec![Instruction::Ret]);
    assert!(main.verify());
}

#[test]
fn unterminated_literal_is_syntax_error() {
    let mut gen = LLIRCodeGenerator::new();
    let err = gen.compile_source(r#"name = "unterminated"#).unwrap_err();
    assert_eq!(
        err,
        CompileError::SyntaxError { offset: 20, expected: Rule::string_literal }
    );
    assert!(gen.modules.is_empty());
}

#[test]
fn reassignment_is_duplicate_definition() {
    let mut gen = LLIRCodeGenerator::new();
    let err = gen.compile_source("x = \"a\"\nx = \"b\"").unwrap_err();
    assert_eq!(err, CompileError::DuplicateDefinition { name: String::from("x") });
    assert!(gen.modules.is_empty());
}

#[test]
fn unknown_variable_is_undefined_symbol() {
    let mut gen = LLIRCodeGenerator::new();
    let err = gen.compile_source("printf(x)").unwrap_err();
    assert_eq!(err, CompileError::UndefinedSymbol { name: String::from("x") });
}

#[test]
fn assigned_variable_resolves_to_its_slot() {
    let mut gen = LLIRCodeGenerator::new();
    gen.compile_source("x = \"hi\"\nprintf(x)").unwrap();
    let main = &gen.modules[0].functions[0];
    assert_eq!(
        main.body,
        vec![
            Instruction::Alloca { name: String::from("x") },
            Instruction::Store { slot: 0, chars: String::from("hi") },
            Instruction::Call {
                callee: String::from("printf"),
                args: vec![ArgValue::Ptr(0)],
            },
            Instruction::Ret,
        ]
    );
}

#[test]
fn each_assignment_gets_its_own_slot() {
    let mut gen = LLIRCodeGenerator::new();
    gen.compile_source("a = \"1\"\nb = \"2\"\nprintf(a, b)").unwrap();
    let main = &gen.modules[0].functions[0];
    assert_eq!(main.body.len(), 6);
    assert_eq!(main.body[1], Instruction::Store { slot: 0, chars: String::from("1") });
    assert_eq!(main.body[3], Instruction::Store { slot: 1, chars: String::from("2") });
    assert_eq!(
        main.body[4],
        Instruction::Call {
            callee: String::from("printf"),
            args: vec![ArgValue::Ptr(0), ArgValue::Ptr(1)],
        }
    );
}

#[test]
fn program_without_entry_is_missing_entry() {
    let mut gen = LLIRCodeGenerator::new();
    let err = gen.compile_source("fn foo() {}").unwrap_err();
    assert_eq!(err, CompileError::MissingEntry);
    assert!(gen.modules.is_empty());
}

#[test]
fn two_entry_definitions_are_duplicate_definition() {
    let mut gen = LLIRCodeGenerator::new();
    let err = gen
        .compile_source("entry foo\nentry bar\nfn foo() {}")
        .unwrap_err();
    assert_eq!(err, CompileError::DuplicateDefinition { name: String::from("bar") });
}

#[test]
fn minimal_program_compiles_with_synthesized_main() {
    let mut gen = LLIRCodeGenerator::new();
    gen.compile_source("entry greet\nfn greet() { printf(\"hi\") }")
        .unwrap();
    let module = &gen.modules[0];
    assert_eq!(module.name, "main");
    assert_eq!(module.functions.len(), 2);
    assert_eq!(module.functions[0].name, "greet");
    assert_eq!(
        module.functions[0].body,
        vec![
            Instruction::Call {
                callee: String::from("printf"),
                args: vec![ArgValue::ConstString(String::from("hi"))],
            },
            Instruction::Ret,
        ]
    );
    let main = &module.functions[1];
    assert_eq!(main.name, "main");
    assert_eq!(
        main.body,
        vec![
            Instruction::Call { callee: String::from("greet"), args: vec![] },
            Instruction::Ret,
        ]
    );
    assert!(module.functions[0].verify());
    assert!(main.verify());
}

#[test]
fn entry_naming_unknown_function_is_undefined_symbol() {
    let mut gen = LLIRCodeGenerator::new();
    let err = gen.compile_source("entry foo").unwrap_err();
    assert_eq!(err, CompileError::UndefinedSymbol { name: String::from("foo") });
}

#[test]
fn unknown_callee_is_undefined_symbol() {
    let mut gen = LLIRCodeGenerator::new();
    let err = gen.compile_source("foo()").unwrap_err();
    assert_eq!(err, CompileError::UndefinedSymbol { name: String::from("foo") });
}

#[test]
fn duplicate_function_declaration_is_rejected() {
    let mut gen = LLIRCodeGenerator::new();
    let err = gen
        .compile_source("entry foo\nfn foo() {}\nfn foo() {}")
        .unwrap_err();
    assert_eq!(err, CompileError::DuplicateDefinition { name: String::from("foo") });
}

#[test]
fn declaring_the_builtin_name_is_rejected() {
    let mut gen = LLIRCodeGenerator::new();
    let err = gen
        .compile_source("entry printf\nfn printf() {}")
        .unwrap_err();
    assert_eq!(err, CompileError::DuplicateDefinition { name: String::from("printf") });
}

#[test]
fn nested_call_argument_is_unsupported() {
    let mut gen = LLIRCodeGenerator::new();
    let err = gen.compile_source("printf(f(\"x\"))").unwrap_err();
    assert_eq!(err, CompileError::UnsupportedConstruct);
}

#[test]
fn assignment_from_call_is_unsupported() {
    let mut gen = LLIRCodeGenerator::new();
    let err = gen.compile_source("x = f(\"y\")").unwrap_err();
    assert_eq!(err, CompileError::UnsupportedConstruct);
}

#[test]
fn literal_arguments_are_decoded() {
    let mut gen = LLIRCodeGenerator::new();
    gen.compile_source("printf(\"a\\nb\\t\\\"c\\\"\")").unwrap();
    let main = &gen.modules[0].functions[0];
    assert_eq!(
        main.body[0],
        Instruction::Call {
            callee: String::from("printf"),
            args: vec![ArgValue::ConstString(String::from("a\nb\t\"c\""))],
        }
    );
}

#[test]
fn escape_decoding_examples() {
    let once = decode_user_string("a\\\"b");
    assert_eq!(once, "a\"b");
    let twice = decode_user_string(&once);
    assert_eq!(twice, "a\"b");
    assert_eq!(decode_user_string("line\\nbreak\\t\\r\\0"), "line\nbreak\t\r\0");
    assert_eq!(decode_user_string("back\\\\slash"), "back\\slash");
    // an unknown escape passes through unchanged
    assert_eq!(decode_user_string("\\q"), "\\q");
}

#[test]
fn assignment_converts_to_named_literal() {
    let node = CurryParser::parse(Rule::statement, r#"name = "chuck norris""#)
        .unwrap()
        .unique_pair()
        .unwrap();
    let st = Statement::try_from(&node).unwrap();
    assert_eq!((st.span.start, st.span.end), (0, 21));
    match &st.kind {
        StatementKind::Assignment(a) => {
            assert_eq!(a.symbol_ref.name, "name");
            match &a.expression {
                ExpressionNode::StringLiteral(v) => assert_eq!(v.value, "chuck norris"),
                other => panic!("expected a literal, got {:?}", other),
            }
        },
        other => panic!("unexpected stmt type {}", other.describe()),
    }
}

#[test]
fn ast_keeps_literals_undecoded() {
    let node = CurryParser::parse(Rule::statement, "x = \"say \\\"hi\\\"\"")
        .unwrap()
        .unique_pair()
        .unwrap();
    let st = Statement::try_from(&node).unwrap();
    match &st.kind {
        StatementKind::Assignment(a) => match &a.expression {
            ExpressionNode::StringLiteral(v) => assert_eq!(v.value, "say \\\"hi\\\""),
            other => panic!("expected a literal, got {:?}", other),
        },
        other => panic!("unexpected stmt type {}", other.describe()),
    }
}

#[test]
fn call_arguments_convert_in_source_order() {
    let node = CurryParser::parse(Rule::function_call, "f(\"a\", x, \"b\")")
        .unwrap()
        .unique_pair()
        .unwrap();
    let st = Statement::try_from(&node).unwrap();
    match &st.kind {
        StatementKind::FunctionCall(call) => {
            assert_eq!(call.symbol_ref.name, "f");
            assert_eq!(call.arguments.len(), 3);
            assert!(matches!(&call.arguments[0],
                ExpressionNode::StringLiteral(v) if v.value == "a"));
            assert!(matches!(&call.arguments[1],
                ExpressionNode::VariableReference(s) if s.name == "x"));
            assert!(matches!(&call.arguments[2],
                ExpressionNode::StringLiteral(v) if v.value == "b"));
        },
        other => panic!("unexpected stmt type {}", other.describe()),
    }
}

#[test]
fn failed_compilation_leaves_earlier_modules_alone() {
    let mut gen = LLIRCodeGenerator::new();
    gen.compile_source("printf(\"one\")").unwrap();
    assert_eq!(gen.modules.len(), 1);
    gen.compile_source("printf(missing)").unwrap_err();
    assert_eq!(gen.modules.len(), 1);
    gen.compile_source("printf(\"two\")").unwrap();
    assert_eq!(gen.modules.len(), 2);
}
