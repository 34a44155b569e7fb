use curry_lang::Rule;
use curry_lang::ast::Statement;
use curry_lang::ast::StatementKind;
use curry_lang::errors::IllegalSourceState;
use curry_lang::errors::InvalidParserState;
use curry_lang::parser::CurryParser;
use curry_lang::parser::Pairs;
use curry_lang::parser::parse_to_ast;

#[test]
fn curry_pest_it_parses_function_call() {
    CurryParser::parse(Rule::function_call, r#"printf("Hello World!")"#)
        .unwrap()
        .unique_pair()
        .unwrap();
}

#[test]
fn it_parses_assignment() {
    CurryParser::parse(Rule::assignment, r#"name = "chuck norris""#)
        .unwrap()
        .unique_pair()
        .unwrap();
}

#[test]
fn tests_it_parses_function_call() {
    CurryParser::parse(Rule::function_call, r#"printf("Hello World!")"#)
        .unwrap()
        .unique_pair()
        .unwrap();
}

#[test]
fn statement_assignment_is_statement() {
    let node = CurryParser::parse(Rule::statement, r#"menu12a = "spicy""#)
        .unwrap()
        .unique_pair()
        .unwrap();
    let statement: Statement = Statement::try_from(&node).unwrap();
    match &statement.kind {
        StatementKind::Assignment(_pair) => {},
        other => panic!("unexpected stmt type {}", other.describe()),
    }
}

#[test]
fn statement_function_call_is_statement() {
    let node = CurryParser::parse(Rule::statement, r#"printf("Hello World!")"#)
        .unwrap()
        .unique_pair()
        .unwrap();
    let statement: Statement = Statement::try_from(&node).unwrap();
    match &statement.kind {
        StatementKind::FunctionCall(_pair) => {},
        other => panic!("unexpected stmt type {}", other.describe()),
    }
}

#[test]
fn tests_assignment_is_statement() {
    let node = CurryParser::parse(Rule::statement, r#"menu12a = "spicy""#)
        .unwrap()
        .unique_pair()
        .unwrap();
    let statement: Statement = Statement::try_from(&node).unwrap();
    match &statement.kind {
        StatementKind::Assignment(_pair) => {},
        other => panic!("unexpected stmt type {}", other.describe()),
    }
}

#[test]
fn tests_function_call_is_statement() {
    let node = CurryParser::parse(Rule::statement, r#"printf("Hello World!")"#)
        .unwrap()
        .unique_pair()
        .unwrap();
    let statement: Statement = Statement::try_from(&node).unwrap();
    match &statement.kind {
        StatementKind::FunctionCall(_pair) => {},
        other => panic!("unexpected stmt type {}", other.describe()),
    }
}

#[test]
fn cst_records_spans_and_text() {
    let node = parse_to_ast("greet = \"hi\"").unwrap();
    assert_eq!(node.rule, Rule::script);
    assert_eq!(node.children.len(), 2);
    let assign = &node.children[0];
    assert_eq!(assign.rule, Rule::assignment);
    assert_eq!((assign.start, assign.end), (0, 12));
    assert_eq!(assign.text, "greet = \"hi\"");
    assert_eq!(assign.children.len(), 2);
    assert_eq!(assign.children[0].rule, Rule::symbol_ref);
    assert_eq!(assign.children[0].text, "greet");
    assert_eq!(assign.children[1].rule, Rule::value);
    assert_eq!(assign.children[1].children[0].rule, Rule::string_literal);
    assert_eq!(assign.children[1].children[0].text, "\"hi\"");
    assert_eq!(node.children[1].rule, Rule::EOI);
}

#[test]
fn program_cst_lists_entry_and_declarations() {
    let node = parse_to_ast("entry greet\nfn greet() { printf(\"hi\") }").unwrap();
    assert_eq!(node.rule, Rule::program);
    assert_eq!(node.children.len(), 3);
    assert_eq!(node.children[0].rule, Rule::entry_definition);
    assert_eq!(node.children[0].children[0].text, "greet");
    assert_eq!(node.children[1].rule, Rule::function_declaration);
    assert_eq!(node.children[1].children[0].text, "greet");
    assert_eq!(node.children[1].children[1].rule, Rule::fn_params);
    assert_eq!(node.children[1].children[2].rule, Rule::fn_body);
    assert_eq!(node.children[1].children[2].children.len(), 1);
    assert_eq!(node.children[2].rule, Rule::EOI);
}

#[test]
fn unterminated_literal_never_yields_a_cst() {
    let err = parse_to_ast(r#"name = "unterminated"#).unwrap_err();
    match err {
        curry_lang::errors::CompileError::SyntaxError { offset, expected } => {
            assert_eq!(offset, 20);
            assert_eq!(expected, Rule::string_literal);
        },
        other => panic!("expected a syntax error, got {:?}", other),
    }
}

#[test]
fn unique_pair_requires_exactly_one() {
    let pairs = Pairs { nodes: vec![] };
    assert_eq!(
        pairs.unique_pair().unwrap_err(),
        IllegalSourceState::UniqueConstraintViolation
    );
}

#[test]
fn unique_inner_requires_exactly_one_child() {
    let node = CurryParser::parse(Rule::symbol_ref, "abc")
        .unwrap()
        .unique_pair()
        .unwrap();
    assert_eq!(
        node.unique_inner().unwrap_err(),
        IllegalSourceState::UniqueConstraintViolation
    );
}

#[test]
fn statement_from_wrong_rule_is_illegal() {
    let node = CurryParser::parse(Rule::symbol_ref, "abc")
        .unwrap()
        .unique_pair()
        .unwrap();
    let err = Statement::try_from(&node).unwrap_err();
    match err {
        InvalidParserState::IllegalSourceState(IllegalSourceState::IllegalRule {
            rule,
            context,
        }) => {
            assert_eq!(rule, Rule::symbol_ref);
            assert_eq!(context, "Tried to create statement");
        },
        other => panic!("expected an illegal rule, got {:?}", other),
    }
}

#[test]
fn illegal_rule_constructors_carry_the_rule() {
    let with_context = InvalidParserState::illegal_rule_with_context(
        Rule::value,
        String::from("somewhere"),
    );
    assert_eq!(
        with_context,
        IllegalSourceState::IllegalRule { rule: Rule::value, context: String::from("somewhere") }
    );
    let plain = InvalidParserState::illegal_rule(Rule::value);
    assert_eq!(
        plain,
        IllegalSourceState::IllegalRule { rule: Rule::value, context: String::new() }
    );
}
