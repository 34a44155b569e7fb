//! The AST layer: converts CST nodes into typed statements and expressions,
//! validating their shape. A node of the wrong rule, or with the wrong
//! number of children, is rejected with a structural error; conversion
//! never panics.
use vstd::prelude::*;
use crate::grammar::Rule;
use crate::grammar::SpecNode;
use crate::grammar::SyntaxNode;
use crate::grammar::node_view;
use crate::grammar::lemma_children_view;
use crate::errors::IllegalSourceState;
use crate::errors::IllegalSourceStateSpec;
use crate::errors::InvalidParserState;
use crate::parser::PNode;

verus! {

broadcast use vstd::std_specs::vec::axiom_vec_index_decreases, vstd::seq::axiom_seq_index_decreases;

/// A copy of a string with the same characters.
pub fn clone_string(s: &String) -> (r: String)
    ensures
        r@ == s@,
{
    String::from_str(s.as_str())
}

// ---------------------------------------------------------------------------
// AST data types and their models
// ---------------------------------------------------------------------------

/// Model of an expression.
#[verifier::ext_equal]
pub ghost enum ExprSpec {
    /// The raw text between the quotes of the literal, escapes undecoded.
    StringLiteral { raw: Seq<char> },
    VariableReference { name: Seq<char> },
    NestedCall { call: CallSpec },
}

/// Model of a function call: callee name and arguments in source order.
#[verifier::ext_equal]
pub ghost struct CallSpec {
    pub name: Seq<char>,
    pub args: Seq<ExprSpec>,
}

/// Model of an assignment: target name and right-hand expression.
#[verifier::ext_equal]
pub ghost struct AssignmentSpec {
    pub name: Seq<char>,
    pub expr: ExprSpec,
}

/// Model of a statement.
#[verifier::ext_equal]
pub ghost enum StmtSpec {
    Assignment { assign: AssignmentSpec },
    FunctionCall { call: CallSpec },
}

/// Model of a statement together with its source span.
#[verifier::ext_equal]
pub ghost struct StatementSpec {
    pub start: int,
    pub end: int,
    pub kind: StmtSpec,
}

/// A reference to a symbol by name.
#[derive(Debug, PartialEq, Eq)]
pub struct SymbolRef {
    pub name: String,
}

/// The raw text of a string literal, quotes stripped, escapes undecoded.
#[derive(Debug, PartialEq, Eq)]
pub struct StringValue {
    pub value: String,
}

/// An expression: a string literal, a variable reference, or a nested call.
#[derive(Debug, PartialEq, Eq)]
pub enum ExpressionNode {
    StringLiteral(StringValue),
    VariableReference(SymbolRef),
    NestedCall(FunctionCall),
}

/// A function call: callee and arguments in source order.
#[derive(Debug, PartialEq, Eq)]
pub struct FunctionCall {
    pub symbol_ref: SymbolRef,
    pub arguments: Vec<ExpressionNode>,
}

/// An assignment: target name and right-hand expression.
#[derive(Debug, PartialEq, Eq)]
pub struct Assignment {
    pub symbol_ref: SymbolRef,
    pub expression: ExpressionNode,
}

/// The half-open character span a statement covers in the source text.
#[derive(Clone, Copy, Debug, PartialEq, Eq, Structural)]
pub struct Span {
    pub start: usize,
    pub end: usize,
}

/// A statement: an assignment or a function call, with its source span.
#[derive(Debug, PartialEq, Eq)]
pub struct Statement {
    pub span: Span,
    pub kind: StatementKind,
}

/// The two statement forms of the language.
#[derive(Debug, PartialEq, Eq)]
pub enum StatementKind {
    Assignment(Assignment),
    FunctionCall(FunctionCall),
}

impl View for SymbolRef {
    type V = Seq<char>;

    open spec fn view(&self) -> Seq<char> {
        self.name@
    }
}

impl View for StringValue {
    type V = Seq<char>;

    open spec fn view(&self) -> Seq<char> {
        self.value@
    }
}

/// Model of an expression value.
pub open spec fn expr_view(e: ExpressionNode) -> ExprSpec
    decreases e, 2int, 0int,
{
    match e {
        ExpressionNode::StringLiteral(v) => ExprSpec::StringLiteral { raw: v.value@ },
        ExpressionNode::VariableReference(s) => ExprSpec::VariableReference { name: s.name@ },
        ExpressionNode::NestedCall(c) => ExprSpec::NestedCall { call: call_view(c) },
    }
}

/// Model of a function call value.
pub open spec fn call_view(c: FunctionCall) -> CallSpec
    decreases c, 1int, 0int,
{
    CallSpec { name: c.symbol_ref.name@, args: call_args_view(c, 0) }
}

/// Models of the arguments of `c` from index `i` on, in order.
pub open spec fn call_args_view(c: FunctionCall, i: int) -> Seq<ExprSpec>
    decreases c, 0int, c.arguments.len() - i,
    via call_args_view_dec
{
    if 0 <= i < c.arguments.len() {
        seq![expr_view(c.arguments[i])] + call_args_view(c, i + 1)
    } else {
        Seq::empty()
    }
}

#[via_fn]
proof fn call_args_view_dec(c: FunctionCall, i: int) {
    if 0 <= i < c.arguments.len() {
        assert(decreases_to!(c => c.arguments));
    }
}

/// `call_args_view(c, i)` holds one entry per argument from `i` on, each the
/// model of the corresponding argument.
pub proof fn lemma_call_args_view(c: FunctionCall, i: int)
    requires
        0 <= i <= c.arguments.len(),
    ensures
        call_args_view(c, i).len() == c.arguments.len() - i,
        forall|j: int|
            i <= j < c.arguments.len() ==> call_args_view(c, i)[j - i] == expr_view(
                c.arguments[j],
            ),
    decreases c.arguments.len() - i,
{
    if i < c.arguments.len() {
        lemma_call_args_view(c, i + 1);
    }
}

impl View for ExpressionNode {
    type V = ExprSpec;

    open spec fn view(&self) -> ExprSpec {
        expr_view(*self)
    }
}

impl View for FunctionCall {
    type V = CallSpec;

    open spec fn view(&self) -> CallSpec {
        call_view(*self)
    }
}

impl View for Assignment {
    type V = AssignmentSpec;

    open spec fn view(&self) -> AssignmentSpec {
        AssignmentSpec { name: self.symbol_ref.name@, expr: self.expression@ }
    }
}

impl View for StatementKind {
    type V = StmtSpec;

    open spec fn view(&self) -> StmtSpec {
        match self {
            StatementKind::Assignment(a) => StmtSpec::Assignment { assign: a@ },
            StatementKind::FunctionCall(c) => StmtSpec::FunctionCall { call: c@ },
        }
    }
}

impl View for Statement {
    type V = StatementSpec;

    open spec fn view(&self) -> StatementSpec {
        StatementSpec { start: self.span.start as int, end: self.span.end as int, kind: self.kind@ }
    }
}

impl StatementKind {
    /// The name of this statement form, for diagnostics.
    pub fn describe(&self) -> (r: String)
        ensures
            self matches StatementKind::Assignment(_) ==> r@ == "Assignment"@,
            self matches StatementKind::FunctionCall(_) ==> r@ == "FunctionCall"@,
    {
        match self {
            StatementKind::Assignment(_) => String::from_str("Assignment"),
            StatementKind::FunctionCall(_) => String::from_str("FunctionCall"),
        }
    }
}

// ---------------------------------------------------------------------------
// Conversion: CST node -> AST, specification
// ---------------------------------------------------------------------------

/// What reading a string value out of a CST `value` node returns: the raw
/// text between the quotes of its single string literal, escapes undecoded.
/// A `value` node must hold exactly one child (its concrete literal): no
/// child or several violate the unique-child constraint.
pub open spec fn spec_string_value_from(n: SpecNode) -> Result<Seq<char>, IllegalSourceStateSpec> {
    if n.children.len() != 1 {
        Err(IllegalSourceStateSpec::UniqueConstraintViolation)
    } else {
        let lit = n.children[0];
        if lit.rule == Rule::string_literal {
            if lit.text.len() >= 2 {
                Ok(lit.text.subrange(1, lit.text.len() - 1))
            } else {
                Err(IllegalSourceStateSpec::UniqueConstraintViolation)
            }
        } else {
            Err(
                IllegalSourceStateSpec::IllegalRule {
                    rule: lit.rule,
                    context: "expected string literal"@,
                },
            )
        }
    }
}

/// What converting a CST node into an expression returns. A `value` node
/// must hold exactly one string literal; a `symbol_ref` is a variable
/// reference; a `function_call` is a nested call; anything else is illegal
/// here.
pub open spec fn spec_expr_from(n: SpecNode) -> Result<ExprSpec, IllegalSourceStateSpec>
    decreases n, 1int, 0int,
{
    if n.rule == Rule::value {
        match spec_string_value_from(n) {
            Ok(raw) => Ok(ExprSpec::StringLiteral { raw }),
            Err(e) => Err(e),
        }
    } else if n.rule == Rule::symbol_ref {
        Ok(ExprSpec::VariableReference { name: n.text })
    } else if n.rule == Rule::function_call {
        match spec_call_from(n) {
            Ok(call) => Ok(ExprSpec::NestedCall { call }),
            Err(e) => Err(e),
        }
    } else {
        Err(IllegalSourceStateSpec::IllegalRule { rule: n.rule, context: "expected expression"@ })
    }
}

/// What converting a CST `function_call` node returns: its callee name and
/// its converted arguments, in source order.
pub open spec fn spec_call_from(n: SpecNode) -> Result<CallSpec, IllegalSourceStateSpec>
    decreases n, 0int, 0int,
    via spec_call_from_dec
{
    if n.rule != Rule::function_call {
        Err(
            IllegalSourceStateSpec::IllegalRule {
                rule: n.rule,
                context: "expected function call"@,
            },
        )
    } else if n.children.len() != 2 {
        Err(IllegalSourceStateSpec::UniqueConstraintViolation)
    } else if n.children[0].rule != Rule::symbol_ref {
        Err(
            IllegalSourceStateSpec::IllegalRule {
                rule: n.children[0].rule,
                context: "expected symbol"@,
            },
        )
    } else if n.children[1].rule != Rule::fn_args {
        Err(
            IllegalSourceStateSpec::IllegalRule {
                rule: n.children[1].rule,
                context: "expected arguments"@,
            },
        )
    } else {
        match spec_args_from(n.children[1].children, 0) {
            Ok(args) => Ok(CallSpec { name: n.children[0].text, args }),
            Err(e) => Err(e),
        }
    }
}

#[via_fn]
proof fn spec_call_from_dec(n: SpecNode) {
    if n.rule == Rule::function_call && n.children.len() == 2 {
        assert(decreases_to!(n => n.children));
        assert(decreases_to!(n.children => n.children[1]));
        assert(decreases_to!(n.children[1] => n.children[1].children));
    }
}

/// What converting a sequence of argument nodes (from index `i` on) returns:
/// the converted expressions in order, or the first conversion fault.
pub open spec fn spec_args_from(nodes: Seq<SpecNode>, i: int) -> Result<
    Seq<ExprSpec>,
    IllegalSourceStateSpec,
>
    decreases nodes, 2int, nodes.len() - i,
{
    if !(0 <= i < nodes.len()) {
        Ok(Seq::empty())
    } else {
        match spec_expr_from(nodes[i]) {
            Err(e) => Err(e),
            Ok(e) => match spec_args_from(nodes, i + 1) {
                Ok(rest) => Ok(seq![e] + rest),
                Err(e2) => Err(e2),
            },
        }
    }
}

/// What converting a CST `assignment` node returns: its target name and its
/// converted right-hand expression.
pub open spec fn spec_assignment_from(n: SpecNode) -> Result<
    AssignmentSpec,
    IllegalSourceStateSpec,
>
    decreases n, 2int, 0int,
{
    if n.rule != Rule::assignment {
        Err(
            IllegalSourceStateSpec::IllegalRule {
                rule: n.rule,
                context: "cst -> ast: assignment"@,
            },
        )
    } else if n.children.len() != 2 {
        Err(IllegalSourceStateSpec::UniqueConstraintViolation)
    } else if n.children[0].rule != Rule::symbol_ref {
        Err(
            IllegalSourceStateSpec::IllegalRule {
                rule: n.children[0].rule,
                context: "expected symbol"@,
            },
        )
    } else {
        match spec_expr_from(n.children[1]) {
            Ok(expr) => Ok(AssignmentSpec { name: n.children[0].text, expr }),
            Err(e) => Err(e),
        }
    }
}

/// What converting a CST node into a statement returns: only `assignment`
/// and `function_call` nodes are statements.
pub open spec fn spec_statement_from(n: SpecNode) -> Result<StatementSpec, IllegalSourceStateSpec>
    decreases n, 3int, 0int,
{
    if n.rule == Rule::assignment {
        match spec_assignment_from(n) {
            Ok(assign) => Ok(
                StatementSpec {
                    start: n.start,
                    end: n.end,
                    kind: StmtSpec::Assignment { assign },
                },
            ),
            Err(e) => Err(e),
        }
    } else if n.rule == Rule::function_call {
        match spec_call_from(n) {
            Ok(call) => Ok(
                StatementSpec {
                    start: n.start,
                    end: n.end,
                    kind: StmtSpec::FunctionCall { call },
                },
            ),
            Err(e) => Err(e),
        }
    } else {
        Err(
            IllegalSourceStateSpec::IllegalRule {
                rule: n.rule,
                context: "Tried to create statement"@,
            },
        )
    }
}

// ---------------------------------------------------------------------------
// Laws of the conversion
// ---------------------------------------------------------------------------

/// Converting an argument list yields exactly one expression per argument
/// node, each the conversion of the node in the same position.
pub proof fn lemma_args_from_order(nodes: Seq<SpecNode>, i: int, args: Seq<ExprSpec>)
    requires
        0 <= i <= nodes.len(),
        spec_args_from(nodes, i) == Ok::<Seq<ExprSpec>, IllegalSourceStateSpec>(args),
    ensures
        args.len() == nodes.len() - i,
        forall|j: int|
            i <= j < nodes.len() ==> (spec_expr_from(#[trigger] nodes[j]) matches Ok(e) && e
                == args[j - i]),
    decreases nodes.len() - i,
{
    if i < nodes.len() {
        match spec_expr_from(nodes[i]) {
            Ok(e) => match spec_args_from(nodes, i + 1) {
                Ok(rest) => {
                    lemma_args_from_order(nodes, i + 1, rest);
                },
                Err(_) => {},
            },
            Err(_) => {},
        }
    }
}

/// Converting a `function_call` node yields a call with the node's callee
/// name and exactly one argument per argument node, in source order.
pub proof fn lemma_call_conversion_order(n: SpecNode, call: CallSpec)
    requires
        spec_call_from(n) == Ok::<CallSpec, IllegalSourceStateSpec>(call),
    ensures
        n.rule == Rule::function_call,
        n.children.len() == 2,
        call.name == n.children[0].text,
        call.args.len() == n.children[1].children.len(),
        forall|j: int|
            0 <= j < call.args.len() ==> (spec_expr_from(
                #[trigger] n.children[1].children[j],
            ) matches Ok(e) && e == call.args[j]),
{
    match spec_args_from(n.children[1].children, 0) {
        Ok(args) => {
            lemma_args_from_order(n.children[1].children, 0, args);
        },
        Err(_) => {},
    }
}

/// A statement converted from a `function_call` node is a call statement
/// carrying the node's callee name and one argument per argument node of
/// the source, in source order.
pub proof fn lemma_statement_call_arity(n: SpecNode, st: StatementSpec)
    requires
        n.rule == Rule::function_call,
        spec_statement_from(n) == Ok::<StatementSpec, IllegalSourceStateSpec>(st),
    ensures
        st.kind matches StmtSpec::FunctionCall { call } && call.name == n.children[0].text
            && call.args.len() == n.children[1].children.len(),
{
    match spec_call_from(n) {
        Ok(call) => {
            lemma_call_conversion_order(n, call);
        },
        Err(_) => {},
    }
}

/// For every function call the parser accepts, conversion yields a call
/// statement with the parsed callee name and exactly one argument per
/// parsed argument node, in source order.
pub proof fn lemma_parsed_call_converts_in_order(s: Seq<char>, pos: int, st: StatementSpec)
    requires
        crate::parser::spec_parse_function_call(s, pos) matches PNode::Found { node, .. },
        spec_statement_from(crate::parser::spec_parse_function_call(s, pos)->Found_node) == Ok::<
            StatementSpec,
            IllegalSourceStateSpec,
        >(st),
    ensures
        ({
            let node = crate::parser::spec_parse_function_call(s, pos)->Found_node;
            st.kind matches StmtSpec::FunctionCall { call } && call.name == node.children[0].text
                && call.args.len() == node.children[1].children.len()
        }),
{
    crate::parser::lemma_parse_function_call_shape(s, pos);
    let node = crate::parser::spec_parse_function_call(s, pos)->Found_node;
    lemma_statement_call_arity(node, st);
}

/// The characters of a well-formed identifier: a letter, then letters,
/// digits and underscores.
pub open spec fn valid_ident(s: Seq<char>) -> bool {
    &&& s.len() >= 1
    &&& crate::parser::is_letter(s[0])
    &&& forall|i: int| 0 <= i < s.len() ==> crate::parser::is_ident_char(#[trigger] s[i])
}

/// The source text `ident = "lit"`.
pub open spec fn assignment_source(ident: Seq<char>, lit: Seq<char>) -> Seq<char> {
    ident + seq![' ', '=', ' ', '"'] + lit + seq!['"']
}

/// For every identifier `ident` and well-formed literal body `lit`,
/// parsing the statement `ident = "lit"` succeeds, consumes the whole
/// input, and its AST conversion is exactly one assignment whose name is
/// `ident` and whose expression is a string literal holding `lit` raw
/// (which escape decoding then maps to the literal's character data).
pub proof fn lemma_assignment_round_trip(ident: Seq<char>, lit: Seq<char>)
    requires
        valid_ident(ident),
        crate::parser::literal_body(lit),
    ensures
        ({
            let src = assignment_source(ident, lit);
            &&& crate::parser::spec_parse_statement(src, 0) matches PNode::Found { node, next }
            &&& crate::parser::spec_parse_statement(src, 0)->Found_next == src.len()
            &&& spec_statement_from(crate::parser::spec_parse_statement(src, 0)->Found_node)
                == Ok::<StatementSpec, IllegalSourceStateSpec>(
                StatementSpec {
                    start: 0,
                    end: src.len() as int,
                    kind: StmtSpec::Assignment {
                        assign: AssignmentSpec {
                            name: ident,
                            expr: ExprSpec::StringLiteral { raw: lit },
                        },
                    },
                },
            )
        }),
{
    let src = assignment_source(ident, lit);
    let ni = ident.len() as int;
    let nl = lit.len() as int;
    assert(src.len() == ni + nl + 5);
    assert forall|i: int| 0 <= i < src.len() implies #[trigger] src[i] == (if i < ni {
        ident[i]
    } else if i < ni + 4 {
        seq![' ', '=', ' ', '"'][i - ni]
    } else if i < ni + 4 + nl {
        lit[i - ni - 4]
    } else {
        '"'
    }) by {
        if i < ni + 4 {
            assert((ident + seq![' ', '=', ' ', '"'])[i] == (if i < ni {
                ident[i]
            } else {
                seq![' ', '=', ' ', '"'][i - ni]
            }));
        }
    }
    // the identifier token
    assert(crate::parser::is_letter(src[0]));
    assert(!crate::parser::is_ident_char(src[ni]));
    crate::parser::lemma_scan_ident_run(src, 1, ni);
    let name_node = SpecNode::leaf(Rule::symbol_ref, 0, ni, src);
    assert(crate::parser::spec_parse_symbol_ref(src, 0) == (PNode::Found {
        node: name_node,
        next: ni,
    }));
    // the equals sign, between single spaces
    crate::parser::lemma_skip_ws_run(src, ni, ni + 1);
    assert(src[ni + 1] == '=');
    crate::parser::lemma_skip_ws_run(src, ni + 2, ni + 3);
    // the string literal
    assert(src[ni + 3] == '"');
    assert(src.subrange(ni + 4, ni + 4 + nl) =~= lit);
    assert(src[ni + 4 + nl] == '"');
    crate::parser::lemma_scan_string_body(src, ni + 4, ni + 4 + nl);
    let lit_node = SpecNode::leaf(Rule::string_literal, ni + 3, src.len() as int, src);
    assert(crate::parser::spec_parse_string_literal(src, ni + 3) == (PNode::Found {
        node: lit_node,
        next: src.len() as int,
    }));
    let value_node = SpecNode {
        rule: Rule::value,
        start: ni + 3,
        end: src.len() as int,
        text: lit_node.text,
        children: seq![lit_node],
    };
    assert(crate::parser::spec_parse_expression(src, ni + 3) == (PNode::Found {
        node: value_node,
        next: src.len() as int,
    }));
    // the assignment node
    let assign_node = SpecNode {
        rule: Rule::assignment,
        start: 0,
        end: src.len() as int,
        text: src.subrange(0, src.len() as int),
        children: seq![name_node, value_node],
    };
    assert(crate::parser::spec_parse_assignment(src, 0) == (PNode::Found {
        node: assign_node,
        next: src.len() as int,
    }));
    assert(crate::parser::spec_parse_statement(src, 0) == (PNode::Found {
        node: assign_node,
        next: src.len() as int,
    }));
    // conversion back: the name and the raw literal content
    assert(name_node.text =~= ident);
    assert(lit_node.text.len() == nl + 2);
    assert(lit_node.text.subrange(1, nl + 1) =~= lit);
    assert(spec_string_value_from(value_node) == Ok::<Seq<char>, IllegalSourceStateSpec>(lit));
    assert(spec_statement_from(assign_node) == Ok::<StatementSpec, IllegalSourceStateSpec>(
        StatementSpec {
            start: 0,
            end: src.len() as int,
            kind: StmtSpec::Assignment {
                assign: AssignmentSpec { name: ident, expr: ExprSpec::StringLiteral { raw: lit } },
            },
        },
    ));
}

// ---------------------------------------------------------------------------
// Conversion: CST node -> AST, executable
// ---------------------------------------------------------------------------

/// The models of a sequence of expressions, in order.
pub open spec fn exprs_view(s: Seq<ExpressionNode>) -> Seq<ExprSpec> {
    Seq::new(s.len(), |i: int| s[i]@)
}

/// The executable expression conversion matches its model.
pub open spec fn matches_expr(
    r: Result<ExpressionNode, IllegalSourceState>,
    sp: Result<ExprSpec, IllegalSourceStateSpec>,
) -> bool {
    match r {
        Ok(e) => sp matches Ok(se) && se == e@,
        Err(f) => sp matches Err(fe) && fe == f@,
    }
}

/// The executable call conversion matches its model.
pub open spec fn matches_call(
    r: Result<FunctionCall, IllegalSourceState>,
    sp: Result<CallSpec, IllegalSourceStateSpec>,
) -> bool {
    match r {
        Ok(c) => sp matches Ok(sc) && sc == c@,
        Err(f) => sp matches Err(fe) && fe == f@,
    }
}

/// The executable argument-list conversion matches its model.
pub open spec fn matches_args(
    r: Result<Vec<ExpressionNode>, IllegalSourceState>,
    sp: Result<Seq<ExprSpec>, IllegalSourceStateSpec>,
) -> bool {
    match r {
        Ok(es) => sp matches Ok(ses) && ses == exprs_view(es@),
        Err(f) => sp matches Err(fe) && fe == f@,
    }
}

impl StringValue {
    /// Reads the string value out of a `value` node: the raw text between
    /// the quotes of its single string literal, escapes undecoded.
    pub fn try_from_value(node: &SyntaxNode) -> (r: Result<StringValue, IllegalSourceState>)
        ensures
            match r {
                Ok(v) => spec_string_value_from(node@) matches Ok(raw) && raw == v@,
                Err(f) => spec_string_value_from(node@) matches Err(fe) && fe == f@,
            },
    {
        proof {
            lemma_children_view(*node, 0);
        }
        if node.children.len() != 1 {
            Err(IllegalSourceState::UniqueConstraintViolation)
        } else {
            let lit = &node.children[0];
            if lit.rule == Rule::string_literal {
                let t = lit.text.as_str();
                let l = t.unicode_len();
                if l >= 2 {
                    let raw = t.substring_char(1, l - 1);
                    Ok(StringValue { value: String::from_str(raw) })
                } else {
                    Err(IllegalSourceState::UniqueConstraintViolation)
                }
            } else {
                Err(
                    IllegalSourceState::IllegalRule {
                        rule: lit.rule,
                        context: String::from_str("expected string literal"),
                    },
                )
            }
        }
    }
}

impl SymbolRef {
    /// Reads a symbol name out of a `symbol_ref` node.
    pub fn try_from(node: &SyntaxNode) -> (r: Result<SymbolRef, InvalidParserState>)
        ensures
            match r {
                Ok(s) => node@.rule == Rule::symbol_ref && s@ == node@.text,
                Err(f) => node@.rule != Rule::symbol_ref && f@
                    == (IllegalSourceStateSpec::IllegalRule {
                    rule: node@.rule,
                    context: Seq::empty(),
                }),
            },
    {
        if node.rule == Rule::symbol_ref {
            Ok(SymbolRef { name: clone_string(&node.text) })
        } else {
            Err(
                InvalidParserState::IllegalSourceState(
                    IllegalSourceState::IllegalRule { rule: node.rule, context: String::new() },
                ),
            )
        }
    }
}

impl ExpressionNode {
    /// Converts a CST node into an expression, as
    /// [`spec_expr_from`] says.
    pub fn try_from(node: &SyntaxNode) -> (r: Result<ExpressionNode, IllegalSourceState>)
        ensures
            matches_expr(r, spec_expr_from(node@)),
        decreases node, 2int, 0int,
    {
        if node.rule == Rule::value {
            match StringValue::try_from_value(node) {
                Ok(v) => Ok(ExpressionNode::StringLiteral(v)),
                Err(f) => Err(f),
            }
        } else if node.rule == Rule::symbol_ref {
            Ok(ExpressionNode::VariableReference(SymbolRef { name: clone_string(&node.text) }))
        } else if node.rule == Rule::function_call {
            match FunctionCall::try_from(node) {
                Ok(c) => Ok(ExpressionNode::NestedCall(c)),
                Err(f) => Err(f),
            }
        } else {
            Err(
                IllegalSourceState::IllegalRule {
                    rule: node.rule,
                    context: String::from_str("expected expression"),
                },
            )
        }
    }
}

/// Converts the argument nodes from index `i` on into expressions.
fn args_from_nodes(nodes: &Vec<SyntaxNode>, i: usize) -> (r: Result<
    Vec<ExpressionNode>,
    IllegalSourceState,
>)
    requires
        i <= nodes@.len(),
    ensures
        matches_args(r, spec_args_from(nodes_view(nodes@), i as int)),
    decreases nodes, 0int, nodes@.len() - i,
{
    if i >= nodes.len() {
        let empty: Vec<ExpressionNode> = Vec::new();
        proof {
            assert(exprs_view(empty@) =~= Seq::<ExprSpec>::empty());
        }
        Ok(empty)
    } else {
        match ExpressionNode::try_from(&nodes[i]) {
            Err(f) => Err(f),
            Ok(e) => match args_from_nodes(nodes, i + 1) {
                Err(f) => Err(f),
                Ok(mut rest) => {
                    proof {
                        assert(exprs_view(rest@.insert(0, e)) =~= seq![e@] + exprs_view(rest@));
                    }
                    rest.insert(0, e);
                    Ok(rest)
                },
            },
        }
    }
}

impl FunctionCall {
    /// Converts a CST `function_call` node into a call, as
    /// [`spec_call_from`] says.
    pub fn try_from(node: &SyntaxNode) -> (r: Result<FunctionCall, IllegalSourceState>)
        ensures
            matches_call(r, spec_call_from(node@)),
        decreases node, 1int, 0int,
    {
        proof {
            lemma_children_view(*node, 0);
        }
        if node.rule != Rule::function_call {
            Err(
                IllegalSourceState::IllegalRule {
                    rule: node.rule,
                    context: String::from_str("expected function call"),
                },
            )
        } else if node.children.len() != 2 {
            Err(IllegalSourceState::UniqueConstraintViolation)
        } else if node.children[0].rule != Rule::symbol_ref {
            Err(
                IllegalSourceState::IllegalRule {
                    rule: node.children[0].rule,
                    context: String::from_str("expected symbol"),
                },
            )
        } else if node.children[1].rule != Rule::fn_args {
            Err(
                IllegalSourceState::IllegalRule {
                    rule: node.children[1].rule,
                    context: String::from_str("expected arguments"),
                },
            )
        } else {
            let arg_nodes = &node.children[1].children;
            proof {
                lemma_children_view(node.children[1], 0);
                assert(node.children[1]@.children =~= nodes_view(node.children[1].children@));
            }
            match args_from_nodes(arg_nodes, 0) {
                Err(f) => Err(f),
                Ok(arguments) => {
                    let symbol_ref = SymbolRef { name: clone_string(&node.children[0].text) };
                    let call = FunctionCall { symbol_ref, arguments };
                    proof {
                        lemma_call_args_view(call, 0);
                        assert(call_args_view(call, 0) =~= exprs_view(call.arguments@));
                        assert(call@ =~= (CallSpec {
                            name: node@.children[0].text,
                            args: exprs_view(call.arguments@),
                        }));
                    }
                    Ok(call)
                },
            }
        }
    }
}

/// The models of a sequence of CST nodes, in order.
pub open spec fn nodes_view(ns: Seq<SyntaxNode>) -> Seq<SpecNode> {
    Seq::new(ns.len(), |i: int| node_view(ns[i]))
}

impl Assignment {
    /// Converts a CST `assignment` node into an assignment, as
    /// [`spec_assignment_from`] says.
    pub fn try_from(node: &SyntaxNode) -> (r: Result<Assignment, InvalidParserState>)
        ensures
            match r {
                Ok(a) => spec_assignment_from(node@) matches Ok(sa) && sa == a@,
                Err(f) => spec_assignment_from(node@) matches Err(fe) && fe == f@,
            },
    {
        proof {
            lemma_children_view(*node, 0);
        }
        if node.rule != Rule::assignment {
            Err(
                InvalidParserState::IllegalSourceState(
                    IllegalSourceState::IllegalRule {
                        rule: node.rule,
                        context: String::from_str("cst -> ast: assignment"),
                    },
                ),
            )
        } else if node.children.len() != 2 {
            Err(
                InvalidParserState::IllegalSourceState(
                    IllegalSourceState::UniqueConstraintViolation,
                ),
            )
        } else if node.children[0].rule != Rule::symbol_ref {
            Err(
                InvalidParserState::IllegalSourceState(
                    IllegalSourceState::IllegalRule {
                        rule: node.children[0].rule,
                        context: String::from_str("expected symbol"),
                    },
                ),
            )
        } else {
            match ExpressionNode::try_from(&node.children[1]) {
                Err(f) => Err(InvalidParserState::IllegalSourceState(f)),
                Ok(expression) => {
                    let symbol_ref = SymbolRef { name: clone_string(&node.children[0].text) };
                    Ok(Assignment { symbol_ref, expression })
                },
            }
        }
    }
}

impl Statement {
    /// Converts a CST node into a statement, as
    /// [`spec_statement_from`] says: only `assignment` and `function_call`
    /// nodes are statements.
    pub fn try_from(node: &SyntaxNode) -> (r: Result<Statement, InvalidParserState>)
        ensures
            match r {
                Ok(st) => spec_statement_from(node@) matches Ok(ss) && ss == st@,
                Err(f) => spec_statement_from(node@) matches Err(fe) && fe == f@,
            },
    {
        if node.rule == Rule::assignment {
            match Assignment::try_from(node) {
                Err(f) => Err(f),
                Ok(a) => Ok(
                    Statement {
                        span: Span { start: node.start, end: node.end },
                        kind: StatementKind::Assignment(a),
                    },
                ),
            }
        } else if node.rule == Rule::function_call {
            match FunctionCall::try_from(node) {
                Err(f) => Err(InvalidParserState::IllegalSourceState(f)),
                Ok(c) => Ok(
                    Statement {
                        span: Span { start: node.start, end: node.end },
                        kind: StatementKind::FunctionCall(c),
                    },
                ),
            }
        } else {
            Err(
                InvalidParserState::IllegalSourceState(
                    IllegalSourceState::IllegalRule {
                        rule: node.rule,
                        context: String::from_str("Tried to create statement"),
                    },
                ),
            )
        }
    }
}

} // verus!
