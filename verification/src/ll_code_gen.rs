//! The code generator: walks the AST and emits IR. One module is produced
//! per compilation unit; each function is opened, populated in statement
//! order, and sealed with an explicit return. Per-function symbol state
//! lives in a symbol table that is discarded when the function is sealed.
//! A unit that fails anywhere leaves the generator's module list unchanged:
//! no partial module is ever surfaced.
use vstd::prelude::*;
use crate::ast::AssignmentSpec;
use crate::ast::CallSpec;
use crate::ast::ExprSpec;
use crate::ast::ExpressionNode;
use crate::ast::FunctionCall;
use crate::ast::Statement;
use crate::ast::StatementKind;
use crate::ast::StatementSpec;
use crate::ast::StmtSpec;
use crate::ast::spec_statement_from;
use crate::errors::CompileError;
use crate::errors::CompileErrorSpec;
use crate::errors::IllegalSourceState;
use crate::errors::IllegalSourceStateSpec;
use crate::errors::InvalidParserState;
use crate::escape::spec_decode;
use crate::escape::decode_user_string;
use crate::grammar::Rule;
use crate::grammar::SpecNode;
use crate::grammar::SyntaxNode;
use crate::grammar::lemma_children_view;
use crate::ir::ArgSpec;
use crate::ir::ArgValue;
use crate::ir::DeclSpec;
use crate::ir::Declaration;
use crate::ir::Function;
use crate::ir::FunctionSpec;
use crate::ir::InstrSpec;
use crate::ir::Instruction;
use crate::ir::Module;
use crate::ir::ModuleSpec;
use crate::parser::PNode;
use crate::parser::parse_to_ast;
use crate::parser::spec_parse_to_ast;
use crate::symbol_table::SymbolTable;
use crate::text::strings_equal;
use crate::ast::clone_string;
use crate::ast::StringValue;

verus! {

// ---------------------------------------------------------------------------
// Specification of code generation
// ---------------------------------------------------------------------------

/// The state of one function's generation pass: the names bound so far with
/// their storage slots, the number of slots allocated, and the instructions
/// emitted.
#[verifier::ext_equal]
pub ghost struct GenState {
    pub symbols: Map<Seq<char>, int>,
    pub slots: int,
    pub body: Seq<InstrSpec>,
}

impl GenState {
    /// The state a function's generation starts from.
    pub open spec fn init() -> GenState {
        GenState { symbols: Map::empty(), slots: 0, body: Seq::empty() }
    }
}

/// The callee names a function's calls may resolve against.
pub open spec fn spec_resolves(known: Seq<Seq<char>>, name: Seq<char>) -> bool {
    exists|i: int| 0 <= i < known.len() && known[i] == name
}

/// The model of the one builtin: variadic formatted output, taking a
/// pointer-to-characters format argument and returning nothing.
pub open spec fn spec_printf_decl() -> DeclSpec {
    DeclSpec { name: "printf"@, variadic: true }
}

/// What evaluating an expression to an argument value returns. A string
/// literal becomes the address of a constant holding its decoded
/// characters; a variable reference becomes the address stored for it, and
/// is rejected if the name is unknown; a nested call has no
/// code-generation rule yet.
pub open spec fn spec_gen_arg(e: ExprSpec, symbols: Map<Seq<char>, int>) -> Result<
    ArgSpec,
    CompileErrorSpec,
> {
    match e {
        ExprSpec::StringLiteral { raw } => Ok(ArgSpec::ConstString { chars: spec_decode(raw) }),
        ExprSpec::VariableReference { name } => {
            if symbols.contains_key(name) {
                Ok(ArgSpec::Ptr { slot: symbols[name] })
            } else {
                Err(CompileErrorSpec::UndefinedSymbol { name })
            }
        },
        ExprSpec::NestedCall { .. } => Err(CompileErrorSpec::UnsupportedConstruct),
    }
}

/// What evaluating the arguments from index `i` on returns, left to right.
pub open spec fn spec_gen_args(args: Seq<ExprSpec>, i: int, symbols: Map<Seq<char>, int>) -> Result<
    Seq<ArgSpec>,
    CompileErrorSpec,
>
    decreases args.len() - i,
{
    if !(0 <= i < args.len()) {
        Ok(Seq::empty())
    } else {
        match spec_gen_arg(args[i], symbols) {
            Err(e) => Err(e),
            Ok(a) => match spec_gen_args(args, i + 1, symbols) {
                Ok(rest) => Ok(seq![a] + rest),
                Err(e) => Err(e),
            },
        }
    }
}

/// What emitting a function call returns: the callee is resolved first
/// against the known names, then the arguments are evaluated left to right.
pub open spec fn spec_gen_call(
    call: CallSpec,
    symbols: Map<Seq<char>, int>,
    known: Seq<Seq<char>>,
) -> Result<InstrSpec, CompileErrorSpec> {
    if !spec_resolves(known, call.name) {
        Err(CompileErrorSpec::UndefinedSymbol { name: call.name })
    } else {
        match spec_gen_args(call.args, 0, symbols) {
            Ok(args) => Ok(InstrSpec::Call { callee: call.name, args }),
            Err(e) => Err(e),
        }
    }
}

/// What emitting one statement does to the generation state. An assignment
/// whose target is already bound is a duplicate definition; one whose
/// right-hand side is a string literal allocates the next slot, stores the
/// decoded characters, and binds the name; any other right-hand side has no
/// code-generation rule yet.
pub open spec fn spec_gen_statement(kind: StmtSpec, st: GenState, known: Seq<Seq<char>>) -> Result<
    GenState,
    CompileErrorSpec,
> {
    match kind {
        StmtSpec::Assignment { assign } => {
            if st.symbols.contains_key(assign.name) {
                Err(CompileErrorSpec::DuplicateDefinition { name: assign.name })
            } else {
                match assign.expr {
                    ExprSpec::StringLiteral { raw } => Ok(
                        GenState {
                            symbols: st.symbols.insert(assign.name, st.slots),
                            slots: st.slots + 1,
                            body: st.body + seq![
                                InstrSpec::Alloca { name: assign.name },
                                InstrSpec::Store { slot: st.slots, chars: spec_decode(raw) },
                            ],
                        },
                    ),
                    _ => Err(CompileErrorSpec::UnsupportedConstruct),
                }
            }
        },
        StmtSpec::FunctionCall { call } => {
            match spec_gen_call(call, st.symbols, known) {
                Ok(instr) => Ok(GenState { body: st.body.push(instr), ..st }),
                Err(e) => Err(e),
            }
        },
    }
}

/// What emitting the statements from index `i` on does to the state, in
/// source order.
pub open spec fn spec_gen_statements(
    stmts: Seq<StmtSpec>,
    i: int,
    st: GenState,
    known: Seq<Seq<char>>,
) -> Result<GenState, CompileErrorSpec>
    decreases stmts.len() - i,
{
    if !(0 <= i < stmts.len()) {
        Ok(st)
    } else {
        match spec_gen_statement(stmts[i], st, known) {
            Err(e) => Err(e),
            Ok(st2) => spec_gen_statements(stmts, i + 1, st2, known),
        }
    }
}

/// What generating a whole function returns: its statements emitted in
/// order into the entry block, then the terminating return.
pub open spec fn spec_gen_function(
    name: Seq<char>,
    stmts: Seq<StmtSpec>,
    known: Seq<Seq<char>>,
) -> Result<FunctionSpec, CompileErrorSpec> {
    match spec_gen_statements(stmts, 0, GenState::init(), known) {
        Ok(st) => Ok(FunctionSpec { name, body: st.body.push(InstrSpec::Ret) }),
        Err(e) => Err(e),
    }
}

/// The names a function generated into module `m` under the name `fname`
/// may call: the builtins, the functions completed so far, and itself.
pub open spec fn known_of(m: ModuleSpec, fname: Seq<char>) -> Seq<Seq<char>> {
    m.builtins.map_values(|d: DeclSpec| d.name) + m.functions.map_values(|f: FunctionSpec| f.name)
        + seq![fname]
}

/// Some function of the sequence bears this name.
pub open spec fn has_fn(funcs: Seq<FunctionSpec>, name: Seq<char>) -> bool {
    exists|i: int| 0 <= i < funcs.len() && funcs[i].name == name
}

/// The statement kinds of a sequence of statements.
pub open spec fn stmt_kinds(stmts: Seq<StatementSpec>) -> Seq<StmtSpec> {
    stmts.map_values(|s: StatementSpec| s.kind)
}

/// What converting the children of a `script` node (or a function body)
/// into statements returns: end-of-input markers are skipped; a conversion
/// fault is a structural error.
pub open spec fn spec_statements_from_children(children: Seq<SpecNode>, i: int) -> Result<
    Seq<StatementSpec>,
    CompileErrorSpec,
>
    decreases children.len() - i,
{
    if !(0 <= i < children.len()) {
        Ok(Seq::empty())
    } else if children[i].rule == Rule::EOI {
        spec_statements_from_children(children, i + 1)
    } else {
        match spec_statement_from(children[i]) {
            Err(state) => Err(CompileErrorSpec::StructuralError { state }),
            Ok(st) => match spec_statements_from_children(children, i + 1) {
                Ok(rest) => Ok(seq![st] + rest),
                Err(e) => Err(e),
            },
        }
    }
}

/// The module a script compiles to, before its one function is generated:
/// named `main`, with the builtin declared.
pub open spec fn spec_empty_module() -> ModuleSpec {
    ModuleSpec { name: "main"@, builtins: seq![spec_printf_decl()], functions: Seq::empty() }
}

/// What compiling a script's statements returns: exactly one module with
/// exactly one function, `main`, holding the statements in source order
/// and a terminating return.
pub open spec fn spec_compile_script_module(stmts: Seq<StmtSpec>) -> Result<
    ModuleSpec,
    CompileErrorSpec,
> {
    match spec_gen_function("main"@, stmts, known_of(spec_empty_module(), "main"@)) {
        Ok(f) => Ok(ModuleSpec { functions: seq![f], ..spec_empty_module() }),
        Err(e) => Err(e),
    }
}

/// What processing one `function_declaration` node returns, given the
/// functions completed so far: a name clashing with the builtin or an
/// earlier function is a duplicate definition; otherwise the body's
/// statements are converted and the function generated.
pub open spec fn spec_process_decl(n: SpecNode, m: ModuleSpec) -> Result<
    FunctionSpec,
    CompileErrorSpec,
> {
    if n.children.len() != 3 {
        Err(
            CompileErrorSpec::StructuralError {
                state: IllegalSourceStateSpec::UniqueConstraintViolation,
            },
        )
    } else {
        let name = n.children[0].text;
        if name == "printf"@ || has_fn(m.functions, name) {
            Err(CompileErrorSpec::DuplicateDefinition { name })
        } else {
            match spec_statements_from_children(n.children[2].children, 0) {
                Err(e) => Err(e),
                Ok(stmts) => spec_gen_function(name, stmt_kinds(stmts), known_of(m, name)),
            }
        }
    }
}

/// What walking a `program` node's children from index `i` on returns: the
/// entry name, if one was defined, and the functions generated so far. A
/// second entry definition is a duplicate definition.
pub open spec fn spec_program_items(
    children: Seq<SpecNode>,
    i: int,
    entry: Option<Seq<char>>,
    m: ModuleSpec,
) -> Result<(Option<Seq<char>>, ModuleSpec), CompileErrorSpec>
    decreases children.len() - i,
{
    if !(0 <= i < children.len()) {
        Ok((entry, m))
    } else {
        let c = children[i];
        if c.rule == Rule::EOI {
            spec_program_items(children, i + 1, entry, m)
        } else if c.rule == Rule::entry_definition {
            if c.children.len() != 1 {
                Err(
                    CompileErrorSpec::StructuralError {
                        state: IllegalSourceStateSpec::UniqueConstraintViolation,
                    },
                )
            } else {
                let name = c.children[0].text;
                match entry {
                    Some(_) => Err(CompileErrorSpec::DuplicateDefinition { name }),
                    None => spec_program_items(children, i + 1, Some(name), m),
                }
            }
        } else if c.rule == Rule::function_declaration {
            match spec_process_decl(c, m) {
                Err(e) => Err(e),
                Ok(f) => spec_program_items(
                    children,
                    i + 1,
                    entry,
                    ModuleSpec { functions: m.functions.push(f), ..m },
                ),
            }
        } else {
            Err(
                CompileErrorSpec::StructuralError {
                    state: IllegalSourceStateSpec::IllegalRule {
                        rule: c.rule,
                        context: "unexpected program item"@,
                    },
                },
            )
        }
    }
}

/// The synthesized `main` of a program: a single call to the entry
/// function, then the terminating return.
pub open spec fn spec_program_main(entry: Seq<char>) -> FunctionSpec {
    FunctionSpec {
        name: "main"@,
        body: seq![
            InstrSpec::Call { callee: entry, args: Seq::empty() },
            InstrSpec::Ret,
        ],
    }
}

/// What compiling a `program` node returns. After the walk: no entry
/// definition is a missing entry; an entry naming no declared function is
/// an undefined symbol; a declared function named `main` collides with the
/// synthesized one; otherwise `main` is synthesized last.
pub open spec fn spec_compile_program_module(n: SpecNode) -> Result<ModuleSpec, CompileErrorSpec> {
    match spec_program_items(n.children, 0, None, spec_empty_module()) {
        Err(e) => Err(e),
        Ok((entry_opt, m)) => match entry_opt {
            None => Err(CompileErrorSpec::MissingEntry),
            Some(entry) => {
                if !has_fn(m.functions, entry) {
                    Err(CompileErrorSpec::UndefinedSymbol { name: entry })
                } else if has_fn(m.functions, "main"@) {
                    Err(CompileErrorSpec::DuplicateDefinition { name: "main"@ })
                } else {
                    Ok(ModuleSpec { functions: m.functions.push(spec_program_main(entry)), ..m })
                }
            },
        },
    }
}

/// What compiling one source text returns: text to CST to AST to IR, each
/// stage's faults surfacing as its own error kind.
pub open spec fn spec_compile_source(s: Seq<char>) -> Result<ModuleSpec, CompileErrorSpec> {
    match spec_parse_to_ast(s) {
        PNode::Fail { at, expected } => Err(CompileErrorSpec::SyntaxError { offset: at, expected }),
        PNode::Found { node, .. } => {
            if node.rule == Rule::script {
                match spec_statements_from_children(node.children, 0) {
                    Err(e) => Err(e),
                    Ok(stmts) => spec_compile_script_module(stmt_kinds(stmts)),
                }
            } else if node.rule == Rule::program {
                spec_compile_program_module(node)
            } else {
                Err(
                    CompileErrorSpec::StructuralError {
                        state: IllegalSourceStateSpec::IllegalRule {
                            rule: node.rule,
                            context: "expected script or program"@,
                        },
                    },
                )
            }
        },
    }
}

// ---------------------------------------------------------------------------
// Laws of code generation
// ---------------------------------------------------------------------------

/// Emitting one statement never unbinds a name: every name bound before
/// stays bound, at the same slot.
pub proof fn lemma_gen_statement_monotone(
    kind: StmtSpec,
    st: GenState,
    st2: GenState,
    known: Seq<Seq<char>>,
)
    requires
        spec_gen_statement(kind, st, known) == Ok::<GenState, CompileErrorSpec>(st2),
    ensures
        forall|k: Seq<char>|
            st.symbols.contains_key(k) ==> #[trigger] st2.symbols.contains_key(k)
                && st2.symbols[k] == st.symbols[k],
{
}

/// Emitting a sequence of statements never unbinds a name.
pub proof fn lemma_gen_statements_monotone(
    stmts: Seq<StmtSpec>,
    i: int,
    st: GenState,
    st2: GenState,
    known: Seq<Seq<char>>,
)
    requires
        spec_gen_statements(stmts, i, st, known) == Ok::<GenState, CompileErrorSpec>(st2),
    ensures
        forall|k: Seq<char>|
            st.symbols.contains_key(k) ==> #[trigger] st2.symbols.contains_key(k)
                && st2.symbols[k] == st.symbols[k],
    decreases stmts.len() - i,
{
    if 0 <= i < stmts.len() {
        let mid = spec_gen_statement(stmts[i], st, known);
        match mid {
            Ok(stm) => {
                lemma_gen_statement_monotone(stmts[i], st, stm, known);
                lemma_gen_statements_monotone(stmts, i + 1, stm, st2, known);
            },
            Err(_) => {},
        }
    }
}

/// Within one function body, assigning a name a second time is rejected
/// with a duplicate-definition error carrying that name, whatever the two
/// assigned expressions are and whatever statements stand in between.
pub proof fn lemma_duplicate_assignment_rejected(
    name: Seq<char>,
    e1: ExprSpec,
    e2: ExprSpec,
    st: GenState,
    st1: GenState,
    st2: GenState,
    mid: Seq<StmtSpec>,
    known: Seq<Seq<char>>,
)
    requires
        spec_gen_statement(
            StmtSpec::Assignment { assign: AssignmentSpec { name, expr: e1 } },
            st,
            known,
        ) == Ok::<GenState, CompileErrorSpec>(st1),
        spec_gen_statements(mid, 0, st1, known) == Ok::<GenState, CompileErrorSpec>(st2),
    ensures
        spec_gen_statement(
            StmtSpec::Assignment { assign: AssignmentSpec { name, expr: e2 } },
            st2,
            known,
        ) == Err::<GenState, CompileErrorSpec>(CompileErrorSpec::DuplicateDefinition { name }),
{
    assert(st1.symbols.contains_key(name));
    lemma_gen_statements_monotone(mid, 0, st1, st2, known);
}

/// A variable reference to a name never bound in the scope fails as an
/// undefined symbol; one to a bound name succeeds and yields a pointer to
/// the slot bound to it — exactly one of the two.
pub proof fn lemma_variable_reference(name: Seq<char>, symbols: Map<Seq<char>, int>)
    ensures
        !symbols.contains_key(name) ==> spec_gen_arg(
            ExprSpec::VariableReference { name },
            symbols,
        ) == Err::<ArgSpec, CompileErrorSpec>(CompileErrorSpec::UndefinedSymbol { name }),
        symbols.contains_key(name) ==> spec_gen_arg(ExprSpec::VariableReference { name }, symbols)
            == Ok::<ArgSpec, CompileErrorSpec>(ArgSpec::Ptr { slot: symbols[name] }),
{
}

/// After an assignment of a literal to a name, referencing that name
/// yields the address of the slot the assignment allocated — the slot the
/// decoded literal characters were stored into by the instruction the
/// assignment emitted.
pub proof fn lemma_assignment_then_reference(
    name: Seq<char>,
    raw: Seq<char>,
    st: GenState,
    st1: GenState,
    known: Seq<Seq<char>>,
)
    requires
        spec_gen_statement(
            StmtSpec::Assignment {
                assign: AssignmentSpec { name, expr: ExprSpec::StringLiteral { raw } },
            },
            st,
            known,
        ) == Ok::<GenState, CompileErrorSpec>(st1),
    ensures
        spec_gen_arg(ExprSpec::VariableReference { name }, st1.symbols) == Ok::<
            ArgSpec,
            CompileErrorSpec,
        >(ArgSpec::Ptr { slot: st.slots }),
        st1.body.last() == (InstrSpec::Store { slot: st.slots, chars: spec_decode(raw) }),
{
    assert(st1.symbols == st.symbols.insert(name, st.slots));
}

/// A walk that meets no entry definition keeps whatever entry it started
/// with.
proof fn lemma_no_entry_keeps_entry(
    children: Seq<SpecNode>,
    i: int,
    entry: Option<Seq<char>>,
    m: ModuleSpec,
)
    requires
        forall|k: int| i <= k < children.len() ==> children[k].rule != Rule::entry_definition,
    ensures
        spec_program_items(children, i, entry, m) matches Ok(pair) ==> pair.0 == entry,
    decreases children.len() - i,
{
    if 0 <= i < children.len() {
        if children[i].rule == Rule::EOI {
            lemma_no_entry_keeps_entry(children, i + 1, entry, m);
        } else if children[i].rule == Rule::function_declaration {
            match spec_process_decl(children[i], m) {
                Ok(f) => lemma_no_entry_keeps_entry(
                    children,
                    i + 1,
                    entry,
                    ModuleSpec { functions: m.functions.push(f), ..m },
                ),
                Err(_) => {},
            }
        }
    }
}

/// A program none of whose items is an entry definition fails with
/// `MissingEntry` — provided its declarations themselves generate, which
/// is what the premise on the walk says.
pub proof fn lemma_missing_entry(n: SpecNode)
    requires
        forall|k: int| 0 <= k < n.children.len() ==> n.children[k].rule != Rule::entry_definition,
        spec_program_items(n.children, 0, None, spec_empty_module()) is Ok,
    ensures
        spec_compile_program_module(n) == Err::<ModuleSpec, CompileErrorSpec>(
            CompileErrorSpec::MissingEntry,
        ),
{
    lemma_no_entry_keeps_entry(n.children, 0, None, spec_empty_module());
}

/// Once an entry is on record, a walk that still has an entry definition
/// ahead of it cannot succeed: the second definition is rejected.
proof fn lemma_entry_again_rejects(children: Seq<SpecNode>, i: int, entry: Seq<char>, m: ModuleSpec)
    requires
        0 <= i,
        exists|k: int| i <= k < children.len() && children[k].rule == Rule::entry_definition,
    ensures
        !(spec_program_items(children, i, Some(entry), m) is Ok),
    decreases children.len() - i,
{
    let k = choose|k: int| i <= k < children.len() && children[k].rule == Rule::entry_definition;
    if children[i].rule == Rule::EOI {
        assert(i + 1 <= k < children.len() && children[k].rule == Rule::entry_definition);
        lemma_entry_again_rejects(children, i + 1, entry, m);
    } else if children[i].rule == Rule::entry_definition {
    } else if children[i].rule == Rule::function_declaration {
        assert(i + 1 <= k < children.len() && children[k].rule == Rule::entry_definition);
        match spec_process_decl(children[i], m) {
            Ok(f) => lemma_entry_again_rejects(
                children,
                i + 1,
                entry,
                ModuleSpec { functions: m.functions.push(f), ..m },
            ),
            Err(_) => {},
        }
    }
}

/// A walk with two entry definitions ahead of it cannot succeed.
proof fn lemma_two_entries_reject(
    children: Seq<SpecNode>,
    i: int,
    a: int,
    b: int,
    entry: Option<Seq<char>>,
    m: ModuleSpec,
)
    requires
        0 <= i <= a < b < children.len(),
        children[a].rule == Rule::entry_definition,
        children[b].rule == Rule::entry_definition,
    ensures
        !(spec_program_items(children, i, entry, m) is Ok),
    decreases children.len() - i,
{
    if entry is Some {
        assert(i <= a < children.len() && children[a].rule == Rule::entry_definition);
        assert(entry == Some(entry->0));
        lemma_entry_again_rejects(children, i, entry->0, m);
    } else if i < a {
        if children[i].rule == Rule::EOI {
            lemma_two_entries_reject(children, i + 1, a, b, entry, m);
        } else if children[i].rule == Rule::entry_definition {
            if children[i].children.len() == 1 {
                assert(i + 1 <= a < children.len() && children[a].rule
                    == Rule::entry_definition);
                lemma_entry_again_rejects(children, i + 1, children[i].children[0].text, m);
            }
        } else if children[i].rule == Rule::function_declaration {
            match spec_process_decl(children[i], m) {
                Ok(f) => lemma_two_entries_reject(
                    children,
                    i + 1,
                    a,
                    b,
                    entry,
                    ModuleSpec { functions: m.functions.push(f), ..m },
                ),
                Err(_) => {},
            }
        }
    } else {
        if children[i].children.len() == 1 {
            assert(i + 1 <= b < children.len() && children[b].rule == Rule::entry_definition);
            lemma_entry_again_rejects(children, i + 1, children[i].children[0].text, m);
        }
    }
}

/// A program with two (or more) entry definitions never compiles: the
/// second one is rejected as a duplicate definition.
pub proof fn lemma_duplicate_entry_rejected(n: SpecNode, a: int, b: int)
    requires
        0 <= a < b < n.children.len(),
        n.children[a].rule == Rule::entry_definition,
        n.children[b].rule == Rule::entry_definition,
    ensures
        !(spec_compile_program_module(n) is Ok),
{
    lemma_two_entries_reject(n.children, 0, a, b, None, spec_empty_module());
}

/// A program that compiles ends in a synthesized `main` holding exactly
/// one instruction besides its return: a call, with no arguments, to an
/// entry function that stands among the declared functions before `main`.
pub proof fn lemma_program_main_shape(n: SpecNode, m: ModuleSpec)
    requires
        spec_compile_program_module(n) == Ok::<ModuleSpec, CompileErrorSpec>(m),
    ensures
        m.functions.len() >= 1,
        exists|e: Seq<char>|
            m.functions.last() == spec_program_main(e) && has_fn(m.functions.drop_last(), e),
{
    match spec_program_items(n.children, 0, None, spec_empty_module()) {
        Ok((entry_opt, mw)) => {
            let e = entry_opt->0;
            assert(m.functions.drop_last() =~= mw.functions);
            assert(m.functions.last() == spec_program_main(e) && has_fn(
                m.functions.drop_last(),
                e,
            ));
        },
        Err(_) => {},
    }
}

/// Statement emission never produces a return: that is the seal's doing.
proof fn lemma_gen_statements_no_ret(
    stmts: Seq<StmtSpec>,
    i: int,
    st: GenState,
    st2: GenState,
    known: Seq<Seq<char>>,
)
    requires
        spec_gen_statements(stmts, i, st, known) == Ok::<GenState, CompileErrorSpec>(st2),
        forall|k: int| 0 <= k < st.body.len() ==> st.body[k] != InstrSpec::Ret,
    ensures
        forall|k: int| 0 <= k < st2.body.len() ==> st2.body[k] != InstrSpec::Ret,
    decreases stmts.len() - i,
{
    if 0 <= i < stmts.len() {
        match spec_gen_statement(stmts[i], st, known) {
            Ok(stm) => {
                assert(forall|k: int| 0 <= k < stm.body.len() ==> stm.body[k] != InstrSpec::Ret);
                lemma_gen_statements_no_ret(stmts, i + 1, stm, st2, known);
            },
            Err(_) => {},
        }
    }
}

/// Every function the generator produces is structurally valid: its entry
/// block is terminated by its final return and by nothing before it.
pub proof fn lemma_gen_function_wf(
    name: Seq<char>,
    stmts: Seq<StmtSpec>,
    known: Seq<Seq<char>>,
    f: FunctionSpec,
)
    requires
        spec_gen_function(name, stmts, known) == Ok::<FunctionSpec, CompileErrorSpec>(f),
    ensures
        f.wf(),
{
    match spec_gen_statements(stmts, 0, GenState::init(), known) {
        Ok(st) => {
            lemma_gen_statements_no_ret(stmts, 0, GenState::init(), st, known);
        },
        Err(_) => {},
    }
}

/// The program walk only adds structurally valid functions.
proof fn lemma_program_items_wf(
    children: Seq<SpecNode>,
    i: int,
    entry: Option<Seq<char>>,
    m: ModuleSpec,
)
    requires
        forall|k: int| 0 <= k < m.functions.len() ==> (#[trigger] m.functions[k]).wf(),
        spec_program_items(children, i, entry, m) is Ok,
    ensures
        spec_program_items(children, i, entry, m) matches Ok(pair) ==> forall|k: int|
            0 <= k < pair.1.functions.len() ==> (#[trigger] pair.1.functions[k]).wf(),
    decreases children.len() - i,
{
    if 0 <= i < children.len() {
        let c = children[i];
        if c.rule == Rule::EOI {
            lemma_program_items_wf(children, i + 1, entry, m);
        } else if c.rule == Rule::entry_definition {
            if c.children.len() == 1 && entry is None {
                lemma_program_items_wf(children, i + 1, Some(c.children[0].text), m);
            }
        } else if c.rule == Rule::function_declaration {
            match spec_process_decl(c, m) {
                Ok(f) => {
                    match spec_statements_from_children(c.children[2].children, 0) {
                        Ok(stmts) => {
                            lemma_gen_function_wf(
                                c.children[0].text,
                                stmt_kinds(stmts),
                                known_of(m, c.children[0].text),
                                f,
                            );
                        },
                        Err(_) => {},
                    }
                    let m2 = ModuleSpec { functions: m.functions.push(f), ..m };
                    assert(forall|k: int|
                        0 <= k < m2.functions.len() ==> (#[trigger] m2.functions[k]).wf());
                    lemma_program_items_wf(children, i + 1, entry, m2);
                },
                Err(_) => {},
            }
        }
    }
}

/// Every function of a compiled module is structurally valid: each entry
/// block is terminated by its final return and by nothing before it.
pub proof fn lemma_compile_source_wf(s: Seq<char>, m: ModuleSpec)
    requires
        spec_compile_source(s) == Ok::<ModuleSpec, CompileErrorSpec>(m),
    ensures
        forall|k: int| 0 <= k < m.functions.len() ==> (#[trigger] m.functions[k]).wf(),
{
    match spec_parse_to_ast(s) {
        PNode::Found { node, .. } => {
            if node.rule == Rule::script {
                match spec_statements_from_children(node.children, 0) {
                    Ok(stmts) => {
                        match spec_gen_function(
                            "main"@,
                            stmt_kinds(stmts),
                            known_of(spec_empty_module(), "main"@),
                        ) {
                            Ok(f) => {
                                lemma_gen_function_wf(
                                    "main"@,
                                    stmt_kinds(stmts),
                                    known_of(spec_empty_module(), "main"@),
                                    f,
                                );
                            },
                            Err(_) => {},
                        }
                    },
                    Err(_) => {},
                }
            } else if node.rule == Rule::program {
                match spec_program_items(node.children, 0, None, spec_empty_module()) {
                    Ok((entry_opt, mw)) => {
                        lemma_program_items_wf(node.children, 0, None, spec_empty_module());
                        assert(spec_program_main(entry_opt->0).wf());
                    },
                    Err(_) => {},
                }
            }
        },
        PNode::Fail { .. } => {},
    }
}

// ---------------------------------------------------------------------------
// Executable code generation
// ---------------------------------------------------------------------------

/// The models of a sequence of argument values, in order.
pub open spec fn args_view(s: Seq<ArgValue>) -> Seq<ArgSpec> {
    Seq::new(s.len(), |i: int| s[i]@)
}

/// The models of a sequence of statements, in order.
pub open spec fn statements_view(s: Seq<Statement>) -> Seq<StatementSpec> {
    Seq::new(s.len(), |i: int| s[i]@)
}

/// The models of a sequence of CST nodes, in order.
pub open spec fn cst_view(ns: Seq<SyntaxNode>) -> Seq<SpecNode> {
    Seq::new(ns.len(), |i: int| ns[i]@)
}

/// The model of an optional name.
pub open spec fn opt_name_view(o: Option<String>) -> Option<Seq<char>> {
    match o {
        Some(s) => Some(s@),
        None => None,
    }
}

/// Generation state of one function: opened on creation, populated
/// statement by statement, sealed by [`FunctionGenerator::complete`],
/// which consumes the generator — a sealed function cannot be reopened.
pub struct FunctionGenerator {
    /// The function being populated.
    pub function: Function,
    /// The per-function symbol table; discarded when the function is sealed.
    pub symbols: SymbolTable,
    /// Slots allocated so far: the n-th `Alloca` creates slot n.
    pub slots: usize,
    /// The names calls may resolve against: builtins, functions completed
    /// before this one, and this function itself.
    pub known: Vec<String>,
}

impl FunctionGenerator {
    /// The generation state this generator is in.
    pub open spec fn st(self) -> GenState {
        GenState {
            symbols: self.symbols@,
            slots: self.slots as int,
            body: self.function@.body,
        }
    }

    /// The model of the resolution environment.
    pub open spec fn known_view(self) -> Seq<Seq<char>> {
        self.known@.map_values(|s: String| s@)
    }

    /// The generator's invariant: a well-formed symbol table, and no more
    /// slots than instructions (each allocation emits an instruction).
    pub open spec fn wf(self) -> bool {
        &&& self.symbols.wf()
        &&& self.slots <= self.function.body@.len()
    }

    /// Declares a function taking nothing and returning nothing: its
    /// signature only, with no body yet.
    pub fn declare_void_fn(name: &str) -> (f: Function)
        ensures
            f@ == (FunctionSpec { name: name@, body: Seq::empty() }),
    {
        let f = Function { name: String::from_str(name), body: Vec::new() };
        proof {
            assert(f@.body =~= Seq::<InstrSpec>::empty());
            assert(f@ =~= (FunctionSpec { name: name@, body: Seq::empty() }));
        }
        f
    }

    /// Opens a declared function for population: fresh symbol table, no
    /// slots, and the resolution environment snapshot of `module` plus the
    /// function's own name.
    pub fn create_generator(module: &Module, function: Function) -> (g: FunctionGenerator)
        requires
            function@.body == Seq::<InstrSpec>::empty(),
        ensures
            g.wf(),
            g.st() == GenState::init(),
            g.function@.name == function@.name,
            g.known_view() == known_of(module@, function@.name),
    {
        let mut known: Vec<String> = Vec::new();
        let mut i: usize = 0;
        while i < module.builtins.len()
            invariant
                i <= module.builtins@.len(),
                known@.len() == i,
                forall|j: int| 0 <= j < i ==> known@[j]@ == module.builtins@[j]@.name,
            decreases module.builtins@.len() - i,
        {
            known.push(clone_string(&module.builtins[i].name));
            i = i + 1;
        }
        let nb = module.builtins.len();
        let mut k: usize = 0;
        while k < module.functions.len()
            invariant
                k <= module.functions@.len(),
                nb == module.builtins@.len(),
                known@.len() == nb + k,
                forall|j: int| 0 <= j < nb ==> known@[j]@ == module.builtins@[j]@.name,
                forall|j: int| 0 <= j < k ==> known@[nb + j]@ == module.functions@[j]@.name,
            decreases module.functions@.len() - k,
        {
            known.push(clone_string(&module.functions[k].name));
            k = k + 1;
        }
        known.push(clone_string(&function.name));
        let g = FunctionGenerator { function, symbols: SymbolTable::new(), slots: 0, known };
        proof {
            assert(g.st() == GenState::init());
            assert(g.known_view() =~= known_of(module@, function@.name));
        }
        g
    }

    /// Resolves a callee name against the known names.
    fn resolves(&self, name: &str) -> (r: bool)
        ensures
            r == spec_resolves(self.known_view(), name@),
    {
        let mut i: usize = 0;
        while i < self.known.len()
            invariant
                i <= self.known@.len(),
                forall|j: int| 0 <= j < i ==> self.known@[j]@ != name@,
            decreases self.known@.len() - i,
        {
            if strings_equal(self.known[i].as_str(), name) {
                proof {
                    assert(self.known_view()[i as int] == name@);
                }
                return true;
            }
            i = i + 1;
        }
        proof {
            assert forall|j: int| 0 <= j < self.known_view().len() implies self.known_view()[j]
                != name@ by {
                assert(self.known_view()[j] == self.known@[j]@);
            }
        }
        false
    }

    /// Emits one statement into the function, as [`spec_gen_statement`]
    /// says. A failed statement leaves the generation state unchanged.
    pub fn add_statement(&mut self, statement: &Statement) -> (r: Result<(), CompileError>)
        requires
            old(self).wf(),
        ensures
            final(self).wf(),
            final(self).known_view() == old(self).known_view(),
            final(self).function@.name == old(self).function@.name,
            match r {
                Ok(_) => spec_gen_statement(statement@.kind, old(self).st(), old(self).known_view())
                    matches Ok(st2) && st2 == final(self).st(),
                Err(e) => spec_gen_statement(statement@.kind, old(self).st(), old(self).known_view())
                    matches Err(se) && se == e@ && final(self).st() == old(self).st(),
            },
    {
        match &statement.kind {
            StatementKind::Assignment(a) => a.process(self),
            StatementKind::FunctionCall(c) => self.process_function_call(c),
        }
    }

    /// Emits a call statement: resolves the callee, evaluates the
    /// arguments left to right, and emits the call instruction.
    pub fn process_function_call(&mut self, call: &FunctionCall) -> (r: Result<(), CompileError>)
        requires
            old(self).wf(),
        ensures
            final(self).wf(),
            final(self).known_view() == old(self).known_view(),
            final(self).function@.name == old(self).function@.name,
            final(self).st().symbols == old(self).st().symbols,
            final(self).st().slots == old(self).st().slots,
            match r {
                Ok(_) => spec_gen_call(call@, old(self).st().symbols, old(self).known_view())
                    matches Ok(instr) && final(self).st().body == old(self).st().body.push(instr),
                Err(e) => spec_gen_call(call@, old(self).st().symbols, old(self).known_view())
                    matches Err(se) && se == e@ && final(self).st() == old(self).st(),
            },
    {
        proof {
            crate::ast::lemma_call_args_view(*call, 0);
            assert(call@.args =~= crate::ast::exprs_view(call.arguments@));
        }
        if !self.resolves(call.symbol_ref.name.as_str()) {
            return Err(CompileError::UndefinedSymbol { name: clone_string(&call.symbol_ref.name) });
        }
        match self.build_fn_args(&call.arguments, 0) {
            Err(e) => Err(e),
            Ok(args) => self.create_function_call(call.symbol_ref.name.as_str(), args),
        }
    }

    /// Evaluates the argument expressions from index `i` on, left to right.
    fn build_fn_args(&self, arguments: &Vec<ExpressionNode>, i: usize) -> (r: Result<
        Vec<ArgValue>,
        CompileError,
    >)
        requires
            self.wf(),
            i <= arguments@.len(),
        ensures
            match r {
                Ok(args) => spec_gen_args(
                    crate::ast::exprs_view(arguments@),
                    i as int,
                    self.st().symbols,
                ) matches Ok(sargs) && sargs == args_view(args@),
                Err(e) => spec_gen_args(
                    crate::ast::exprs_view(arguments@),
                    i as int,
                    self.st().symbols,
                ) matches Err(se) && se == e@,
            },
        decreases arguments@.len() - i,
    {
        if i >= arguments.len() {
            let empty: Vec<ArgValue> = Vec::new();
            proof {
                assert(args_view(empty@) =~= Seq::<ArgSpec>::empty());
            }
            Ok(empty)
        } else {
            match generate_expression(&arguments[i], self) {
                Err(e) => Err(e),
                Ok(a) => match self.build_fn_args(arguments, i + 1) {
                    Err(e) => Err(e),
                    Ok(mut rest) => {
                        proof {
                            assert(args_view(rest@.insert(0, a)) =~= seq![a@] + args_view(rest@));
                        }
                        rest.insert(0, a);
                        Ok(rest)
                    },
                },
            }
        }
    }

    /// Emits a call instruction to a resolved callee with already-evaluated
    /// arguments; an unresolved callee is an undefined symbol.
    pub fn create_function_call(&mut self, symbol_ref: &str, args: Vec<ArgValue>) -> (r: Result<
        (),
        CompileError,
    >)
        requires
            old(self).wf(),
        ensures
            final(self).wf(),
            final(self).known_view() == old(self).known_view(),
            final(self).function@.name == old(self).function@.name,
            final(self).st().symbols == old(self).st().symbols,
            final(self).st().slots == old(self).st().slots,
            match r {
                Ok(_) => spec_resolves(old(self).known_view(), symbol_ref@) && final(self).st().body == old(self).st().body.push(
                    InstrSpec::Call { callee: symbol_ref@, args: args_view(args@) },
                ),
                Err(e) => !spec_resolves(old(self).known_view(), symbol_ref@) && e@
                    == (CompileErrorSpec::UndefinedSymbol { name: symbol_ref@ }) && final(self).st() == old(self).st(),
            },
    {
        if !self.resolves(symbol_ref) {
            return Err(CompileError::UndefinedSymbol { name: String::from_str(symbol_ref) });
        }
        let ghost old_body = self.function@.body;
        let instr = Instruction::Call { callee: String::from_str(symbol_ref), args };
        self.function.body.push(instr);
        proof {
            assert(instr@ == (InstrSpec::Call { callee: symbol_ref@, args: args_view(args@) }))
                by {
                assert(instr@ matches InstrSpec::Call { args: a, .. } && a =~= args_view(args@));
            }
            assert(self.function@.body =~= old_body.push(instr@));
        }
        Ok(())
    }

    /// Seals the function: emits the terminating return and hands the
    /// completed function over. The generator, and with it the symbol
    /// table, is consumed.
    pub fn complete(self) -> (f: Function)
        ensures
            f@ == (FunctionSpec {
                name: self.function@.name,
                body: self.st().body.push(InstrSpec::Ret),
            }),
    {
        let ghost old_body = self.function@.body;
        let mut function = self.function;
        function.body.push(Instruction::Ret);
        proof {
            assert(function@.body =~= old_body.push(InstrSpec::Ret));
        }
        function
    }

    /// Generates a whole function into the module: declares it, emits the
    /// statements in source order, seals it. The module gains the function
    /// only if every statement generates; a failure leaves it unchanged.
    pub fn generate(module_gen: &mut ModuleGenerator, name: &str, statements: &Vec<Statement>) -> (
    r: Result<(), CompileError>)
        ensures
            final(module_gen).module@.name == old(module_gen).module@.name,
            final(module_gen).module@.builtins == old(module_gen).module@.builtins,
            match r {
                Ok(_) => spec_gen_function(
                    name@,
                    stmt_kinds(statements_view(statements@)),
                    known_of(old(module_gen).module@, name@),
                ) matches Ok(f) && final(module_gen).module@.functions == old(module_gen).module@.functions.push(f),
                Err(e) => spec_gen_function(
                    name@,
                    stmt_kinds(statements_view(statements@)),
                    known_of(old(module_gen).module@, name@),
                ) matches Err(se) && se == e@ && final(module_gen).module@ == old(module_gen).module@,
            },
    {
        let function = FunctionGenerator::declare_void_fn(name);
        let mut gen = FunctionGenerator::create_generator(&module_gen.module, function);
        match add_statements(&mut gen, statements, 0) {
            Err(e) => Err(e),
            Ok(_) => {
                let f = gen.complete();
                let ghost old_functions = module_gen.module@.functions;
                module_gen.module.functions.push(f);
                proof {
                    assert(module_gen.module@.functions =~= old_functions.push(f@));
                }
                Ok(())
            },
        }
    }
}

/// Emits the statements from index `i` on into the open function, in
/// source order, as [`spec_gen_statements`] says.
fn add_statements(gen: &mut FunctionGenerator, statements: &Vec<Statement>, i: usize) -> (r: Result<
    (),
    CompileError,
>)
    requires
        old(gen).wf(),
        i <= statements@.len(),
    ensures
        final(gen).wf(),
        final(gen).known_view() == old(gen).known_view(),
        final(gen).function@.name == old(gen).function@.name,
        match r {
            Ok(_) => spec_gen_statements(
                stmt_kinds(statements_view(statements@)),
                i as int,
                old(gen).st(),
                old(gen).known_view(),
            ) matches Ok(st2) && st2 == final(gen).st(),
            Err(e) => spec_gen_statements(
                stmt_kinds(statements_view(statements@)),
                i as int,
                old(gen).st(),
                old(gen).known_view(),
            ) matches Err(se) && se == e@,
        },
    decreases statements@.len() - i,
{
    if i >= statements.len() {
        Ok(())
    } else {
        match gen.add_statement(&statements[i]) {
            Err(e) => Err(e),
            Ok(_) => add_statements(gen, statements, i + 1),
        }
    }
}

/// Evaluates one expression to an argument value in the given scope, as
/// [`spec_gen_arg`] says.
pub fn generate_expression(expr: &ExpressionNode, scope: &FunctionGenerator) -> (r: Result<
    ArgValue,
    CompileError,
>)
    requires
        scope.wf(),
    ensures
        match r {
            Ok(a) => spec_gen_arg(expr@, scope.st().symbols) matches Ok(sa) && sa == a@,
            Err(e) => spec_gen_arg(expr@, scope.st().symbols) matches Err(se) && se == e@,
        },
{
    match expr {
        ExpressionNode::StringLiteral(v) => {
            let decoded = decode_user_string(v.value.as_str());
            Ok(ArgValue::ConstString(decoded))
        },
        ExpressionNode::VariableReference(s) => {
            match scope.symbols.get(s.name.as_str()) {
                Some(slot) => Ok(ArgValue::Ptr(slot)),
                None => Err(CompileError::UndefinedSymbol { name: clone_string(&s.name) }),
            }
        },
        ExpressionNode::NestedCall(_) => Err(CompileError::UnsupportedConstruct),
    }
}

impl crate::ast::Assignment {
    /// Emits this assignment into the open function: rejects a name
    /// already bound in the scope; otherwise allocates storage for the
    /// decoded literal, stores it, and binds the name to the new slot.
    pub fn process(&self, scope: &mut FunctionGenerator) -> (r: Result<(), CompileError>)
        requires
            old(scope).wf(),
        ensures
            final(scope).wf(),
            final(scope).known_view() == old(scope).known_view(),
            final(scope).function@.name == old(scope).function@.name,
            match r {
                Ok(_) => spec_gen_statement(
                    StmtSpec::Assignment { assign: self@ },
                    old(scope).st(),
                    old(scope).known_view(),
                ) matches Ok(st2) && st2 == final(scope).st(),
                Err(e) => spec_gen_statement(
                    StmtSpec::Assignment { assign: self@ },
                    old(scope).st(),
                    old(scope).known_view(),
                ) matches Err(se) && se == e@ && final(scope).st() == old(scope).st(),
            },
    {
        if scope.symbols.contains(self.symbol_ref.name.as_str()) {
            return Err(
                CompileError::DuplicateDefinition { name: clone_string(&self.symbol_ref.name) },
            );
        }
        match &self.expression {
            ExpressionNode::StringLiteral(v) => {
                generate_string_literal_expression(&self.symbol_ref.name, v, scope);
                Ok(())
            },
            _ => Err(CompileError::UnsupportedConstruct),
        }
    }
}

/// Allocates storage named after the variable, stores the decoded literal
/// characters into the new slot, and binds the name to it.
fn generate_string_literal_expression(
    name: &String,
    value: &StringValue,
    scope: &mut FunctionGenerator,
)
    requires
        old(scope).wf(),
        !old(scope).symbols@.contains_key(name@),
    ensures
        final(scope).wf(),
        final(scope).known_view() == old(scope).known_view(),
        final(scope).function@.name == old(scope).function@.name,
        final(scope).st() == (GenState {
            symbols: old(scope).st().symbols.insert(name@, old(scope).st().slots),
            slots: old(scope).st().slots + 1,
            body: old(scope).st().body + seq![
                InstrSpec::Alloca { name: name@ },
                InstrSpec::Store {
                    slot: old(scope).st().slots,
                    chars: spec_decode(value.value@),
                },
            ],
        }),
{
    let ghost old_body = scope.function@.body;
    let slot = scope.slots;
    let decoded = decode_user_string(value.value.as_str());
    scope.function.body.push(Instruction::Alloca { name: clone_string(name) });
    scope.function.body.push(Instruction::Store { slot, chars: decoded });
    let n = scope.function.body.len();
    scope.symbols.insert(clone_string(name), slot);
    proof {
        assert(scope.slots + 1 <= n);
    }
    scope.slots = scope.slots + 1;
    proof {
        assert(scope.function@.body =~= old_body + seq![
            InstrSpec::Alloca { name: name@ },
            InstrSpec::Store { slot: slot as int, chars: spec_decode(value.value@) },
        ]);
        assert(scope.st() =~= (GenState {
            symbols: old(scope).st().symbols.insert(name@, old(scope).st().slots),
            slots: old(scope).st().slots + 1,
            body: old(scope).st().body + seq![
                InstrSpec::Alloca { name: name@ },
                InstrSpec::Store {
                    slot: old(scope).st().slots,
                    chars: spec_decode(value.value@),
                },
            ],
        }));
    }
}

// ---------------------------------------------------------------------------
// Module-level generation
// ---------------------------------------------------------------------------

/// Generation state of one module: owns the module while the code
/// generator populates it.
pub struct ModuleGenerator {
    pub module: Module,
}

impl ModuleGenerator {
    /// An empty named module.
    pub fn create(name: &str) -> (r: ModuleGenerator)
        ensures
            r.module@ == (ModuleSpec {
                name: name@,
                builtins: Seq::empty(),
                functions: Seq::empty(),
            }),
    {
        let module = Module { name: String::from_str(name), builtins: Vec::new(), functions: Vec::new() };
        let r = ModuleGenerator { module };
        proof {
            assert(r.module@ =~= (ModuleSpec {
                name: name@,
                builtins: Seq::empty(),
                functions: Seq::empty(),
            }));
        }
        r
    }

    /// Declares the libc builtins this language relies on.
    pub fn declare_libc_builtin(&mut self)
        ensures
            final(self).module@ == (ModuleSpec {
                builtins: old(self).module@.builtins.push(spec_printf_decl()),
                ..old(self).module@
            }),
    {
        declare_libc_builtin(self);
    }

    /// Generates a function of the given name from already-converted
    /// statements.
    pub fn generate_function_from_statements(
        &mut self,
        name: &str,
        statements: &Vec<Statement>,
    ) -> (r: Result<(), CompileError>)
        ensures
            final(self).module@.name == old(self).module@.name,
            final(self).module@.builtins == old(self).module@.builtins,
            match r {
                Ok(_) => spec_gen_function(
                    name@,
                    stmt_kinds(statements_view(statements@)),
                    known_of(old(self).module@, name@),
                ) matches Ok(f) && final(self).module@.functions == old(self).module@.functions.push(f),
                Err(e) => spec_gen_function(
                    name@,
                    stmt_kinds(statements_view(statements@)),
                    known_of(old(self).module@, name@),
                ) matches Err(se) && se == e@ && final(self).module@ == old(self).module@,
            },
    {
        FunctionGenerator::generate(self, name, statements)
    }

    /// Whether the module already holds a function of this name.
    fn has_function(&self, name: &str) -> (r: bool)
        ensures
            r == has_fn(self.module@.functions, name@),
    {
        let mut i: usize = 0;
        while i < self.module.functions.len()
            invariant
                i <= self.module.functions@.len(),
                forall|j: int| 0 <= j < i ==> self.module.functions@[j]@.name != name@,
            decreases self.module.functions@.len() - i,
        {
            if strings_equal(self.module.functions[i].name.as_str(), name) {
                proof {
                    assert(self.module@.functions[i as int].name == name@);
                }
                return true;
            }
            i = i + 1;
        }
        proof {
            assert forall|j: int| 0 <= j < self.module@.functions.len() implies self.module@
                .functions[j].name != name@ by {
                assert(self.module@.functions[j] == self.module.functions@[j]@);
            }
        }
        false
    }

    /// Processes one `function_declaration` node: converts its body's
    /// statements and generates the function, as [`spec_process_decl`]
    /// says. A failure leaves the module unchanged.
    pub fn process_function_declaration(&mut self, node: &SyntaxNode) -> (r: Result<
        (),
        CompileError,
    >)
        ensures
            final(self).module@.name == old(self).module@.name,
            final(self).module@.builtins == old(self).module@.builtins,
            match r {
                Ok(_) => spec_process_decl(node@, old(self).module@) matches Ok(f) && final(self).module@.functions == old(self).module@.functions.push(f),
                Err(e) => spec_process_decl(node@, old(self).module@) matches Err(se) && se == e@
                    && final(self).module@ == old(self).module@,
            },
    {
        proof {
            lemma_children_view(*node, 0);
        }
        if node.children.len() != 3 {
            return Err(
                CompileError::StructuralError {
                    state: IllegalSourceState::UniqueConstraintViolation,
                },
            );
        }
        let name = clone_string(&node.children[0].text);
        if strings_equal(name.as_str(), "printf") || self.has_function(name.as_str()) {
            return Err(CompileError::DuplicateDefinition { name });
        }
        proof {
            lemma_children_view(node.children[2], 0);
            assert(node.children[2]@.children =~= cst_view(node.children[2].children@));
        }
        match statements_from_children(&node.children[2].children, 0) {
            Err(e) => Err(e),
            Ok(statements) => self.generate_function_from_statements(name.as_str(), &statements),
        }
    }

    /// Synthesizes the program's `main`: a single call to the entry
    /// function, then the terminating return. The entry name must resolve
    /// to a declared function here, at the point `main` is synthesized.
    pub fn create_program_main(&mut self, entry_fn_name: &str) -> (r: Result<(), CompileError>)
        ensures
            final(self).module@.name == old(self).module@.name,
            final(self).module@.builtins == old(self).module@.builtins,
            match r {
                Ok(_) => has_fn(old(self).module@.functions, entry_fn_name@) && !has_fn(
                    old(self).module@.functions,
                    "main"@,
                ) && final(self).module@.functions == old(self).module@.functions.push(
                    spec_program_main(entry_fn_name@),
                ),
                Err(e) => final(self).module@ == old(self).module@ && (if !has_fn(
                    old(self).module@.functions,
                    entry_fn_name@,
                ) {
                    e@ == (CompileErrorSpec::UndefinedSymbol { name: entry_fn_name@ })
                } else {
                    has_fn(old(self).module@.functions, "main"@) && e@
                        == (CompileErrorSpec::DuplicateDefinition { name: "main"@ })
                }),
            },
    {
        if !self.has_function(entry_fn_name) {
            return Err(CompileError::UndefinedSymbol { name: String::from_str(entry_fn_name) });
        }
        if self.has_function("main") {
            return Err(CompileError::DuplicateDefinition { name: String::from_str("main") });
        }
        let mut body: Vec<Instruction> = Vec::new();
        let args: Vec<ArgValue> = Vec::new();
        proof {
            assert(args_view(args@) =~= Seq::<ArgSpec>::empty());
        }
        let call = Instruction::Call { callee: String::from_str(entry_fn_name), args };
        proof {
            assert(call@ == (InstrSpec::Call { callee: entry_fn_name@, args: Seq::empty() })) by {
                assert(call@ matches InstrSpec::Call { args: a, .. } && a =~= Seq::<ArgSpec>::empty());
            }
        }
        body.push(call);
        body.push(Instruction::Ret);
        let f = Function { name: String::from_str("main"), body };
        let ghost old_functions = self.module@.functions;
        proof {
            assert(f@ =~= spec_program_main(entry_fn_name@));
        }
        self.module.functions.push(f);
        proof {
            assert(self.module@.functions =~= old_functions.push(spec_program_main(entry_fn_name@)));
        }
        Ok(())
    }
}

/// Declares the libc builtins: the formatted-output function.
pub fn declare_libc_builtin(module_gen: &mut ModuleGenerator)
    ensures
        final(module_gen).module@ == (ModuleSpec {
            builtins: old(module_gen).module@.builtins.push(spec_printf_decl()),
            ..old(module_gen).module@
        }),
{
    declare_println(module_gen);
}

/// Declares `printf`: variadic, takes a pointer-to-characters format
/// argument, returns nothing.
fn declare_println(module_gen: &mut ModuleGenerator)
    ensures
        final(module_gen).module@ == (ModuleSpec {
            builtins: old(module_gen).module@.builtins.push(spec_printf_decl()),
            ..old(module_gen).module@
        }),
{
    let ghost old_builtins = module_gen.module@.builtins;
    let decl = Declaration { name: String::from_str("printf"), variadic: true };
    module_gen.module.builtins.push(decl);
    proof {
        assert(module_gen.module@.builtins =~= old_builtins.push(spec_printf_decl()));
        assert(module_gen.module@ =~= (ModuleSpec {
            builtins: old_builtins.push(spec_printf_decl()),
            ..old(module_gen).module@
        }));
    }
}

/// Converts the children of a `script` or `fn_body` node from index `i` on
/// into statements, skipping end-of-input markers, as
/// [`spec_statements_from_children`] says.
fn statements_from_children(children: &Vec<SyntaxNode>, i: usize) -> (r: Result<
    Vec<Statement>,
    CompileError,
>)
    requires
        i <= children@.len(),
    ensures
        match r {
            Ok(statements) => spec_statements_from_children(cst_view(children@), i as int)
                matches Ok(sts) && sts == statements_view(statements@),
            Err(e) => spec_statements_from_children(cst_view(children@), i as int) matches Err(se)
                && se == e@,
        },
    decreases children@.len() - i,
{
    if i >= children.len() {
        let empty: Vec<Statement> = Vec::new();
        proof {
            assert(statements_view(empty@) =~= Seq::<StatementSpec>::empty());
        }
        Ok(empty)
    } else if children[i].rule == Rule::EOI {
        statements_from_children(children, i + 1)
    } else {
        match Statement::try_from(&children[i]) {
            Err(f) => {
                let state = match f {
                    InvalidParserState::IllegalSourceState(s) => s,
                };
                Err(CompileError::StructuralError { state })
            },
            Ok(st) => match statements_from_children(children, i + 1) {
                Err(e) => Err(e),
                Ok(mut rest) => {
                    proof {
                        assert(statements_view(rest@.insert(0, st)) =~= seq![st@]
                            + statements_view(rest@));
                    }
                    rest.insert(0, st);
                    Ok(rest)
                },
            },
        }
    }
}

// ---------------------------------------------------------------------------
// The top-level code generator
// ---------------------------------------------------------------------------

/// The top-level container owning the modules generated so far.
pub struct LLIRCodeGenerator {
    pub modules: Vec<Module>,
}

/// The models of the generated modules, in order.
pub open spec fn modules_view(ms: Seq<Module>) -> Seq<ModuleSpec> {
    Seq::new(ms.len(), |i: int| ms[i]@)
}

impl View for LLIRCodeGenerator {
    type V = Seq<ModuleSpec>;

    open spec fn view(&self) -> Seq<ModuleSpec> {
        modules_view(self.modules@)
    }
}

/// Walks a `program` node's children from index `i` on: tracks the entry
/// definition and generates each declared function into the module, as
/// [`spec_program_items`] says. A failure leaves the module unchanged.
fn program_items(
    module_gen: &mut ModuleGenerator,
    children: &Vec<SyntaxNode>,
    i: usize,
    entry: Option<String>,
) -> (r: Result<Option<String>, CompileError>)
    requires
        i <= children@.len(),
    ensures
        final(module_gen).module@.name == old(module_gen).module@.name,
        final(module_gen).module@.builtins == old(module_gen).module@.builtins,
        match r {
            Ok(e2) => spec_program_items(
                cst_view(children@),
                i as int,
                opt_name_view(entry),
                old(module_gen).module@,
            ) matches Ok(pair) && pair.0 == opt_name_view(e2) && pair.1 == final(module_gen).module@,
            Err(e) => spec_program_items(
                cst_view(children@),
                i as int,
                opt_name_view(entry),
                old(module_gen).module@,
            ) matches Err(se) && se == e@,
        },
    decreases children@.len() - i,
{
    if i >= children.len() {
        return Ok(entry);
    }
    let c = &children[i];
    if c.rule == Rule::EOI {
        program_items(module_gen, children, i + 1, entry)
    } else if c.rule == Rule::entry_definition {
        proof {
            lemma_children_view(*c, 0);
        }
        if c.children.len() != 1 {
            return Err(
                CompileError::StructuralError {
                    state: IllegalSourceState::UniqueConstraintViolation,
                },
            );
        }
        let name = clone_string(&c.children[0].text);
        match entry {
            Some(_) => Err(CompileError::DuplicateDefinition { name }),
            None => program_items(module_gen, children, i + 1, Some(name)),
        }
    } else if c.rule == Rule::function_declaration {
        let ghost m0 = module_gen.module@;
        match module_gen.process_function_declaration(c) {
            Err(e) => Err(e),
            Ok(_) => {
                proof {
                    assert(spec_process_decl(c@, m0) matches Ok(f) && module_gen.module@
                        =~= (ModuleSpec { functions: m0.functions.push(f), ..m0 }));
                }
                program_items(module_gen, children, i + 1, entry)
            },
        }
    } else {
        Err(
            CompileError::StructuralError {
                state: IllegalSourceState::IllegalRule {
                    rule: c.rule,
                    context: String::from_str("unexpected program item"),
                },
            },
        )
    }
}

impl LLIRCodeGenerator {
    /// A generator owning no modules yet.
    pub fn new() -> (r: LLIRCodeGenerator)
        ensures
            r@ == Seq::<ModuleSpec>::empty(),
    {
        let r = LLIRCodeGenerator { modules: Vec::new() };
        proof {
            assert(r@ =~= Seq::<ModuleSpec>::empty());
        }
        r
    }

    /// Compiles one source text, as [`spec_compile_source`] says. On
    /// success exactly one module is added; on failure the module list is
    /// unchanged: no partial module is surfaced.
    pub fn compile_source(&mut self, input: &str) -> (r: Result<(), CompileError>)
        ensures
            match r {
                Ok(_) => spec_compile_source(input@) matches Ok(m) && final(self)@ == old(self)@.push(m),
                Err(e) => spec_compile_source(input@) matches Err(se) && se == e@ && final(self)@
                    == old(self)@,
            },
    {
        let node = match parse_to_ast(input) {
            Err(e) => return Err(e),
            Ok(node) => node,
        };
        proof {
            lemma_children_view(node, 0);
            assert(node@.children =~= cst_view(node.children@));
        }
        let module = if node.rule == Rule::script {
            match statements_from_children(&node.children, 0) {
                Err(e) => return Err(e),
                Ok(statements) => match self.create_script(&statements) {
                    Err(e) => return Err(e),
                    Ok(m) => m,
                },
            }
        } else if node.rule == Rule::program {
            match self.create_program(&node) {
                Err(e) => return Err(e),
                Ok(m) => m,
            }
        } else {
            return Err(
                CompileError::StructuralError {
                    state: IllegalSourceState::IllegalRule {
                        rule: node.rule,
                        context: String::from_str("expected script or program"),
                    },
                },
            );
        };
        let ghost old_modules = self@;
        self.modules.push(module);
        proof {
            assert(self@ =~= old_modules.push(self.modules@.last()@));
        }
        Ok(())
    }

    /// Compiles a script: one module named `main` with one function,
    /// `main`, holding the statements in source order.
    fn create_script(&mut self, statements: &Vec<Statement>) -> (r: Result<Module, CompileError>)
        ensures
            final(self)@ == old(self)@,
            match r {
                Ok(m) => spec_compile_script_module(stmt_kinds(statements_view(statements@)))
                    matches Ok(sm) && sm == m@,
                Err(e) => spec_compile_script_module(stmt_kinds(statements_view(statements@)))
                    matches Err(se) && se == e@,
            },
    {
        let mut module_gen = ModuleGenerator::create("main");
        module_gen.declare_libc_builtin();
        proof {
            assert(module_gen.module@ =~= spec_empty_module());
        }
        match module_gen.generate_function_from_statements("main", statements) {
            Err(e) => Err(e),
            Ok(_) => {
                proof {
                    assert(module_gen.module@ matches ModuleSpec { functions, .. } && functions
                        =~= seq![module_gen.module@.functions[0]]);
                }
                Ok(module_gen.module)
            },
        }
    }

    /// Compiles a program: each declared function in order, then the
    /// synthesized `main` calling the entry function.
    fn create_program(&mut self, program: &SyntaxNode) -> (r: Result<Module, CompileError>)
        ensures
            final(self)@ == old(self)@,
            match r {
                Ok(m) => spec_compile_program_module(program@) matches Ok(sm) && sm == m@,
                Err(e) => spec_compile_program_module(program@) matches Err(se) && se == e@,
            },
    {
        proof {
            lemma_children_view(*program, 0);
            assert(program@.children =~= cst_view(program.children@));
        }
        let mut module_gen = ModuleGenerator::create("main");
        module_gen.declare_libc_builtin();
        proof {
            assert(module_gen.module@ =~= spec_empty_module());
        }
        let entry = match program_items(&mut module_gen, &program.children, 0, None) {
            Err(e) => return Err(e),
            Ok(entry) => entry,
        };
        match entry {
            Some(entry_fn_name) => {
                match module_gen.create_program_main(entry_fn_name.as_str()) {
                    Err(e) => Err(e),
                    Ok(_) => Ok(module_gen.module),
                }
            },
            None => Err(CompileError::MissingEntry),
        }
    }
}

} // verus!
