//! The parser: drives the grammar over an input string and produces a CST,
//! or fails with the offset and the rule expected there.
//!
//! The grammar, PEG-style (ordered choice, first match wins):
//!
//! ```text
//! source        := (script | program) EOI
//! script        := statement* EOI
//! program       := (entry_definition | function_declaration)* EOI
//! entry_definition := "entry" symbol_ref
//! function_declaration := "fn" symbol_ref "(" ")" "{" statement* "}"
//! statement     := assignment | function_call
//! assignment    := symbol_ref "=" expression
//! function_call := symbol_ref "(" fn_args ")"
//! fn_args       := (expression ("," expression)*)?
//! expression    := function_call | value | symbol_ref
//! value         := string_literal
//! string_literal:= '"' char* '"'        // backslash escapes a character
//! symbol_ref    := letter (letter | digit | "_")*
//! ```
//!
//! Whitespace (space, tab, carriage return, newline) may separate tokens.
//! The whole grammar is first written as total specification functions over
//! `Seq<char>`; each executable parsing function returns exactly what its
//! specification counterpart says.
use vstd::prelude::*;
use crate::grammar::Rule;
use crate::grammar::SpecNode;
use crate::grammar::SyntaxNode;
use crate::grammar::node_view;
use crate::grammar::children_view;
use crate::grammar::lemma_children_view;
use crate::errors::CompileError;
use crate::errors::IllegalSourceState;
use crate::text::chars_to_string;
use crate::text::str_to_chars;

verus! {

// ---------------------------------------------------------------------------
// Character classes
// ---------------------------------------------------------------------------

pub open spec fn is_ws_char(c: char) -> bool {
    c == ' ' || c == '\t' || c == '\r' || c == '\n'
}

pub open spec fn is_letter(c: char) -> bool {
    ('a' as u32 <= c as u32 && c as u32 <= 'z' as u32) || ('A' as u32 <= c as u32 && c as u32
        <= 'Z' as u32)
}

pub open spec fn is_digit_char(c: char) -> bool {
    '0' as u32 <= c as u32 && c as u32 <= '9' as u32
}

pub open spec fn is_ident_char(c: char) -> bool {
    is_letter(c) || is_digit_char(c) || c == '_'
}

// ---------------------------------------------------------------------------
// Specification-level parse results
// ---------------------------------------------------------------------------

/// Outcome of parsing one construct: a node and the position after it, or
/// the failure position and the rule expected there.
#[verifier::ext_equal]
pub ghost enum PNode {
    Found { node: SpecNode, next: int },
    Fail { at: int, expected: Rule },
}

/// Outcome of parsing a list of constructs.
#[verifier::ext_equal]
pub ghost enum PList {
    Found { nodes: Seq<SpecNode>, next: int },
    Fail { at: int, expected: Rule },
}

// ---------------------------------------------------------------------------
// Lexical scanning
// ---------------------------------------------------------------------------

/// First position at or after `pos` holding a non-whitespace character.
pub open spec fn spec_skip_ws(s: Seq<char>, pos: int) -> int
    decreases s.len() - pos,
{
    if 0 <= pos < s.len() && is_ws_char(s[pos]) {
        spec_skip_ws(s, pos + 1)
    } else {
        pos
    }
}

/// End of the run of identifier characters starting at `pos`.
pub open spec fn spec_scan_ident_end(s: Seq<char>, pos: int) -> int
    decreases s.len() - pos,
{
    if 0 <= pos < s.len() && is_ident_char(s[pos]) {
        spec_scan_ident_end(s, pos + 1)
    } else {
        pos
    }
}

/// Position of the closing quote of a string literal whose body starts at
/// `pos` (just after the opening quote). A backslash escapes the character
/// after it. `None`: the literal is unterminated.
pub open spec fn spec_scan_string_end(s: Seq<char>, pos: int) -> Option<int>
    decreases s.len() - pos,
{
    if !(0 <= pos < s.len()) {
        None
    } else if s[pos] == '"' {
        Some(pos)
    } else if s[pos] == '\\' {
        if pos + 2 <= s.len() {
            spec_scan_string_end(s, pos + 2)
        } else {
            None
        }
    } else {
        spec_scan_string_end(s, pos + 1)
    }
}

/// Whitespace skipping stops exactly at the end of a whitespace run.
pub proof fn lemma_skip_ws_run(s: Seq<char>, pos: int, end: int)
    requires
        0 <= pos <= end <= s.len(),
        forall|i: int| pos <= i < end ==> is_ws_char(s[i]),
        end < s.len() ==> !is_ws_char(s[end]),
    ensures
        spec_skip_ws(s, pos) == end,
    decreases end - pos,
{
    if pos < end {
        lemma_skip_ws_run(s, pos + 1, end);
    }
}

/// Identifier scanning stops exactly at the end of a run of identifier
/// characters.
pub proof fn lemma_scan_ident_run(s: Seq<char>, pos: int, end: int)
    requires
        0 <= pos <= end <= s.len(),
        forall|i: int| pos <= i < end ==> is_ident_char(s[i]),
        end < s.len() ==> !is_ident_char(s[end]),
    ensures
        spec_scan_ident_end(s, pos) == end,
    decreases end - pos,
{
    if pos < end {
        lemma_scan_ident_run(s, pos + 1, end);
    }
}

/// A well-formed literal body: a backslash always escapes a character
/// after it, and an unescaped quote never occurs.
pub open spec fn literal_body(s: Seq<char>) -> bool
    decreases s.len(),
{
    if s.len() == 0 {
        true
    } else if s[0] == '\\' {
        s.len() >= 2 && literal_body(s.skip(2))
    } else {
        s[0] != '"' && literal_body(s.skip(1))
    }
}

/// Over a well-formed literal body, the scan finds exactly the closing
/// quote that follows it.
pub proof fn lemma_scan_string_body(s: Seq<char>, pos: int, end: int)
    requires
        0 <= pos <= end < s.len(),
        literal_body(s.subrange(pos, end)),
        s[end] == '"',
    ensures
        spec_scan_string_end(s, pos) == Some(end),
    decreases end - pos,
{
    let body = s.subrange(pos, end);
    if pos == end {
    } else if s[pos] == '\\' {
        assert(body[0] == '\\');
        assert(body.skip(2) =~= s.subrange(pos + 2, end));
        lemma_scan_string_body(s, pos + 2, end);
    } else {
        assert(body[0] == s[pos]);
        assert(body.skip(1) =~= s.subrange(pos + 1, end));
        lemma_scan_string_body(s, pos + 1, end);
    }
}

// ---------------------------------------------------------------------------
// Token-level rules
// ---------------------------------------------------------------------------

/// `symbol_ref := letter (letter | digit | "_")*`, at `pos` exactly.
pub open spec fn spec_parse_symbol_ref(s: Seq<char>, pos: int) -> PNode {
    if 0 <= pos < s.len() && is_letter(s[pos]) {
        let end = spec_scan_ident_end(s, pos + 1);
        PNode::Found { node: SpecNode::leaf(Rule::symbol_ref, pos, end, s), next: end }
    } else {
        PNode::Fail { at: pos, expected: Rule::symbol_ref }
    }
}

/// `string_literal := '"' char* '"'`, at `pos` exactly. The node's text
/// includes both quotes. An unterminated literal fails at end of input.
pub open spec fn spec_parse_string_literal(s: Seq<char>, pos: int) -> PNode {
    if 0 <= pos < s.len() && s[pos] == '"' {
        match spec_scan_string_end(s, pos + 1) {
            Some(close) => PNode::Found {
                node: SpecNode::leaf(Rule::string_literal, pos, close + 1, s),
                next: close + 1,
            },
            None => PNode::Fail { at: s.len() as int, expected: Rule::string_literal },
        }
    } else {
        PNode::Fail { at: pos, expected: Rule::string_literal }
    }
}

/// `value := string_literal`: a node wrapping its concrete literal.
pub open spec fn spec_parse_value(s: Seq<char>, pos: int) -> PNode {
    match spec_parse_string_literal(s, pos) {
        PNode::Found { node, next } => PNode::Found {
            node: SpecNode {
                rule: Rule::value,
                start: node.start,
                end: node.end,
                text: node.text,
                children: seq![node],
            },
            next,
        },
        fail => fail,
    }
}

// ---------------------------------------------------------------------------
// Expressions and calls (mutually recursive)
// ---------------------------------------------------------------------------
// The lexicographic ranks below order the rules that can call each other at
// the same position: function_call(0) < expression(1) < args list(2) <
// fn_args(3). Every call that moves the position forward is guarded by an
// explicit bounds test, which makes termination a path condition.

/// `function_call := symbol_ref "(" fn_args ")"`, at `pos` exactly.
pub open spec fn spec_parse_function_call(s: Seq<char>, pos: int) -> PNode
    decreases s.len() - pos, 0int,
{
    match spec_parse_symbol_ref(s, pos) {
        PNode::Fail { at, expected } => PNode::Fail { at, expected },
        PNode::Found { node: name, next: p1 } => {
            let p2 = spec_skip_ws(s, p1);
            if p2 < s.len() && s[p2] == '(' {
                let p3 = spec_skip_ws(s, p2 + 1);
                if !(pos < p3 && p3 <= s.len()) {
                    PNode::Fail { at: p3, expected: Rule::fn_args }
                } else {
                    match spec_parse_fn_args(s, p3) {
                        PNode::Fail { at, expected } => PNode::Fail { at, expected },
                        PNode::Found { node: args, next: p4 } => {
                            let p5 = spec_skip_ws(s, p4);
                            if p5 < s.len() && s[p5] == ')' {
                                PNode::Found {
                                    node: SpecNode {
                                        rule: Rule::function_call,
                                        start: pos,
                                        end: p5 + 1,
                                        text: s.subrange(pos, p5 + 1),
                                        children: seq![name, args],
                                    },
                                    next: p5 + 1,
                                }
                            } else {
                                PNode::Fail { at: p5, expected: Rule::function_call }
                            }
                        },
                    }
                }
            } else {
                PNode::Fail { at: p2, expected: Rule::function_call }
            }
        },
    }
}

/// `expression := function_call | value | symbol_ref`, at `pos` exactly.
/// `expression` is a choice rule: the chosen construct's node stands alone.
pub open spec fn spec_parse_expression(s: Seq<char>, pos: int) -> PNode
    decreases s.len() - pos, 1int,
{
    if 0 <= pos < s.len() && s[pos] == '"' {
        spec_parse_value(s, pos)
    } else {
        match spec_parse_function_call(s, pos) {
            PNode::Found { node, next } => PNode::Found { node, next },
            PNode::Fail { .. } => match spec_parse_symbol_ref(s, pos) {
                PNode::Found { node, next } => PNode::Found { node, next },
                PNode::Fail { at, .. } => PNode::Fail { at, expected: Rule::expression },
            },
        }
    }
}

/// `expression ("," expression)*`, at `pos` exactly: the argument nodes and
/// the position after the last of them.
pub open spec fn spec_parse_args_list(s: Seq<char>, pos: int) -> PList
    decreases s.len() - pos, 2int,
{
    match spec_parse_expression(s, pos) {
        PNode::Fail { at, expected } => PList::Fail { at, expected },
        PNode::Found { node, next } => {
            if !(pos < next && next <= s.len()) {
                PList::Fail { at: next, expected: Rule::expression }
            } else {
                let p = spec_skip_ws(s, next);
                if p < s.len() && s[p] == ',' {
                    let p2 = spec_skip_ws(s, p + 1);
                    if !(pos < p2 && p2 <= s.len()) {
                        PList::Fail { at: p2, expected: Rule::expression }
                    } else {
                        match spec_parse_args_list(s, p2) {
                            PList::Found { nodes, next: next2 } => PList::Found {
                                nodes: seq![node] + nodes,
                                next: next2,
                            },
                            fail => fail,
                        }
                    }
                } else {
                    PList::Found { nodes: seq![node], next }
                }
            }
        },
    }
}

/// `fn_args := (expression ("," expression)*)?`, at `pos` exactly. The node
/// is always present; with no arguments it is empty and covers no text. It
/// does not consume the closing parenthesis.
pub open spec fn spec_parse_fn_args(s: Seq<char>, pos: int) -> PNode
    decreases s.len() - pos, 3int,
{
    if !(0 <= pos < s.len()) || s[pos] == ')' {
        PNode::Found {
            node: SpecNode {
                rule: Rule::fn_args,
                start: pos,
                end: pos,
                text: Seq::empty(),
                children: Seq::empty(),
            },
            next: pos,
        }
    } else {
        match spec_parse_args_list(s, pos) {
            PList::Fail { at, expected } => PNode::Fail { at, expected },
            PList::Found { nodes, next } => PNode::Found {
                node: SpecNode {
                    rule: Rule::fn_args,
                    start: pos,
                    end: next,
                    text: s.subrange(pos, next),
                    children: nodes,
                },
                next,
            },
        }
    }
}

// ---------------------------------------------------------------------------
// Statements
// ---------------------------------------------------------------------------

/// `assignment := symbol_ref "=" expression`, at `pos` exactly.
pub open spec fn spec_parse_assignment(s: Seq<char>, pos: int) -> PNode {
    match spec_parse_symbol_ref(s, pos) {
        PNode::Fail { at, .. } => PNode::Fail { at, expected: Rule::assignment },
        PNode::Found { node: name, next: p1 } => {
            let p2 = spec_skip_ws(s, p1);
            if p2 < s.len() && s[p2] == '=' {
                let p3 = spec_skip_ws(s, p2 + 1);
                match spec_parse_expression(s, p3) {
                    PNode::Fail { at, expected } => PNode::Fail { at, expected },
                    PNode::Found { node: e, next } => PNode::Found {
                        node: SpecNode {
                            rule: Rule::assignment,
                            start: pos,
                            end: e.end,
                            text: s.subrange(pos, e.end),
                            children: seq![name, e],
                        },
                        next,
                    },
                }
            } else {
                PNode::Fail { at: p2, expected: Rule::assignment }
            }
        },
    }
}

/// `statement := assignment | function_call`, at `pos` exactly. `statement`
/// is a choice rule: the chosen construct's node stands alone.
pub open spec fn spec_parse_statement(s: Seq<char>, pos: int) -> PNode {
    match spec_parse_symbol_ref(s, pos) {
        PNode::Fail { at, .. } => PNode::Fail { at, expected: Rule::statement },
        PNode::Found { node: name, next: p1 } => {
            let p2 = spec_skip_ws(s, p1);
            if p2 < s.len() && s[p2] == '=' {
                spec_parse_assignment(s, pos)
            } else if p2 < s.len() && s[p2] == '(' {
                spec_parse_function_call(s, pos)
            } else {
                PNode::Fail { at: p2, expected: Rule::statement }
            }
        },
    }
}

/// `statement*` from `pos`, skipping whitespace before each statement, up to
/// the closing brace (`closer`) or, without one, the end of input. `next` is
/// the position of the closer, or the end of input.
pub open spec fn spec_parse_statements(s: Seq<char>, pos: int, closer: Option<char>) -> PList
    decreases s.len() - pos,
{
    let p = spec_skip_ws(s, pos);
    let at_end = match closer {
        Some(c) => p < s.len() && s[p] == c,
        None => p >= s.len(),
    };
    if at_end {
        PList::Found { nodes: Seq::empty(), next: p }
    } else {
        match spec_parse_statement(s, p) {
            PNode::Fail { at, expected } => PList::Fail { at, expected },
            PNode::Found { node, next } => {
                if !(pos < next && next <= s.len()) {
                    PList::Fail { at: next, expected: Rule::statement }
                } else {
                    match spec_parse_statements(s, next, closer) {
                        PList::Found { nodes, next: next2 } => PList::Found {
                            nodes: seq![node] + nodes,
                            next: next2,
                        },
                        fail => fail,
                    }
                }
            },
        }
    }
}

// ---------------------------------------------------------------------------
// Program-level rules
// ---------------------------------------------------------------------------

/// `entry_definition := "entry" symbol_ref`, at `pos` exactly.
pub open spec fn spec_parse_entry_definition(s: Seq<char>, pos: int) -> PNode {
    if 0 <= pos && pos + 5 <= s.len() && s[pos] == 'e' && s[pos + 1] == 'n' && s[pos + 2] == 't'
        && s[pos + 3] == 'r' && s[pos + 4] == 'y' {
        let p1 = spec_skip_ws(s, pos + 5);
        match spec_parse_symbol_ref(s, p1) {
            PNode::Fail { at, expected } => PNode::Fail { at, expected },
            PNode::Found { node: name, next } => PNode::Found {
                node: SpecNode {
                    rule: Rule::entry_definition,
                    start: pos,
                    end: name.end,
                    text: s.subrange(pos, name.end),
                    children: seq![name],
                },
                next,
            },
        }
    } else {
        PNode::Fail { at: pos, expected: Rule::entry_definition }
    }
}

/// `function_declaration := "fn" symbol_ref "(" ")" "{" statement* "}"`, at
/// `pos` exactly. Children: name, the (empty) parameter list, the body.
pub open spec fn spec_parse_function_declaration(s: Seq<char>, pos: int) -> PNode {
    if 0 <= pos && pos + 2 <= s.len() && s[pos] == 'f' && s[pos + 1] == 'n' {
        match spec_parse_symbol_ref(s, spec_skip_ws(s, pos + 2)) {
            PNode::Fail { at, expected } => PNode::Fail { at, expected },
            PNode::Found { node: name, next: p1 } => {
                let p2 = spec_skip_ws(s, p1);
                if p2 < s.len() && s[p2] == '(' {
                    let p3 = spec_skip_ws(s, p2 + 1);
                    if p3 < s.len() && s[p3] == ')' {
                        let params = SpecNode {
                            rule: Rule::fn_params,
                            start: p3,
                            end: p3,
                            text: Seq::empty(),
                            children: Seq::empty(),
                        };
                        let p4 = spec_skip_ws(s, p3 + 1);
                        if p4 < s.len() && s[p4] == '{' {
                            match spec_parse_statements(s, p4 + 1, Some('}')) {
                                PList::Fail { at, expected } => PNode::Fail { at, expected },
                                PList::Found { nodes, next: close } => {
                                    let body = SpecNode {
                                        rule: Rule::fn_body,
                                        start: p4 + 1,
                                        end: close,
                                        text: s.subrange(p4 + 1, close),
                                        children: nodes,
                                    };
                                    if close < s.len() && s[close] == '}' {
                                        PNode::Found {
                                            node: SpecNode {
                                                rule: Rule::function_declaration,
                                                start: pos,
                                                end: close + 1,
                                                text: s.subrange(pos, close + 1),
                                                children: seq![name, params, body],
                                            },
                                            next: close + 1,
                                        }
                                    } else {
                                        PNode::Fail {
                                            at: close,
                                            expected: Rule::function_declaration,
                                        }
                                    }
                                },
                            }
                        } else {
                            PNode::Fail { at: p4, expected: Rule::function_declaration }
                        }
                    } else {
                        PNode::Fail { at: p3, expected: Rule::fn_params }
                    }
                } else {
                    PNode::Fail { at: p2, expected: Rule::function_declaration }
                }
            },
        }
    } else {
        PNode::Fail { at: pos, expected: Rule::function_declaration }
    }
}

/// `(entry_definition | function_declaration)*` from `pos` to end of input.
pub open spec fn spec_parse_program_items(s: Seq<char>, pos: int) -> PList
    decreases s.len() - pos,
{
    let p = spec_skip_ws(s, pos);
    if p >= s.len() {
        PList::Found { nodes: Seq::empty(), next: p }
    } else {
        let item = match spec_parse_entry_definition(s, p) {
            PNode::Found { node, next } => PNode::Found { node, next },
            PNode::Fail { at: ea, expected: ee } => match spec_parse_function_declaration(s, p) {
                PNode::Found { node, next } => PNode::Found { node, next },
                PNode::Fail { at: da, expected: de } => {
                    if da >= ea {
                        PNode::Fail { at: da, expected: de }
                    } else {
                        PNode::Fail { at: ea, expected: ee }
                    }
                },
            },
        };
        match item {
            PNode::Fail { at, expected } => PList::Fail { at, expected },
            PNode::Found { node, next } => {
                if !(pos < next && next <= s.len()) {
                    PList::Fail { at: next, expected: Rule::program }
                } else {
                    match spec_parse_program_items(s, next) {
                        PList::Found { nodes, next: next2 } => PList::Found {
                            nodes: seq![node] + nodes,
                            next: next2,
                        },
                        fail => fail,
                    }
                }
            },
        }
    }
}

/// Model of the end-of-input marker node.
pub open spec fn spec_eoi_node(s: Seq<char>) -> SpecNode {
    SpecNode {
        rule: Rule::EOI,
        start: s.len() as int,
        end: s.len() as int,
        text: Seq::empty(),
        children: Seq::empty(),
    }
}

/// `script := statement* EOI` over the whole input.
pub open spec fn spec_parse_script(s: Seq<char>) -> PNode {
    match spec_parse_statements(s, 0, None) {
        PList::Fail { at, expected } => PNode::Fail { at, expected },
        PList::Found { nodes, .. } => PNode::Found {
            node: SpecNode {
                rule: Rule::script,
                start: 0,
                end: s.len() as int,
                text: s,
                children: nodes.push(spec_eoi_node(s)),
            },
            next: s.len() as int,
        },
    }
}

/// `program := (entry_definition | function_declaration)* EOI` over the
/// whole input.
pub open spec fn spec_parse_program(s: Seq<char>) -> PNode {
    match spec_parse_program_items(s, 0) {
        PList::Fail { at, expected } => PNode::Fail { at, expected },
        PList::Found { nodes, .. } => PNode::Found {
            node: SpecNode {
                rule: Rule::program,
                start: 0,
                end: s.len() as int,
                text: s,
                children: nodes.push(spec_eoi_node(s)),
            },
            next: s.len() as int,
        },
    }
}

/// `source := (script | program) EOI`: script first; if it fails, program;
/// if both fail, the failure that reached farther into the input (the
/// script's on a tie).
pub open spec fn spec_parse_source(s: Seq<char>) -> PNode {
    match spec_parse_script(s) {
        PNode::Found { node, next } => PNode::Found {
            node: SpecNode {
                rule: Rule::source,
                start: 0,
                end: s.len() as int,
                text: s,
                children: seq![node],
            },
            next,
        },
        PNode::Fail { at: sa, expected: se } => match spec_parse_program(s) {
            PNode::Found { node, next } => PNode::Found {
                node: SpecNode {
                    rule: Rule::source,
                    start: 0,
                    end: s.len() as int,
                    text: s,
                    children: seq![node],
                },
                next,
            },
            PNode::Fail { at: pa, expected: pe } => {
                if pa > sa {
                    PNode::Fail { at: pa, expected: pe }
                } else {
                    PNode::Fail { at: sa, expected: se }
                }
            },
        },
    }
}

// ---------------------------------------------------------------------------
// Executable parser
// ---------------------------------------------------------------------------

/// A parse failure: the position that could not be read and the rule
/// expected there.
#[derive(Clone, Copy, Debug, PartialEq, Eq, Structural)]
pub struct ParseFail {
    pub at: usize,
    pub expected: Rule,
}

/// The executable result of parsing one construct matches its model.
pub open spec fn matches_pnode(r: Result<(SyntaxNode, usize), ParseFail>, sp: PNode) -> bool {
    match r {
        Ok((n, next)) => sp == (PNode::Found { node: n@, next: next as int }),
        Err(f) => sp == (PNode::Fail { at: f.at as int, expected: f.expected }),
    }
}

/// The models of a sequence of CST nodes, in order.
pub open spec fn nodes_view(ns: Seq<SyntaxNode>) -> Seq<SpecNode> {
    Seq::new(ns.len(), |i: int| ns[i]@)
}

/// The executable result of parsing a list of constructs matches its model.
pub open spec fn matches_plist(r: Result<(Vec<SyntaxNode>, usize), ParseFail>, sp: PList) -> bool {
    match r {
        Ok((ns, next)) => sp == (PList::Found { nodes: nodes_view(ns@), next: next as int }),
        Err(f) => sp == (PList::Fail { at: f.at as int, expected: f.expected }),
    }
}

/// The node lies inside the input: `pos <= start <= end <= next <= len`.
pub open spec fn node_in_bounds(n: SyntaxNode, pos: int, next: int, len: int) -> bool {
    pos <= n.start as int && n.start as int <= n.end as int && n.end as int <= next && next <= len
}

fn ws_char(c: char) -> (b: bool)
    ensures
        b == is_ws_char(c),
{
    c == ' ' || c == '\t' || c == '\r' || c == '\n'
}

fn letter(c: char) -> (b: bool)
    ensures
        b == is_letter(c),
{
    ('a' as u32 <= c as u32 && c as u32 <= 'z' as u32) || ('A' as u32 <= c as u32 && c as u32
        <= 'Z' as u32)
}

fn ident_char(c: char) -> (b: bool)
    ensures
        b == is_ident_char(c),
{
    letter(c) || ('0' as u32 <= c as u32 && c as u32 <= '9' as u32) || c == '_'
}

fn skip_ws(s: &Vec<char>, pos: usize) -> (r: usize)
    requires
        pos <= s@.len(),
    ensures
        r as int == spec_skip_ws(s@, pos as int),
        pos <= r <= s@.len(),
{
    let mut p = pos;
    while p < s.len() && ws_char(s[p])
        invariant
            pos <= p <= s@.len(),
            spec_skip_ws(s@, pos as int) == spec_skip_ws(s@, p as int),
        decreases s@.len() - p,
    {
        p = p + 1;
    }
    p
}

fn scan_ident_end(s: &Vec<char>, pos: usize) -> (r: usize)
    requires
        pos <= s@.len(),
    ensures
        r as int == spec_scan_ident_end(s@, pos as int),
        pos <= r <= s@.len(),
{
    let mut p = pos;
    while p < s.len() && ident_char(s[p])
        invariant
            pos <= p <= s@.len(),
            spec_scan_ident_end(s@, pos as int) == spec_scan_ident_end(s@, p as int),
        decreases s@.len() - p,
    {
        p = p + 1;
    }
    p
}

fn scan_string_end(s: &Vec<char>, pos: usize) -> (r: Option<usize>)
    requires
        pos <= s@.len(),
    ensures
        match r {
            Some(close) => spec_scan_string_end(s@, pos as int) == Some(close as int) && pos
                <= close < s@.len(),
            None => spec_scan_string_end(s@, pos as int) is None,
        },
{
    let mut p = pos;
    loop
        invariant
            pos <= p <= s@.len(),
            spec_scan_string_end(s@, pos as int) == spec_scan_string_end(s@, p as int),
        decreases s@.len() - p,
    {
        if p >= s.len() {
            return None;
        }
        let c = s[p];
        if c == '"' {
            return Some(p);
        }
        if c == '\\' {
            if p + 1 < s.len() {
                p = p + 2;
            } else {
                return None;
            }
        } else {
            p = p + 1;
        }
    }
}

/// Assembles a CST node from its parts; its model is the same assembly of
/// the parts' models.
fn mk_node_list(rule: Rule, start: usize, end: usize, text: String, children: Vec<SyntaxNode>) -> (r:
    SyntaxNode)
    ensures
        r@ == (SpecNode {
            rule,
            start: start as int,
            end: end as int,
            text: text@,
            children: nodes_view(children@),
        }),
{
    let r = SyntaxNode { rule, start, end, text, children };
    proof {
        lemma_children_view(r, 0);
        assert forall|j: int| 0 <= j < r.children@.len() implies children_view(r, 0)[j]
            == nodes_view(r.children@)[j] by {
            assert(children_view(r, 0)[j] == node_view(r.children[j]));
        }
        assert(children_view(r, 0) =~= nodes_view(r.children@));
        assert(r@ =~= (SpecNode {
            rule,
            start: start as int,
            end: end as int,
            text: text@,
            children: nodes_view(children@),
        }));
    }
    r
}

/// A leaf node.
fn mk_leaf(rule: Rule, start: usize, end: usize, text: String) -> (r: SyntaxNode)
    ensures
        r@ == (SpecNode {
            rule,
            start: start as int,
            end: end as int,
            text: text@,
            children: Seq::empty(),
        }),
{
    let children: Vec<SyntaxNode> = Vec::new();
    proof {
        assert(nodes_view(children@) =~= Seq::<SpecNode>::empty());
    }
    mk_node_list(rule, start, end, text, children)
}

/// A node with one child.
fn mk_node1(rule: Rule, start: usize, end: usize, text: String, c0: SyntaxNode) -> (r: SyntaxNode)
    ensures
        r@ == (SpecNode {
            rule,
            start: start as int,
            end: end as int,
            text: text@,
            children: seq![c0@],
        }),
{
    let mut children: Vec<SyntaxNode> = Vec::new();
    children.push(c0);
    proof {
        assert(nodes_view(children@) =~= seq![c0@]);
    }
    mk_node_list(rule, start, end, text, children)
}

/// A node with two children.
fn mk_node2(rule: Rule, start: usize, end: usize, text: String, c0: SyntaxNode, c1: SyntaxNode) -> (
    r: SyntaxNode)
    ensures
        r@ == (SpecNode {
            rule,
            start: start as int,
            end: end as int,
            text: text@,
            children: seq![c0@, c1@],
        }),
{
    let mut children: Vec<SyntaxNode> = Vec::new();
    children.push(c0);
    children.push(c1);
    proof {
        assert(nodes_view(children@) =~= seq![c0@, c1@]);
    }
    mk_node_list(rule, start, end, text, children)
}

/// A node with three children.
fn mk_node3(
    rule: Rule,
    start: usize,
    end: usize,
    text: String,
    c0: SyntaxNode,
    c1: SyntaxNode,
    c2: SyntaxNode,
) -> (r: SyntaxNode)
    ensures
        r@ == (SpecNode {
            rule,
            start: start as int,
            end: end as int,
            text: text@,
            children: seq![c0@, c1@, c2@],
        }),
{
    let mut children: Vec<SyntaxNode> = Vec::new();
    children.push(c0);
    children.push(c1);
    children.push(c2);
    proof {
        assert(nodes_view(children@) =~= seq![c0@, c1@, c2@]);
    }
    mk_node_list(rule, start, end, text, children)
}

fn parse_symbol_ref(s: &Vec<char>, pos: usize) -> (r: Result<(SyntaxNode, usize), ParseFail>)
    requires
        pos <= s@.len(),
    ensures
        matches_pnode(r, spec_parse_symbol_ref(s@, pos as int)),
        r matches Ok((n, next)) ==> node_in_bounds(n, pos as int, next as int, s@.len() as int),
{
    if pos < s.len() && letter(s[pos]) {
        let end = scan_ident_end(s, pos + 1);
        let text = chars_to_string(s, pos, end);
        let node = mk_leaf(Rule::symbol_ref, pos, end, text);
        proof {
            assert(node@ =~= SpecNode::leaf(Rule::symbol_ref, pos as int, end as int, s@));
        }
        Ok((node, end))
    } else {
        Err(ParseFail { at: pos, expected: Rule::symbol_ref })
    }
}

fn parse_string_literal(s: &Vec<char>, pos: usize) -> (r: Result<(SyntaxNode, usize), ParseFail>)
    requires
        pos <= s@.len(),
    ensures
        matches_pnode(r, spec_parse_string_literal(s@, pos as int)),
        r matches Ok((n, next)) ==> node_in_bounds(n, pos as int, next as int, s@.len() as int),
{
    if pos < s.len() && s[pos] == '"' {
        match scan_string_end(s, pos + 1) {
            Some(close) => {
                let text = chars_to_string(s, pos, close + 1);
                let node = mk_leaf(Rule::string_literal, pos, close + 1, text);
                proof {
                    assert(node@ =~= SpecNode::leaf(
                        Rule::string_literal,
                        pos as int,
                        close + 1,
                        s@,
                    ));
                }
                Ok((node, close + 1))
            },
            None => Err(ParseFail { at: s.len(), expected: Rule::string_literal }),
        }
    } else {
        Err(ParseFail { at: pos, expected: Rule::string_literal })
    }
}

fn parse_value(s: &Vec<char>, pos: usize) -> (r: Result<(SyntaxNode, usize), ParseFail>)
    requires
        pos <= s@.len(),
    ensures
        matches_pnode(r, spec_parse_value(s@, pos as int)),
        r matches Ok((n, next)) ==> node_in_bounds(n, pos as int, next as int, s@.len() as int),
{
    match parse_string_literal(s, pos) {
        Err(f) => Err(f),
        Ok((lit, next)) => {
            let start = lit.start;
            let end = lit.end;
            let text = chars_to_string(s, start, end);
            let node = mk_node1(Rule::value, start, end, text, lit);
            Ok((node, next))
        },
    }
}

fn parse_function_call(s: &Vec<char>, pos: usize) -> (r: Result<(SyntaxNode, usize), ParseFail>)
    requires
        pos <= s@.len(),
    ensures
        matches_pnode(r, spec_parse_function_call(s@, pos as int)),
        r matches Ok((n, next)) ==> node_in_bounds(n, pos as int, next as int, s@.len() as int),
    decreases s@.len() - pos, 0int,
{
    match parse_symbol_ref(s, pos) {
        Err(f) => Err(f),
        Ok((name, p1)) => {
            let p2 = skip_ws(s, p1);
            if p2 < s.len() && s[p2] == '(' {
                let p3 = skip_ws(s, p2 + 1);
                if !(pos < p3 && p3 <= s.len()) {
                    Err(ParseFail { at: p3, expected: Rule::fn_args })
                } else {
                    match parse_fn_args(s, p3) {
                        Err(f) => Err(f),
                        Ok((args, p4)) => {
                            let p5 = skip_ws(s, p4);
                            if p5 < s.len() && s[p5] == ')' {
                                let text = chars_to_string(s, pos, p5 + 1);
                                let node = mk_node2(
                                    Rule::function_call,
                                    pos,
                                    p5 + 1,
                                    text,
                                    name,
                                    args,
                                );
                                Ok((node, p5 + 1))
                            } else {
                                Err(ParseFail { at: p5, expected: Rule::function_call })
                            }
                        },
                    }
                }
            } else {
                Err(ParseFail { at: p2, expected: Rule::function_call })
            }
        },
    }
}

fn parse_expression(s: &Vec<char>, pos: usize) -> (r: Result<(SyntaxNode, usize), ParseFail>)
    requires
        pos <= s@.len(),
    ensures
        matches_pnode(r, spec_parse_expression(s@, pos as int)),
        r matches Ok((n, next)) ==> node_in_bounds(n, pos as int, next as int, s@.len() as int),
    decreases s@.len() - pos, 1int,
{
    if pos < s.len() && s[pos] == '"' {
        parse_value(s, pos)
    } else {
        match parse_function_call(s, pos) {
            Ok((node, next)) => Ok((node, next)),
            Err(_) => match parse_symbol_ref(s, pos) {
                Ok((node, next)) => Ok((node, next)),
                Err(f) => Err(ParseFail { at: f.at, expected: Rule::expression }),
            },
        }
    }
}

fn parse_args_list(s: &Vec<char>, pos: usize) -> (r: Result<(Vec<SyntaxNode>, usize), ParseFail>)
    requires
        pos <= s@.len(),
    ensures
        matches_plist(r, spec_parse_args_list(s@, pos as int)),
        r matches Ok((ns, next)) ==> pos < next <= s@.len(),
    decreases s@.len() - pos, 2int,
{
    match parse_expression(s, pos) {
        Err(f) => Err(f),
        Ok((node, next)) => {
            if !(pos < next && next <= s.len()) {
                Err(ParseFail { at: next, expected: Rule::expression })
            } else {
                let p = skip_ws(s, next);
                if p < s.len() && s[p] == ',' {
                    let p2 = skip_ws(s, p + 1);
                    if !(pos < p2 && p2 <= s.len()) {
                        Err(ParseFail { at: p2, expected: Rule::expression })
                    } else {
                        match parse_args_list(s, p2) {
                            Err(f) => Err(f),
                            Ok((mut nodes, next2)) => {
                                proof {
                                    assert(nodes_view(nodes@.insert(0, node)) =~= seq![node@]
                                        + nodes_view(nodes@));
                                }
                                nodes.insert(0, node);
                                Ok((nodes, next2))
                            },
                        }
                    }
                } else {
                    let mut nodes: Vec<SyntaxNode> = Vec::new();
                    nodes.push(node);
                    proof {
                        assert(nodes_view(nodes@) =~= seq![node@]);
                    }
                    Ok((nodes, next))
                }
            }
        },
    }
}

fn parse_fn_args(s: &Vec<char>, pos: usize) -> (r: Result<(SyntaxNode, usize), ParseFail>)
    requires
        pos <= s@.len(),
    ensures
        matches_pnode(r, spec_parse_fn_args(s@, pos as int)),
        r matches Ok((n, next)) ==> node_in_bounds(n, pos as int, next as int, s@.len() as int),
    decreases s@.len() - pos, 3int,
{
    if pos >= s.len() || s[pos] == ')' {
        let node = mk_leaf(Rule::fn_args, pos, pos, String::new());
        Ok((node, pos))
    } else {
        match parse_args_list(s, pos) {
            Err(f) => Err(f),
            Ok((nodes, next)) => {
                let text = chars_to_string(s, pos, next);
                let node = mk_node_list(Rule::fn_args, pos, next, text, nodes);
                Ok((node, next))
            },
        }
    }
}

fn parse_assignment(s: &Vec<char>, pos: usize) -> (r: Result<(SyntaxNode, usize), ParseFail>)
    requires
        pos <= s@.len(),
    ensures
        matches_pnode(r, spec_parse_assignment(s@, pos as int)),
        r matches Ok((n, next)) ==> node_in_bounds(n, pos as int, next as int, s@.len() as int),
{
    match parse_symbol_ref(s, pos) {
        Err(f) => Err(ParseFail { at: f.at, expected: Rule::assignment }),
        Ok((name, p1)) => {
            let p2 = skip_ws(s, p1);
            if p2 < s.len() && s[p2] == '=' {
                let p3 = skip_ws(s, p2 + 1);
                match parse_expression(s, p3) {
                    Err(f) => Err(f),
                    Ok((e, next)) => {
                        let end = e.end;
                        let text = chars_to_string(s, pos, end);
                        let node = mk_node2(Rule::assignment, pos, end, text, name, e);
                        Ok((node, next))
                    },
                }
            } else {
                Err(ParseFail { at: p2, expected: Rule::assignment })
            }
        },
    }
}

fn parse_statement(s: &Vec<char>, pos: usize) -> (r: Result<(SyntaxNode, usize), ParseFail>)
    requires
        pos <= s@.len(),
    ensures
        matches_pnode(r, spec_parse_statement(s@, pos as int)),
        r matches Ok((n, next)) ==> node_in_bounds(n, pos as int, next as int, s@.len() as int),
{
    match parse_symbol_ref(s, pos) {
        Err(f) => Err(ParseFail { at: f.at, expected: Rule::statement }),
        Ok((_name, p1)) => {
            let p2 = skip_ws(s, p1);
            if p2 < s.len() && s[p2] == '=' {
                parse_assignment(s, pos)
            } else if p2 < s.len() && s[p2] == '(' {
                parse_function_call(s, pos)
            } else {
                Err(ParseFail { at: p2, expected: Rule::statement })
            }
        },
    }
}

fn parse_statements(s: &Vec<char>, pos: usize, closer: Option<char>) -> (r: Result<
    (Vec<SyntaxNode>, usize),
    ParseFail,
>)
    requires
        pos <= s@.len(),
    ensures
        matches_plist(r, spec_parse_statements(s@, pos as int, closer)),
        r matches Ok((ns, next)) ==> pos <= next <= s@.len(),
    decreases s@.len() - pos,
{
    let p = skip_ws(s, pos);
    let at_end = match closer {
        Some(c) => p < s.len() && s[p] == c,
        None => p >= s.len(),
    };
    if at_end {
        let nodes: Vec<SyntaxNode> = Vec::new();
        proof {
            assert(nodes_view(nodes@) =~= Seq::<SpecNode>::empty());
        }
        Ok((nodes, p))
    } else {
        match parse_statement(s, p) {
            Err(f) => Err(f),
            Ok((node, next)) => {
                if !(pos < next && next <= s.len()) {
                    Err(ParseFail { at: next, expected: Rule::statement })
                } else {
                    match parse_statements(s, next, closer) {
                        Err(f) => Err(f),
                        Ok((mut nodes, next2)) => {
                            proof {
                                assert(nodes_view(nodes@.insert(0, node)) =~= seq![node@]
                                    + nodes_view(nodes@));
                            }
                            nodes.insert(0, node);
                            Ok((nodes, next2))
                        },
                    }
                }
            },
        }
    }
}

fn parse_entry_definition(s: &Vec<char>, pos: usize) -> (r: Result<(SyntaxNode, usize), ParseFail>)
    requires
        pos <= s@.len(),
    ensures
        matches_pnode(r, spec_parse_entry_definition(s@, pos as int)),
        r matches Ok((n, next)) ==> node_in_bounds(n, pos as int, next as int, s@.len() as int),
{
    if s.len() - pos >= 5 && s[pos] == 'e' && s[pos + 1] == 'n' && s[pos + 2] == 't' && s[pos + 3]
        == 'r' && s[pos + 4] == 'y' {
        let p1 = skip_ws(s, pos + 5);
        match parse_symbol_ref(s, p1) {
            Err(f) => Err(f),
            Ok((name, next)) => {
                let end = name.end;
                let text = chars_to_string(s, pos, end);
                let node = mk_node1(Rule::entry_definition, pos, end, text, name);
                Ok((node, next))
            },
        }
    } else {
        Err(ParseFail { at: pos, expected: Rule::entry_definition })
    }
}

fn parse_function_declaration(s: &Vec<char>, pos: usize) -> (r: Result<
    (SyntaxNode, usize),
    ParseFail,
>)
    requires
        pos <= s@.len(),
    ensures
        matches_pnode(r, spec_parse_function_declaration(s@, pos as int)),
        r matches Ok((n, next)) ==> node_in_bounds(n, pos as int, next as int, s@.len() as int),
{
    if s.len() - pos >= 2 && s[pos] == 'f' && s[pos + 1] == 'n' {
        let pname = skip_ws(s, pos + 2);
        match parse_symbol_ref(s, pname) {
            Err(f) => Err(f),
            Ok((name, p1)) => {
                let p2 = skip_ws(s, p1);
                if p2 < s.len() && s[p2] == '(' {
                    let p3 = skip_ws(s, p2 + 1);
                    if p3 < s.len() && s[p3] == ')' {
                        let params = mk_leaf(Rule::fn_params, p3, p3, String::new());
                        let p4 = skip_ws(s, p3 + 1);
                        if p4 < s.len() && s[p4] == '{' {
                            match parse_statements(s, p4 + 1, Some('}')) {
                                Err(f) => Err(f),
                                Ok((stmts, close)) => {
                                    let body_text = chars_to_string(s, p4 + 1, close);
                                    let body = mk_node_list(
                                        Rule::fn_body,
                                        p4 + 1,
                                        close,
                                        body_text,
                                        stmts,
                                    );
                                    if close < s.len() && s[close] == '}' {
                                        let text = chars_to_string(s, pos, close + 1);
                                        let node = mk_node3(
                                            Rule::function_declaration,
                                            pos,
                                            close + 1,
                                            text,
                                            name,
                                            params,
                                            body,
                                        );
                                        Ok((node, close + 1))
                                    } else {
                                        Err(ParseFail {
                                            at: close,
                                            expected: Rule::function_declaration,
                                        })
                                    }
                                },
                            }
                        } else {
                            Err(ParseFail { at: p4, expected: Rule::function_declaration })
                        }
                    } else {
                        Err(ParseFail { at: p3, expected: Rule::fn_params })
                    }
                } else {
                    Err(ParseFail { at: p2, expected: Rule::function_declaration })
                }
            },
        }
    } else {
        Err(ParseFail { at: pos, expected: Rule::function_declaration })
    }
}

fn parse_program_items(s: &Vec<char>, pos: usize) -> (r: Result<(Vec<SyntaxNode>, usize), ParseFail>)
    requires
        pos <= s@.len(),
    ensures
        matches_plist(r, spec_parse_program_items(s@, pos as int)),
        r matches Ok((ns, next)) ==> pos <= next <= s@.len(),
    decreases s@.len() - pos,
{
    let p = skip_ws(s, pos);
    if p >= s.len() {
        let nodes: Vec<SyntaxNode> = Vec::new();
        proof {
            assert(nodes_view(nodes@) =~= Seq::<SpecNode>::empty());
        }
        Ok((nodes, p))
    } else {
        let item = match parse_entry_definition(s, p) {
            Ok((node, next)) => Ok((node, next)),
            Err(ef) => match parse_function_declaration(s, p) {
                Ok((node, next)) => Ok((node, next)),
                Err(df) => {
                    if df.at >= ef.at {
                        Err(ParseFail { at: df.at, expected: df.expected })
                    } else {
                        Err(ParseFail { at: ef.at, expected: ef.expected })
                    }
                },
            },
        };
        match item {
            Err(f) => Err(f),
            Ok((node, next)) => {
                if !(pos < next && next <= s.len()) {
                    Err(ParseFail { at: next, expected: Rule::program })
                } else {
                    match parse_program_items(s, next) {
                        Err(f) => Err(f),
                        Ok((mut nodes, next2)) => {
                            proof {
                                assert(nodes_view(nodes@.insert(0, node)) =~= seq![node@]
                                    + nodes_view(nodes@));
                            }
                            nodes.insert(0, node);
                            Ok((nodes, next2))
                        },
                    }
                }
            },
        }
    }
}

fn mk_eoi(s: &Vec<char>) -> (r: SyntaxNode)
    ensures
        r@ == spec_eoi_node(s@),
{
    mk_leaf(Rule::EOI, s.len(), s.len(), String::new())
}

fn parse_script(s: &Vec<char>) -> (r: Result<(SyntaxNode, usize), ParseFail>)
    ensures
        matches_pnode(r, spec_parse_script(s@)),
{
    match parse_statements(s, 0, None) {
        Err(f) => Err(f),
        Ok((mut nodes, _)) => {
            let eoi = mk_eoi(s);
            proof {
                assert(nodes_view(nodes@.push(eoi)) =~= nodes_view(nodes@).push(spec_eoi_node(s@)));
            }
            nodes.push(eoi);
            let text = chars_to_string(s, 0, s.len());
            proof {
                assert(s@.subrange(0, s@.len() as int) =~= s@);
            }
            let node = mk_node_list(Rule::script, 0, s.len(), text, nodes);
            Ok((node, s.len()))
        },
    }
}

fn parse_program(s: &Vec<char>) -> (r: Result<(SyntaxNode, usize), ParseFail>)
    ensures
        matches_pnode(r, spec_parse_program(s@)),
{
    match parse_program_items(s, 0) {
        Err(f) => Err(f),
        Ok((mut nodes, _)) => {
            let eoi = mk_eoi(s);
            proof {
                assert(nodes_view(nodes@.push(eoi)) =~= nodes_view(nodes@).push(spec_eoi_node(s@)));
            }
            nodes.push(eoi);
            let text = chars_to_string(s, 0, s.len());
            proof {
                assert(s@.subrange(0, s@.len() as int) =~= s@);
            }
            let node = mk_node_list(Rule::program, 0, s.len(), text, nodes);
            Ok((node, s.len()))
        },
    }
}

fn parse_source(s: &Vec<char>) -> (r: Result<(SyntaxNode, usize), ParseFail>)
    ensures
        matches_pnode(r, spec_parse_source(s@)),
{
    let script = parse_script(s);
    match script {
        Ok((node, next)) => {
            let text = chars_to_string(s, 0, s.len());
            proof {
                assert(s@.subrange(0, s@.len() as int) =~= s@);
            }
            let src = mk_node1(Rule::source, 0, s.len(), text, node);
            Ok((src, next))
        },
        Err(sf) => match parse_program(s) {
            Ok((node, next)) => {
                let text = chars_to_string(s, 0, s.len());
                proof {
                    assert(s@.subrange(0, s@.len() as int) =~= s@);
                }
                let src = mk_node1(Rule::source, 0, s.len(), text, node);
                Ok((src, next))
            },
            Err(pf) => {
                if pf.at > sf.at {
                    Err(ParseFail { at: pf.at, expected: pf.expected })
                } else {
                    Err(ParseFail { at: sf.at, expected: sf.expected })
                }
            },
        },
    }
}

/// A parsed function call always has exactly two children: the callee
/// symbol and the argument list.
pub proof fn lemma_parse_function_call_shape(s: Seq<char>, pos: int)
    ensures
        spec_parse_function_call(s, pos) matches PNode::Found { node, .. } ==> node.rule
            == Rule::function_call && node.children.len() == 2 && node.children[0].rule
            == Rule::symbol_ref && node.children[1].rule == Rule::fn_args,
{
}

// ---------------------------------------------------------------------------
// Public parser interface
// ---------------------------------------------------------------------------

/// What parsing the given start rule returns on `s`: the top-level rules
/// parse the whole input; every other rule is parsed at the first
/// non-whitespace position, with trailing input ignored.
pub open spec fn spec_parse_rule(rule: Rule, s: Seq<char>) -> PNode {
    let p = spec_skip_ws(s, 0);
    match rule {
        Rule::source => spec_parse_source(s),
        Rule::script => spec_parse_script(s),
        Rule::program => spec_parse_program(s),
        Rule::statement => spec_parse_statement(s, p),
        Rule::assignment => spec_parse_assignment(s, p),
        Rule::function_call => spec_parse_function_call(s, p),
        Rule::fn_args => spec_parse_fn_args(s, p),
        Rule::expression => spec_parse_expression(s, p),
        Rule::value => spec_parse_value(s, p),
        Rule::string_literal => spec_parse_string_literal(s, p),
        Rule::symbol_ref => spec_parse_symbol_ref(s, p),
        Rule::entry_definition => spec_parse_entry_definition(s, p),
        Rule::function_declaration => spec_parse_function_declaration(s, p),
        Rule::fn_params => PNode::Found {
            node: SpecNode {
                rule: Rule::fn_params,
                start: p,
                end: p,
                text: Seq::empty(),
                children: Seq::empty(),
            },
            next: p,
        },
        Rule::fn_body => match spec_parse_statements(s, 0, None) {
            PList::Fail { at, expected } => PNode::Fail { at, expected },
            PList::Found { nodes, .. } => PNode::Found {
                node: SpecNode {
                    rule: Rule::fn_body,
                    start: 0,
                    end: s.len() as int,
                    text: s,
                    children: nodes,
                },
                next: s.len() as int,
            },
        },
        Rule::EOI => {
            if p >= s.len() {
                PNode::Found { node: spec_eoi_node(s), next: s.len() as int }
            } else {
                PNode::Fail { at: p, expected: Rule::EOI }
            }
        },
    }
}

/// The nodes matched by one parse: always exactly one for a successful
/// parse of a single start rule.
pub struct Pairs {
    pub nodes: Vec<SyntaxNode>,
}

impl Pairs {
    /// The single node of this parse result; `UniqueConstraintViolation` if
    /// there is none or more than one.
    pub fn unique_pair(self) -> (r: Result<SyntaxNode, IllegalSourceState>)
        ensures
            match r {
                Ok(n) => self.nodes@.len() == 1 && n == self.nodes[0],
                Err(e) => self.nodes@.len() != 1 && e@
                    == crate::errors::IllegalSourceStateSpec::UniqueConstraintViolation,
            },
    {
        let mut nodes = self.nodes;
        if nodes.len() == 1 {
            Ok(nodes.remove(0))
        } else {
            Err(IllegalSourceState::UniqueConstraintViolation)
        }
    }

    /// The single node of a parse result known to hold exactly one.
    pub fn expect_unique_pair(self) -> (r: SyntaxNode)
        requires
            self.nodes@.len() == 1,
        ensures
            r == self.nodes[0],
    {
        let mut nodes = self.nodes;
        nodes.remove(0)
    }
}

impl SyntaxNode {
    /// The single child of this node; `UniqueConstraintViolation` if it has
    /// none or more than one.
    pub fn unique_inner(self) -> (r: Result<SyntaxNode, IllegalSourceState>)
        ensures
            match r {
                Ok(n) => self@.children.len() == 1 && n@ == self@.children[0],
                Err(e) => self@.children.len() != 1 && e@
                    == crate::errors::IllegalSourceStateSpec::UniqueConstraintViolation,
            },
    {
        proof {
            lemma_children_view(self, 0);
        }
        let mut children = self.children;
        if children.len() == 1 {
            Ok(children.remove(0))
        } else {
            Err(IllegalSourceState::UniqueConstraintViolation)
        }
    }
}

/// The parser: drives the grammar over an input string, producing a CST or
/// a syntax error with a source position.
pub struct CurryParser;

impl CurryParser {
    /// Parses `input` against the given start rule. On success the result
    /// holds exactly one node: the CST of the matched construct.
    pub fn parse(rule: Rule, input: &str) -> (r: Result<Pairs, CompileError>)
        ensures
            match r {
                Ok(pairs) => spec_parse_rule(rule, input@) matches PNode::Found { node, .. }
                    && pairs.nodes@.len() == 1 && pairs.nodes[0]@ == node,
                Err(e) => spec_parse_rule(rule, input@) matches PNode::Fail { at, expected } && e@
                    == (crate::errors::CompileErrorSpec::SyntaxError { offset: at, expected }),
            },
    {
        let s = str_to_chars(input);
        let p = skip_ws(&s, 0);
        let parsed: Result<(SyntaxNode, usize), ParseFail> = match rule {
            Rule::source => parse_source(&s),
            Rule::script => parse_script(&s),
            Rule::program => parse_program(&s),
            Rule::statement => parse_statement(&s, p),
            Rule::assignment => parse_assignment(&s, p),
            Rule::function_call => parse_function_call(&s, p),
            Rule::fn_args => parse_fn_args(&s, p),
            Rule::expression => parse_expression(&s, p),
            Rule::value => parse_value(&s, p),
            Rule::string_literal => parse_string_literal(&s, p),
            Rule::symbol_ref => parse_symbol_ref(&s, p),
            Rule::entry_definition => parse_entry_definition(&s, p),
            Rule::function_declaration => parse_function_declaration(&s, p),
            Rule::fn_params => Ok((mk_leaf(Rule::fn_params, p, p, String::new()), p)),
            Rule::fn_body => match parse_statements(&s, 0, None) {
                Err(f) => Err(f),
                Ok((stmts, _)) => {
                    let text = chars_to_string(&s, 0, s.len());
                    proof {
                        assert(s@.subrange(0, s@.len() as int) =~= s@);
                    }
                    Ok((mk_node_list(Rule::fn_body, 0, s.len(), text, stmts), s.len()))
                },
            },
            Rule::EOI => {
                if p >= s.len() {
                    Ok((mk_eoi(&s), s.len()))
                } else {
                    Err(ParseFail { at: p, expected: Rule::EOI })
                }
            },
        };
        match parsed {
            Ok((node, _next)) => {
                let mut nodes: Vec<SyntaxNode> = Vec::new();
                nodes.push(node);
                Ok(Pairs { nodes })
            },
            Err(f) => Err(CompileError::SyntaxError { offset: f.at, expected: f.expected }),
        }
    }
}

/// What `parse_to_ast` returns: the script or program node of the source
/// CST, or the failure position and expected rule.
pub open spec fn spec_parse_to_ast(s: Seq<char>) -> PNode {
    match spec_parse_source(s) {
        PNode::Found { node, next } => PNode::Found { node: node.children[0], next },
        fail => fail,
    }
}

/// Parses a whole compilation unit and hands back the root of its CST: the
/// `script` or `program` node. Fails only with a syntax error carrying the
/// offset of the failure and the rule expected there.
pub fn parse_to_ast(input: &str) -> (r: Result<SyntaxNode, CompileError>)
    ensures
        match r {
            Ok(n) => spec_parse_to_ast(input@) matches PNode::Found { node, .. } && n@ == node,
            Err(e) => spec_parse_to_ast(input@) matches PNode::Fail { at, expected } && e@
                == (crate::errors::CompileErrorSpec::SyntaxError { offset: at, expected }),
        },
{
    let s = str_to_chars(input);
    match parse_source(&s) {
        Err(f) => Err(CompileError::SyntaxError { offset: f.at, expected: f.expected }),
        Ok((node, _next)) => {
            proof {
                lemma_children_view(node, 0);
            }
            match node.unique_inner() {
                Ok(inner) => Ok(inner),
                // a source node always holds exactly one child
                Err(_) => Err(CompileError::SyntaxError { offset: 0, expected: Rule::source }),
            }
        },
    }
}

} // verus!
