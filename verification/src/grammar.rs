//! The language's syntax rules and the concrete syntax tree (CST).
//!
//! A CST node records which grammar rule produced it, the half-open span of
//! source characters it covers, the covered text itself, and its children in
//! source order.
use vstd::prelude::*;

verus! {

broadcast use vstd::std_specs::vec::axiom_vec_index_decreases;

/// The closed set of grammar rules. Each CST node is labelled with the rule
/// that produced it. `statement` and `expression` are choice rules: they never
/// label a node themselves, but name the expected construct in diagnostics.
#[allow(non_camel_case_types)]
#[derive(Clone, Copy, Debug, PartialEq, Eq, Structural)]
pub enum Rule {
    source,
    script,
    program,
    entry_definition,
    function_declaration,
    fn_params,
    fn_body,
    statement,
    assignment,
    function_call,
    fn_args,
    expression,
    value,
    string_literal,
    symbol_ref,
    EOI,
}

/// Mathematical model of a CST node: spans as unbounded integers, text as a
/// character sequence, children as a sequence of models.
#[verifier::ext_equal]
pub ghost struct SpecNode {
    pub rule: Rule,
    pub start: int,
    pub end: int,
    pub text: Seq<char>,
    pub children: Seq<SpecNode>,
}

/// A node of the concrete syntax tree. `text` is the source text covered by
/// the half-open span `start..end` (in characters, not bytes).
#[derive(Debug, PartialEq, Eq)]
pub struct SyntaxNode {
    pub rule: Rule,
    pub start: usize,
    pub end: usize,
    pub text: String,
    pub children: Vec<SyntaxNode>,
}

/// Model of a CST node: the node itself field for field, its children
/// recursively.
pub open spec fn node_view(n: SyntaxNode) -> SpecNode
    decreases n, 1int, 0int,
{
    SpecNode {
        rule: n.rule,
        start: n.start as int,
        end: n.end as int,
        text: n.text@,
        children: children_view(n, 0),
    }
}

/// Models of the children of `n` from index `i` on, in order.
pub open spec fn children_view(n: SyntaxNode, i: int) -> Seq<SpecNode>
    decreases n, 0int, n.children.len() - i,
    via children_view_dec
{
    if 0 <= i < n.children.len() {
        seq![node_view(n.children[i])] + children_view(n, i + 1)
    } else {
        Seq::empty()
    }
}

#[via_fn]
proof fn children_view_dec(n: SyntaxNode, i: int) {
    if 0 <= i < n.children.len() {
        assert(decreases_to!(n => n.children));
        vstd::std_specs::vec::axiom_vec_index_decreases(n.children, i);
    }
}

impl View for SyntaxNode {
    type V = SpecNode;

    open spec fn view(&self) -> SpecNode {
        node_view(*self)
    }
}

/// `children_view(n, i)` holds exactly the models of the children from `i`
/// on: one entry per child, each the model of the corresponding child.
pub proof fn lemma_children_view(n: SyntaxNode, i: int)
    requires
        0 <= i <= n.children.len(),
    ensures
        children_view(n, i).len() == n.children.len() - i,
        forall|j: int|
            i <= j < n.children.len() ==> children_view(n, i)[j - i] == node_view(n.children[j]),
    decreases n.children.len() - i,
{
    if i < n.children.len() {
        lemma_children_view(n, i + 1);
    }
}

impl SpecNode {
    /// Model of a leaf node covering `start..end` of the source `s`.
    pub open spec fn leaf(rule: Rule, start: int, end: int, s: Seq<char>) -> SpecNode {
        SpecNode { rule, start, end, text: s.subrange(start, end), children: Seq::empty() }
    }
}

} // verus!
