//! Diagnostics: every fallible operation of the pipeline returns one of
//! these structured errors; nothing panics and nothing is logged silently.
use vstd::prelude::*;
use crate::grammar::Rule;

verus! {

/// Model of [`IllegalSourceState`].
#[verifier::ext_equal]
pub ghost enum IllegalSourceStateSpec {
    UniqueConstraintViolation,
    IllegalRule { rule: Rule, context: Seq<char> },
}

/// A CST node had the wrong shape for the conversion attempted on it.
#[derive(Debug, PartialEq, Eq)]
pub enum IllegalSourceState {
    /// Exactly one inner node was expected, but none or several were there.
    UniqueConstraintViolation,
    /// A node of this rule is not allowed in the context described.
    IllegalRule { rule: Rule, context: String },
}

impl View for IllegalSourceState {
    type V = IllegalSourceStateSpec;

    open spec fn view(&self) -> IllegalSourceStateSpec {
        match self {
            IllegalSourceState::UniqueConstraintViolation => {
                IllegalSourceStateSpec::UniqueConstraintViolation
            },
            IllegalSourceState::IllegalRule { rule, context } => {
                IllegalSourceStateSpec::IllegalRule { rule: *rule, context: context@ }
            },
        }
    }
}

/// The parser-side error surface: structural faults found while reading a
/// CST back.
#[derive(Debug, PartialEq, Eq)]
pub enum InvalidParserState {
    IllegalSourceState(IllegalSourceState),
}

impl View for InvalidParserState {
    type V = IllegalSourceStateSpec;

    open spec fn view(&self) -> IllegalSourceStateSpec {
        match self {
            InvalidParserState::IllegalSourceState(state) => state@,
        }
    }
}

impl InvalidParserState {
    /// An `IllegalRule` fault naming the context in which the rule stood.
    pub fn illegal_rule_with_context(rule: Rule, context: String) -> (r: IllegalSourceState)
        ensures
            r@ == (IllegalSourceStateSpec::IllegalRule { rule, context: context@ }),
    {
        IllegalSourceState::IllegalRule { rule, context }
    }

    /// An `IllegalRule` fault with no further context.
    pub fn illegal_rule(rule: Rule) -> (r: IllegalSourceState)
        ensures
            r@ == (IllegalSourceStateSpec::IllegalRule { rule, context: Seq::empty() }),
    {
        IllegalSourceState::IllegalRule { rule, context: String::new() }
    }
}

/// Model of [`CompileError`].
#[verifier::ext_equal]
pub ghost enum CompileErrorSpec {
    SyntaxError { offset: int, expected: Rule },
    StructuralError { state: IllegalSourceStateSpec },
    UndefinedSymbol { name: Seq<char> },
    DuplicateDefinition { name: Seq<char> },
    MissingEntry,
    UnsupportedConstruct,
}

/// The single error surface of a compilation: an input is either compiled
/// whole or rejected with exactly one of these diagnostics.
#[derive(Debug, PartialEq, Eq)]
pub enum CompileError {
    /// The input does not match the grammar; `offset` is the character
    /// position of the failure and `expected` the rule wanted there.
    SyntaxError { offset: usize, expected: Rule },
    /// A CST node had the wrong shape for the AST conversion attempted.
    StructuralError { state: IllegalSourceState },
    /// A call or variable reference names something not defined before use.
    UndefinedSymbol { name: String },
    /// An assignment reuses a name already bound in the same function scope,
    /// or a program defines more than one entry point or function name.
    DuplicateDefinition { name: String },
    /// Program-mode compilation lacks an entry definition.
    MissingEntry,
    /// A grammar-accepted form that has no code-generation rule yet.
    UnsupportedConstruct,
}

impl View for CompileError {
    type V = CompileErrorSpec;

    open spec fn view(&self) -> CompileErrorSpec {
        match self {
            CompileError::SyntaxError { offset, expected } => {
                CompileErrorSpec::SyntaxError { offset: *offset as int, expected: *expected }
            },
            CompileError::StructuralError { state } => {
                CompileErrorSpec::StructuralError { state: state@ }
            },
            CompileError::UndefinedSymbol { name } => {
                CompileErrorSpec::UndefinedSymbol { name: name@ }
            },
            CompileError::DuplicateDefinition { name } => {
                CompileErrorSpec::DuplicateDefinition { name: name@ }
            },
            CompileError::MissingEntry => CompileErrorSpec::MissingEntry,
            CompileError::UnsupportedConstruct => CompileErrorSpec::UnsupportedConstruct,
        }
    }
}

} // verus!
