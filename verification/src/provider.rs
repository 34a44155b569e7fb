//! Small ownership demonstrations that stand apart from the compilation
//! pipeline: a provider that owns a value and hands out views of it, and a
//! factory that builds a wrapper owning both a value and a view of it.
use vstd::prelude::*;
use crate::ast::clone_string;

verus! {

/// A named piece of text.
#[derive(Debug, Clone)]
pub struct Foo {
    pub text: String,
}

/// A view onto the text of a [`Foo`].
#[derive(Debug, Clone)]
pub struct Bar {
    pub foo: Foo,
}

/// Owns a [`Foo`] and hands out [`Bar`]s over it.
#[derive(Debug)]
pub struct BarProvider {
    pub foo: Foo,
}

impl BarProvider {
    /// A view onto the owned text.
    pub fn create_bar(&self) -> (r: Bar)
        ensures
            r.foo.text@ == self.foo.text@,
    {
        Bar { foo: Foo { text: clone_string(&self.foo.text) } }
    }
}

/// A provider over the given text.
pub fn test(text: &str) -> (r: BarProvider)
    ensures
        r.foo.text@ == text@,
{
    BarProvider { foo: Foo { text: String::from_str(text) } }
}

/// Owns a value and, alongside it, a view of that value.
#[derive(Debug)]
pub struct Wrapper {
    pub foo: Foo,
    pub bar: Option<Bar>,
}

/// Builds a wrapper whose view shows the text the wrapper owns.
pub fn factory() -> (r: Box<Wrapper>)
    ensures
        r.bar matches Some(b) && b.foo.text@ == r.foo.text@,
{
    let foo = Foo { text: String::from_str("unsafe hackish test") };
    let bar = Bar { foo: Foo { text: clone_string(&foo.text) } };
    Box::new(Wrapper { foo, bar: Some(bar) })
}

} // verus!
