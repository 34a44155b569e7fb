//! The intermediate representation: the in-memory artifact of a
//! compilation. A module owns its builtin declarations and its functions;
//! each function holds the instructions of its single entry block, ending
//! in a return. Local storage is addressed by slot: the n-th `Alloca` of a
//! body creates slot n.
use vstd::prelude::*;

verus! {

/// Model of a builtin declaration.
#[verifier::ext_equal]
pub ghost struct DeclSpec {
    pub name: Seq<char>,
    pub variadic: bool,
}

/// Model of an argument value handed to a call.
#[verifier::ext_equal]
pub ghost enum ArgSpec {
    ConstString { chars: Seq<char> },
    Ptr { slot: int },
}

/// Model of an instruction.
#[verifier::ext_equal]
pub ghost enum InstrSpec {
    Alloca { name: Seq<char> },
    Store { slot: int, chars: Seq<char> },
    Call { callee: Seq<char>, args: Seq<ArgSpec> },
    Ret,
}

/// Model of a function.
#[verifier::ext_equal]
pub ghost struct FunctionSpec {
    pub name: Seq<char>,
    pub body: Seq<InstrSpec>,
}

/// Model of a module.
#[verifier::ext_equal]
pub ghost struct ModuleSpec {
    pub name: Seq<char>,
    pub builtins: Seq<DeclSpec>,
    pub functions: Seq<FunctionSpec>,
}

/// A function declared but not defined in this compilation unit: callable
/// by name, provided by the runtime. The one builtin declared here takes a
/// pointer-to-characters format argument, accepts a variable number of
/// further arguments, and returns nothing.
#[derive(Debug, PartialEq, Eq)]
pub struct Declaration {
    pub name: String,
    pub variadic: bool,
}

/// An argument value handed to a call: string constants and variables are
/// both passed as a pointer to their underlying character data.
#[derive(Debug, PartialEq, Eq)]
pub enum ArgValue {
    /// The address of a string constant holding these (decoded) characters.
    ConstString(String),
    /// The address of the local storage slot.
    Ptr(usize),
}

/// One instruction of a function body.
#[derive(Debug, PartialEq, Eq)]
pub enum Instruction {
    /// Allocates local storage; creates the next free slot, under the name
    /// of the variable it backs.
    Alloca { name: String },
    /// Stores a string constant's characters into a slot.
    Store { slot: usize, chars: String },
    /// Calls `callee` with the given arguments.
    Call { callee: String, args: Vec<ArgValue> },
    /// Returns from the function; terminates the entry block.
    Ret,
}

/// A sealed function: its name and the instructions of its entry block.
#[derive(Debug, PartialEq, Eq)]
pub struct Function {
    pub name: String,
    pub body: Vec<Instruction>,
}

/// A named module: the builtin declarations and the functions it owns.
#[derive(Debug, PartialEq, Eq)]
pub struct Module {
    pub name: String,
    pub builtins: Vec<Declaration>,
    pub functions: Vec<Function>,
}

impl View for Declaration {
    type V = DeclSpec;

    open spec fn view(&self) -> DeclSpec {
        DeclSpec { name: self.name@, variadic: self.variadic }
    }
}

impl View for ArgValue {
    type V = ArgSpec;

    open spec fn view(&self) -> ArgSpec {
        match self {
            ArgValue::ConstString(s) => ArgSpec::ConstString { chars: s@ },
            ArgValue::Ptr(slot) => ArgSpec::Ptr { slot: *slot as int },
        }
    }
}

impl View for Instruction {
    type V = InstrSpec;

    open spec fn view(&self) -> InstrSpec {
        match self {
            Instruction::Alloca { name } => InstrSpec::Alloca { name: name@ },
            Instruction::Store { slot, chars } => InstrSpec::Store {
                slot: *slot as int,
                chars: chars@,
            },
            Instruction::Call { callee, args } => InstrSpec::Call {
                callee: callee@,
                args: Seq::new(args.len() as nat, |i: int| args[i]@),
            },
            Instruction::Ret => InstrSpec::Ret,
        }
    }
}

impl View for Function {
    type V = FunctionSpec;

    open spec fn view(&self) -> FunctionSpec {
        FunctionSpec { name: self.name@, body: Seq::new(self.body.len() as nat, |i: int| self.body[i]@) }
    }
}

impl View for Module {
    type V = ModuleSpec;

    open spec fn view(&self) -> ModuleSpec {
        ModuleSpec {
            name: self.name@,
            builtins: Seq::new(self.builtins.len() as nat, |i: int| self.builtins[i]@),
            functions: Seq::new(self.functions.len() as nat, |i: int| self.functions[i]@),
        }
    }
}

impl FunctionSpec {
    /// A structurally valid function: its entry block holds at least the
    /// terminating return, the return stands last, and nowhere else.
    pub open spec fn wf(self) -> bool {
        &&& self.body.len() >= 1
        &&& self.body.last() == InstrSpec::Ret
        &&& forall|i: int| 0 <= i < self.body.len() - 1 ==> self.body[i] != InstrSpec::Ret
    }
}

impl Function {
    /// Structural verification of a sealed function: the entry block is
    /// terminated by its final return and by nothing before it.
    pub fn verify(&self) -> (r: bool)
        ensures
            r == self@.wf(),
    {
        if self.body.len() == 0 {
            return false;
        }
        let mut i: usize = 0;
        let mut ok = true;
        while i < self.body.len()
            invariant
                i <= self.body@.len(),
                self.body@.len() >= 1,
                ok == (forall|j: int|
                    0 <= j < i ==> (j == self.body@.len() - 1 <==> self.body@[j]@
                        == InstrSpec::Ret)),
            decreases self.body@.len() - i,
        {
            let is_ret = match &self.body[i] {
                Instruction::Ret => true,
                _ => false,
            };
            let is_last = i == self.body.len() - 1;
            ok = ok && (is_ret == is_last);
            i = i + 1;
        }
        proof {
            if ok {
                assert(self@.body.last() == InstrSpec::Ret);
                assert(forall|j: int|
                    0 <= j < self@.body.len() - 1 ==> self@.body[j] != InstrSpec::Ret);
            } else {
                assert(!(self@.wf())) by {
                    let j = choose|j: int|
                        0 <= j < self.body@.len() && !(j == self.body@.len() - 1
                            <==> self.body@[j]@ == InstrSpec::Ret);
                    if self@.wf() {
                        assert(self@.body[j] == self.body@[j]@);
                    }
                }
            }
        }
        ok
    }
}

impl Module {
    /// The number of functions the module holds.
    pub fn function_count(&self) -> (r: usize)
        ensures
            r == self@.functions.len(),
    {
        self.functions.len()
    }

    /// The function at the given index.
    pub fn function_at(&self, i: usize) -> (r: &Function)
        requires
            i < self@.functions.len(),
        ensures
            r@ == self@.functions[i as int],
    {
        &self.functions[i]
    }
}

} // verus!
