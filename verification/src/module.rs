//! A type-checked module: what the declarations are emitted from.

use crate::types::{printable, uses_prelude, Type};
use vstd::prelude::*;

verus! {

/// An argument of a function or of a constructor.
#[derive(Debug, PartialEq, Eq)]
pub struct Arg {
    /// The name under which the argument is seen from outside, if it has one.
    pub label: Option<String>,
    pub type_: Type,
}

/// One constructor of a custom type.
#[derive(Debug, PartialEq, Eq)]
pub struct RecordConstructor {
    pub name: String,
    pub arguments: Vec<Arg>,
}

/// A top-level statement of a module.
#[derive(Debug, PartialEq, Eq)]
#[allow(inconsistent_fields)]
pub enum Statement {
    /// Another module is made available: the module at the path `module`
    /// of `package`. An empty `package` means the module's own.
    Import { module: Vec<String>, package: String },
    /// A type gets a second name.
    TypeAlias { alias: String, public: bool, type_: Type },
    /// A type whose values are built by its constructors. Other modules
    /// cannot build or take apart the values of an opaque type.
    CustomType {
        name: String,
        public: bool,
        opaque: bool,
        /// The parameters of the type, as the type checker left them.
        typed_parameters: Vec<Type>,
        constructors: Vec<RecordConstructor>,
    },
    /// A type that is defined outside the language; `arguments` are the
    /// names of its parameters.
    ExternalType { name: String, public: bool, arguments: Vec<String> },
    /// A constant; `type_` is the type of its value.
    ModuleConstant { name: String, public: bool, type_: Type },
    /// A function.
    Fn { name: String, public: bool, arguments: Vec<Arg>, return_type: Type },
    /// A function that is defined outside the language.
    ExternalFn { name: String, public: bool, arguments: Vec<Arg>, return_type: Type },
}

/// A type-checked module.
#[derive(Debug, PartialEq, Eq)]
pub struct Module {
    /// The segments of the module's path; there is at least one.
    pub name: Vec<String>,
    /// The package that the module belongs to.
    pub package: String,
    /// The statements in the order of the source.
    pub statements: Vec<Statement>,
}

/// The label of `arg` as a sequence of characters.
pub open spec fn label_of(arg: &Arg) -> Option<Seq<char>> {
    match arg.label {
        Some(label) => Some(label@),
        None => None,
    }
}

/// The types of `args`, in order.
pub open spec fn arg_types(args: Seq<Arg>) -> Seq<Type> {
    Seq::new(args.len(), |i: int| args[i].type_)
}

/// The types of a function's signature: its result first, then its
/// arguments.
pub open spec fn signature_types(args: Seq<Arg>, return_type: &Type) -> Seq<Type> {
    seq![*return_type] + arg_types(args)
}

/// The types of the arguments of all of `constructors`, in order.
pub open spec fn constructor_types(constructors: Seq<RecordConstructor>) -> Seq<Type>
    decreases constructors.len(),
{
    if constructors.len() == 0 {
        Seq::empty()
    } else {
        constructor_types(constructors.drop_last()) + arg_types(constructors.last().arguments@)
    }
}

/// Whether the type of each of `args` is printable.
pub open spec fn args_printable(args: Seq<Arg>) -> bool {
    forall|i: int| 0 <= i < args.len() ==> printable(&(#[trigger] args[i]).type_)
}

/// Whether printing the type of one of `args` writes a type of the runtime
/// support module.
pub open spec fn args_use_prelude(args: Seq<Arg>) -> bool {
    exists|i: int| 0 <= i < args.len() && uses_prelude(&(#[trigger] args[i]).type_)
}

/// Whether the argument types of each of `constructors` are printable.
pub open spec fn constructors_printable(constructors: Seq<RecordConstructor>) -> bool {
    forall|i: int|
        0 <= i < constructors.len() ==> args_printable((#[trigger] constructors[i]).arguments@)
}

/// Whether `statement` is part of what the module offers to others.
pub open spec fn is_public(statement: &Statement) -> bool {
    match statement {
        Statement::Import { .. } => false,
        Statement::TypeAlias { public, .. } => *public,
        Statement::CustomType { public, .. } => *public,
        Statement::ExternalType { public, .. } => *public,
        Statement::ModuleConstant { public, .. } => *public,
        Statement::Fn { public, .. } => *public,
        Statement::ExternalFn { public, .. } => *public,
    }
}

/// Whether the declarations of `statement` can be emitted: every type that
/// they print is printable. A statement that is not public has no
/// declarations.
pub open spec fn statement_printable(statement: &Statement) -> bool {
    is_public(statement) ==> match statement {
        Statement::Import { .. } => true,
        Statement::TypeAlias { type_, .. } => printable(type_),
        Statement::CustomType { constructors, .. } => constructors_printable(constructors@),
        Statement::ExternalType { .. } => true,
        Statement::ModuleConstant { type_, .. } => printable(type_),
        Statement::Fn { arguments, return_type, .. } => args_printable(arguments@) && printable(
            return_type,
        ),
        Statement::ExternalFn { arguments, return_type, .. } => args_printable(arguments@)
            && printable(return_type),
    }
}

/// Whether emitting the declarations of `statement` uses the runtime support
/// module. Every constructor of a custom type does.
pub open spec fn statement_uses_prelude(statement: &Statement) -> bool {
    is_public(statement) && match statement {
        Statement::Import { .. } => false,
        Statement::TypeAlias { type_, .. } => uses_prelude(type_),
        Statement::CustomType { constructors, .. } => constructors@.len() > 0,
        Statement::ExternalType { .. } => false,
        Statement::ModuleConstant { type_, .. } => uses_prelude(type_),
        Statement::Fn { arguments, return_type, .. } => args_use_prelude(arguments@)
            || uses_prelude(return_type),
        Statement::ExternalFn { arguments, return_type, .. } => args_use_prelude(arguments@)
            || uses_prelude(return_type),
    }
}

/// Whether the declaration file of `module` can be emitted: the module has a
/// name, and every type that its public statements print is printable.
pub open spec fn module_emittable(module: &Module) -> bool {
    &&& module.name@.len() >= 1
    &&& forall|i: int|
        0 <= i < module.statements@.len() ==> statement_printable(#[trigger] &module.statements@[i])
}

/// Whether the type of each of `args` is printable.
pub fn are_args_printable(args: &Vec<Arg>) -> (known: bool)
    ensures
        known == args_printable(args@),
{
    let mut i: usize = 0;
    while i < args.len()
        invariant
            i <= args.len(),
            forall|j: int| 0 <= j < i ==> printable(&(#[trigger] args@[j]).type_),
        decreases args.len() - i,
    {
        if !args[i].type_.is_printable() {
            return false;
        }
        i += 1;
    }
    true
}

impl Statement {
    /// Whether the declarations of this statement can be emitted.
    #[verifier::loop_isolation(false)]
    pub fn is_printable(&self) -> (known: bool)
        ensures
            known == statement_printable(self),
    {
        match self {
            Statement::Import { .. } => true,
            Statement::TypeAlias { public, type_, .. } => !*public || type_.is_printable(),
            Statement::CustomType { public, constructors, .. } => {
                if !*public {
                    return true;
                }
                let mut i: usize = 0;
                while i < constructors.len()
                    invariant
                        i <= constructors.len(),
                        forall|j: int|
                            0 <= j < i ==> args_printable((#[trigger] constructors@[j]).arguments@),
                    decreases constructors.len() - i,
                {
                    if !are_args_printable(&constructors[i].arguments) {
                        assert(!args_printable(constructors@[i as int].arguments@));
                        return false;
                    }
                    i += 1;
                }
                true
            },
            Statement::ExternalType { .. } => true,
            Statement::ModuleConstant { public, type_, .. } => !*public || type_.is_printable(),
            Statement::Fn { public, arguments, return_type, .. } => !*public || (are_args_printable(
                arguments,
            ) && return_type.is_printable()),
            Statement::ExternalFn { public, arguments, return_type, .. } => !*public || (
            are_args_printable(arguments) && return_type.is_printable()),
        }
    }
}

impl Module {
    /// Whether the declaration file of this module can be emitted.
    pub fn is_emittable(&self) -> (known: bool)
        ensures
            known == module_emittable(self),
    {
        if self.name.len() == 0 {
            return false;
        }
        let mut i: usize = 0;
        while i < self.statements.len()
            invariant
                i <= self.statements.len(),
                forall|j: int| 0 <= j < i ==> statement_printable(#[trigger] &self.statements@[j]),
            decreases self.statements.len() - i,
        {
            if !self.statements[i].is_printable() {
                return false;
            }
            i += 1;
        }
        true
    }
}

} // verus!
