//! The types of the source language, as the type checker leaves them.

use crate::text::same_text;
use vstd::prelude::*;

verus! {

/// A type of the source language.
#[derive(Debug, PartialEq, Eq)]
pub enum Type {
    /// A named type applied to its arguments. An empty `module` means a type
    /// that the language itself provides.
    App { name: String, module: Vec<String>, args: Vec<Type> },
    /// A function type.
    Fn { args: Vec<Type>, retrn: Box<Type> },
    /// A type variable.
    Var { type_: TypeVar },
    /// A tuple type.
    Tuple { elems: Vec<Type> },
}

/// What a type variable stands for.
#[derive(Debug, PartialEq, Eq)]
pub enum TypeVar {
    /// Nothing yet. Type checking leaves no such variable behind.
    Unbound { id: u64 },
    /// Another type, which stands in the variable's place.
    Link { type_: Box<Type> },
    /// A type parameter of the enclosing declaration.
    Generic { id: u64 },
}

/// Whether `name` is a type of the language that is written as a type of the
/// target itself.
pub open spec fn is_native_name(name: Seq<char>) -> bool {
    ||| name == "Nil"@
    ||| name == "Int"@
    ||| name == "Float"@
    ||| name == "String"@
    ||| name == "Bool"@
}

/// Whether `name` is a type of the language that the runtime support module
/// provides, and that takes no arguments.
pub open spec fn is_runtime_scalar_name(name: Seq<char>) -> bool {
    ||| name == "UtfCodepoint"@
    ||| name == "BitString"@
}

/// Whether `name` is a type of the language that the runtime support module
/// provides, and that is written with its arguments.
pub open spec fn is_runtime_container_name(name: Seq<char>) -> bool {
    ||| name == "List"@
    ||| name == "Result"@
}

/// Whether `name` is a type that the language itself provides.
pub open spec fn is_builtin_name(name: Seq<char>) -> bool {
    is_native_name(name) || is_runtime_scalar_name(name) || is_runtime_container_name(name)
}

/// Whether every type of the language that `type_` mentions where it is
/// printed is one that the printer knows.
pub open spec fn printable(type_: &Type) -> bool
    decreases type_,
{
    match type_ {
        Type::Var { type_: TypeVar::Link { type_: inner } } => printable(inner),
        Type::Var { type_: _ } => true,
        Type::App { name, module, args } => if module@.len() == 0 {
            &&& is_builtin_name(name@)
            &&& is_runtime_container_name(name@) ==> all_printable(args@)
        } else {
            all_printable(args@)
        },
        Type::Fn { args, retrn } => all_printable(args@) && printable(retrn),
        Type::Tuple { elems } => all_printable(elems@),
    }
}

/// Whether each of `types` is printable.
pub open spec fn all_printable(types: Seq<Type>) -> bool
    decreases types,
{
    forall|i: int| 0 <= i < types.len() ==> printable(#[trigger] &types[i])
}

/// Whether printing `type_` writes a type of the runtime support module.
pub open spec fn uses_prelude(type_: &Type) -> bool
    decreases type_,
{
    match type_ {
        Type::Var { type_: TypeVar::Link { type_: inner } } => uses_prelude(inner),
        Type::Var { type_: _ } => false,
        Type::App { name, module, args } => if module@.len() == 0 {
            ||| is_runtime_scalar_name(name@)
            ||| is_runtime_container_name(name@)
        } else {
            any_uses_prelude(args@)
        },
        Type::Fn { args, retrn } => any_uses_prelude(args@) || uses_prelude(retrn),
        Type::Tuple { elems } => any_uses_prelude(elems@),
    }
}

/// Whether printing one of `types` writes a type of the runtime support
/// module.
pub open spec fn any_uses_prelude(types: Seq<Type>) -> bool
    decreases types,
{
    exists|i: int| 0 <= i < types.len() && uses_prelude(#[trigger] &types[i])
}

/// A type that the language provides is of one kind only: written as a type
/// of the target, or a runtime type without arguments, or a runtime type
/// with arguments.
pub proof fn lemma_builtin_kinds_are_disjoint(name: Seq<char>)
    ensures
        is_native_name(name) ==> !is_runtime_scalar_name(name) && !is_runtime_container_name(name),
        is_runtime_scalar_name(name) ==> !is_runtime_container_name(name),
{
    reveal_strlit("Nil");
    reveal_strlit("Int");
    reveal_strlit("Float");
    reveal_strlit("String");
    reveal_strlit("Bool");
    reveal_strlit("UtfCodepoint");
    reveal_strlit("BitString");
    reveal_strlit("List");
    reveal_strlit("Result");
    assert("Nil"@.len() == 3 && "Int"@.len() == 3 && "Float"@.len() == 5);
    assert("String"@.len() == 6 && "String"@[0] == 'S');
    assert("Bool"@.len() == 4 && "Bool"@[0] == 'B');
    assert("UtfCodepoint"@.len() == 12 && "BitString"@.len() == 9);
    assert("List"@.len() == 4 && "List"@[0] == 'L');
    assert("Result"@.len() == 6 && "Result"@[0] == 'R');
}

impl Type {
    /// Whether the printer knows every type of the language that this type
    /// mentions where it is printed.
    #[verifier::loop_isolation(false)]
    pub fn is_printable(&self) -> (known: bool)
        ensures
            known == printable(self),
        decreases self,
    {
        match self {
            Type::Var { type_: TypeVar::Link { type_: inner } } => inner.is_printable(),
            Type::Var { type_: _ } => true,
            Type::App { name, module, args } => {
                if module.len() == 0 {
                    let name = name.as_str();
                    if same_text(name, "List") || same_text(name, "Result") {
                        are_printable(args)
                    } else {
                        same_text(name, "Nil") || same_text(name, "Int") || same_text(name, "Float")
                            || same_text(name, "String") || same_text(name, "Bool") || same_text(
                            name,
                            "UtfCodepoint",
                        ) || same_text(name, "BitString")
                    }
                } else {
                    are_printable(args)
                }
            },
            Type::Fn { args, retrn } => are_printable(args) && retrn.is_printable(),
            Type::Tuple { elems } => are_printable(elems),
        }
    }
}

/// Whether the printer knows every type of the language that `types` mention
/// where they are printed.
pub fn are_printable(types: &Vec<Type>) -> (known: bool)
    ensures
        known == all_printable(types@),
    decreases types,
{
    let mut i: usize = 0;
    while i < types.len()
        invariant
            i <= types.len(),
            forall|j: int| 0 <= j < i ==> printable(#[trigger] &types@[j]),
        decreases types.len() - i,
    {
        if !types[i].is_printable() {
            return false;
        }
        i += 1;
    }
    true
}

} // verus!
