//! From a type of the source language to the type that a declaration writes.

use crate::casing::{to_upper_camel_case, upper_camel_case};
use crate::document::{concat, layouts, nil, text, Document, Layout};
use crate::lists::{
    args_layout, generic_args_layout, tuple, tuple_layout, wrap_args, wrap_generic_args,
};
use crate::names::{
    id_to_type_var, marked_type_name, marked_type_name_string, module_alias, module_name,
    type_var_name,
};
use crate::text::{decimal, decimal_string, same_path, same_text, strings};
use crate::types::{
    all_printable, any_uses_prelude, is_builtin_name, is_runtime_container_name,
    is_runtime_scalar_name, lemma_builtin_kinds_are_disjoint, printable, uses_prelude, Type,
    TypeVar,
};
use crate::usage::counted;
use std::collections::HashMap;
use vstd::prelude::*;
use vstd::string::StringExecFns;

verus! {

broadcast use vstd::std_specs::hash::group_hash_axioms;

/// The table that a printer was handed, if any.
pub open spec fn usage_table(generic_usages: Option<&HashMap<u64, u64>>) -> Option<Map<u64, u64>> {
    match generic_usages {
        Some(usages) => Some(usages@),
        None => None,
    }
}

/// What is written for the generic type variable `id`. Without a table it
/// is the variable's name. With a table, a variable that was counted once
/// is `any`, one that was counted more often is its name, and one that was
/// not counted is nothing.
pub open spec fn generic_layout(id: u64, usages: Option<Map<u64, u64>>) -> Layout {
    match usages {
        Some(table) => if counted(table, id) == 0 {
            Layout::nil()
        } else if counted(table, id) == 1 {
            Layout::Text("any"@)
        } else {
            Layout::Text(type_var_name(id as nat))
        },
        None => Layout::Text(type_var_name(id as nat)),
    }
}

/// What is written for the type `name` that the language itself provides,
/// with the arguments `args`.
pub open spec fn prelude_layout(name: Seq<char>, args: Seq<Layout>) -> Layout {
    if name == "Nil"@ {
        Layout::Text("null"@)
    } else if name == "Int"@ || name == "Float"@ {
        Layout::Text("number"@)
    } else if name == "UtfCodepoint"@ {
        Layout::Text("$Gleam.UtfCodepoint"@)
    } else if name == "String"@ {
        Layout::Text("string"@)
    } else if name == "Bool"@ {
        Layout::Text("boolean"@)
    } else if name == "BitString"@ {
        Layout::Text("$Gleam.BitString"@)
    } else if name == "List"@ {
        Layout::Concat(seq![Layout::Text("$Gleam.List"@), generic_args_layout(args)])
    } else if name == "Result"@ {
        Layout::Concat(seq![Layout::Text("$Gleam.Result"@), generic_args_layout(args)])
    } else {
        Layout::nil()
    }
}

/// The namespace under which the types of the module at `path` are reached
/// from another module.
pub open spec fn namespace(path: Seq<Seq<char>>) -> Seq<char> {
    seq!['$'] + module_alias(path)
}

/// What is written for the type `name` of the module `module`, with the
/// arguments `args`, in the declarations of the module `current`.
pub open spec fn type_app_layout(
    name: Seq<char>,
    module: Seq<Seq<char>>,
    args: Seq<Layout>,
    current: Seq<Seq<char>>,
) -> Layout {
    let written = Layout::Text(marked_type_name(upper_camel_case(name)));
    let qualified = if module == current {
        written
    } else {
        Layout::Concat(seq![Layout::Text(namespace(module)), Layout::Text("."@), written])
    };
    if args.len() == 0 {
        qualified
    } else {
        Layout::Concat(seq![qualified, generic_args_layout(args)])
    }
}

/// The parameter at `index` of a function type, whose type is written
/// `type_`.
pub open spec fn positional_layout(index: nat, type_: Layout) -> Layout {
    Layout::Concat(seq![Layout::Text("x"@), Layout::Text(decimal(index)), Layout::Text(": "@), type_])
}

/// What is written for a function type with the parameter types `args` and
/// the result type `retrn`.
pub open spec fn fn_layout(args: Seq<Layout>, retrn: Layout) -> Layout {
    Layout::Concat(
        seq![
            args_layout(Seq::new(args.len(), |i: int| positional_layout(i as nat, args[i]))),
            Layout::Text(" => "@),
            retrn,
        ],
    )
}

/// What is written for `type_` in the declarations of the module `current`,
/// given the usage table `usages`.
pub open spec fn type_layout(
    type_: &Type,
    usages: Option<Map<u64, u64>>,
    current: Seq<Seq<char>>,
) -> Layout
    decreases type_,
{
    match type_ {
        Type::Var { type_: TypeVar::Generic { id } } => generic_layout(*id, usages),
        Type::Var { type_: TypeVar::Unbound { .. } } => Layout::Text("any"@),
        Type::Var { type_: TypeVar::Link { type_: inner } } => type_layout(inner, usages, current),
        Type::App { name, module, args } => if module@.len() == 0 {
            prelude_layout(name@, type_layouts(args@, usages, current))
        } else {
            type_app_layout(
                name@,
                strings(module@),
                type_layouts(args@, usages, current),
                current,
            )
        },
        Type::Fn { args, retrn } => fn_layout(
            type_layouts(args@, usages, current),
            type_layout(retrn, usages, current),
        ),
        Type::Tuple { elems } => tuple_layout(type_layouts(elems@, usages, current)),
    }
}

/// What is written for each of `types`.
pub open spec fn type_layouts(
    types: Seq<Type>,
    usages: Option<Map<u64, u64>>,
    current: Seq<Seq<char>>,
) -> Seq<Layout>
    decreases types,
{
    Seq::new(
        types.len(),
        |i: int|
            if 0 <= i < types.len() {
                type_layout(&types[i], usages, current)
            } else {
                Layout::nil()
            },
    )
}

/// The namespace under which the types of the module at `module` are
/// reached from another module. It begins with `$`, which no name of the
/// source language does.
pub fn namespace_alias(module: &Vec<String>) -> (alias: String)
    ensures
        alias@ == namespace(strings(module@)),
{
    let mut alias = "$".to_owned();
    alias.append(module_name(module).as_str());
    proof {
        reveal_strlit("$");
        assert(alias@ =~= namespace(strings(module@)));
    }
    alias
}

/// Whether the runtime support module has been used.
#[derive(Debug)]
pub struct UsageTracker {
    pub prelude_used: bool,
}

/// Turns the types of the source language into the types that a declaration
/// writes, and keeps track of whether any of them comes from the runtime
/// support module.
#[derive(Debug)]
pub struct TypePrinter<'a> {
    tracker: UsageTracker,
    current_module: &'a Vec<String>,
}

impl<'a> TypePrinter<'a> {
    /// The path of the module whose declarations are printed.
    pub closed spec fn current(&self) -> Seq<Seq<char>> {
        strings(self.current_module@)
    }

    /// Whether the runtime support module has been used so far.
    pub closed spec fn prelude_in_use(&self) -> bool {
        self.tracker.prelude_used
    }

    /// A printer for the declarations of the module at `current_module`,
    /// which has not used the runtime support module yet.
    pub fn new(current_module: &'a Vec<String>) -> (printer: Self)
        ensures
            printer.current() == strings(current_module@),
            !printer.prelude_in_use(),
    {
        Self { current_module, tracker: UsageTracker { prelude_used: false } }
    }

    /// Prints `type_`, each generic type variable under its name.
    pub fn print(&mut self, type_: &Type) -> (doc: Document)
        requires
            printable(type_),
        ensures
            doc@ == type_layout(type_, None, old(self).current()),
            final(self).current() == old(self).current(),
            final(self).prelude_in_use() == (old(self).prelude_in_use() || uses_prelude(type_)),
    {
        self.do_print(type_, None)
    }

    /// Prints `type_` for a declaration whose generic type variables were
    /// counted in `generic_usages`.
    pub fn print_with_generic_usages(
        &mut self,
        type_: &Type,
        generic_usages: &HashMap<u64, u64>,
    ) -> (doc: Document)
        requires
            printable(type_),
        ensures
            doc@ == type_layout(type_, Some(generic_usages@), old(self).current()),
            final(self).current() == old(self).current(),
            final(self).prelude_in_use() == (old(self).prelude_in_use() || uses_prelude(type_)),
    {
        self.do_print(type_, Some(generic_usages))
    }

    fn do_print(&mut self, type_: &Type, generic_usages: Option<&HashMap<u64, u64>>) -> (doc:
        Document)
        requires
            printable(type_),
        ensures
            doc@ == type_layout(type_, usage_table(generic_usages), old(self).current()),
            final(self).current() == old(self).current(),
            final(self).prelude_in_use() == (old(self).prelude_in_use() || uses_prelude(type_)),
        decreases type_, 2nat,
    {
        match type_ {
            Type::Var { type_: typ } => self.print_var(typ, generic_usages),
            Type::App { name, module, args } => {
                if module.len() == 0 {
                    self.print_prelude_type(name.as_str(), args, generic_usages)
                } else {
                    self.print_type_app(name.as_str(), args, module, generic_usages)
                }
            },
            Type::Fn { args, retrn } => self.print_fn(args, retrn, generic_usages),
            Type::Tuple { elems } => tuple(self.do_print_all(elems, generic_usages)),
        }
    }

    #[verifier::loop_isolation(false)]
    fn do_print_all(
        &mut self,
        types: &Vec<Type>,
        generic_usages: Option<&HashMap<u64, u64>>,
    ) -> (docs: Vec<Document>)
        requires
            all_printable(types@),
        ensures
            layouts(docs@) == type_layouts(
                types@,
                usage_table(generic_usages),
                old(self).current(),
            ),
            final(self).current() == old(self).current(),
            final(self).prelude_in_use() == (old(self).prelude_in_use() || any_uses_prelude(
                types@,
            )),
        decreases types, 0nat,
    {
        let mut docs: Vec<Document> = Vec::new();
        let mut i: usize = 0;
        while i < types.len()
            invariant
                i <= types.len(),
                docs.len() == i,
                forall|j: int|
                    0 <= j < i ==> (#[trigger] docs@[j])@ == type_layout(
                        &types@[j],
                        usage_table(generic_usages),
                        old(self).current(),
                    ),
                self.current() == old(self).current(),
                self.prelude_in_use() == (old(self).prelude_in_use() || exists|j: int|
                    0 <= j < i && uses_prelude(#[trigger] &types@[j])),
            decreases types.len() - i,
        {
            let doc = self.do_print(&types[i], generic_usages);
            docs.push(doc);
            i += 1;
        }
        assert(layouts(docs@) =~= type_layouts(
            types@,
            usage_table(generic_usages),
            old(self).current(),
        ));
        docs
    }

    fn print_var(&mut self, type_: &TypeVar, generic_usages: Option<&HashMap<u64, u64>>) -> (doc:
        Document)
        requires
            printable(&Type::Var { type_: *type_ }),
        ensures
            doc@ == type_layout(
                &Type::Var { type_: *type_ },
                usage_table(generic_usages),
                old(self).current(),
            ),
            final(self).current() == old(self).current(),
            final(self).prelude_in_use() == (old(self).prelude_in_use() || uses_prelude(
                &Type::Var { type_: *type_ },
            )),
        decreases type_, 0nat,
    {
        match type_ {
            TypeVar::Generic { id } => match generic_usages {
                Some(usages) => {
                    let count = match usages.get(id) {
                        Some(count) => *count,
                        None => 0,
                    };
                    if count == 0 {
                        nil()
                    } else if count == 1 {
                        text("any")
                    } else {
                        id_to_type_var(*id)
                    }
                },
                None => id_to_type_var(*id),
            },
            TypeVar::Unbound { .. } => text("any"),
            TypeVar::Link { type_: typ } => self.do_print(typ, generic_usages),
        }
    }

    /// Prints a type that the language itself provides. Where the target
    /// has no type of its own for it, the type of the runtime support
    /// module is written, and the module is marked as used.
    fn print_prelude_type(
        &mut self,
        name: &str,
        args: &Vec<Type>,
        generic_usages: Option<&HashMap<u64, u64>>,
    ) -> (doc: Document)
        requires
            is_builtin_name(name@),
            is_runtime_container_name(name@) ==> all_printable(args@),
        ensures
            doc@ == prelude_layout(
                name@,
                type_layouts(args@, usage_table(generic_usages), old(self).current()),
            ),
            final(self).current() == old(self).current(),
            final(self).prelude_in_use() == (old(self).prelude_in_use() || is_runtime_scalar_name(
                name@,
            ) || is_runtime_container_name(name@)),
        decreases args, 1nat,
    {
        proof {
            lemma_builtin_kinds_are_disjoint(name@);
        }
        if same_text(name, "Nil") {
            text("null")
        } else if same_text(name, "Int") || same_text(name, "Float") {
            text("number")
        } else if same_text(name, "UtfCodepoint") {
            self.tracker.prelude_used = true;
            text("$Gleam.UtfCodepoint")
        } else if same_text(name, "String") {
            text("string")
        } else if same_text(name, "Bool") {
            text("boolean")
        } else if same_text(name, "BitString") {
            self.tracker.prelude_used = true;
            text("$Gleam.BitString")
        } else if same_text(name, "List") {
            self.tracker.prelude_used = true;
            let args = wrap_generic_args(self.do_print_all(args, generic_usages));
            let ghost parts = seq![Layout::Text("$Gleam.List"@), args@];
            let docs = vec![text("$Gleam.List"), args];
            assert(layouts(docs@) =~= parts);
            concat(docs)
        } else {
            self.tracker.prelude_used = true;
            let args = wrap_generic_args(self.do_print_all(args, generic_usages));
            let ghost parts = seq![Layout::Text("$Gleam.Result"@), args@];
            let docs = vec![text("$Gleam.Result"), args];
            assert(layouts(docs@) =~= parts);
            concat(docs)
        }
    }

    /// Prints a type that a module defines. A type of another module is
    /// written under that module's namespace.
    fn print_type_app(
        &mut self,
        name: &str,
        args: &Vec<Type>,
        module: &Vec<String>,
        generic_usages: Option<&HashMap<u64, u64>>,
    ) -> (doc: Document)
        requires
            all_printable(args@),
        ensures
            doc@ == type_app_layout(
                name@,
                strings(module@),
                type_layouts(args@, usage_table(generic_usages), old(self).current()),
                old(self).current(),
            ),
            final(self).current() == old(self).current(),
            final(self).prelude_in_use() == (old(self).prelude_in_use() || any_uses_prelude(
                args@,
            )),
        decreases args, 1nat,
    {
        let written = Document::Text(marked_type_name_string(to_upper_camel_case(name)));
        let qualified = if same_path(module, self.current_module) {
            written
        } else {
            let alias = namespace_alias(module);
            let ghost parts = seq![Layout::Text(alias@), Layout::Text("."@), written@];
            let docs = vec![Document::Text(alias), text("."), written];
            assert(layouts(docs@) =~= parts);
            concat(docs)
        };
        if args.len() == 0 {
            assert(!any_uses_prelude(args@));
            return qualified;
        }
        let args = wrap_generic_args(self.do_print_all(args, generic_usages));
        let ghost parts = seq![qualified@, args@];
        let docs = vec![qualified, args];
        assert(layouts(docs@) =~= parts);
        concat(docs)
    }

    /// Prints the type of an anonymous function.
    #[verifier::loop_isolation(false)]
    fn print_fn(
        &mut self,
        args: &Vec<Type>,
        retrn: &Type,
        generic_usages: Option<&HashMap<u64, u64>>,
    ) -> (doc: Document)
        requires
            all_printable(args@),
            printable(retrn),
        ensures
            doc@ == fn_layout(
                type_layouts(args@, usage_table(generic_usages), old(self).current()),
                type_layout(retrn, usage_table(generic_usages), old(self).current()),
            ),
            final(self).current() == old(self).current(),
            final(self).prelude_in_use() == (old(self).prelude_in_use() || any_uses_prelude(
                args@,
            ) || uses_prelude(retrn)),
        decreases (Type::Fn { args: *args, retrn: Box::new(*retrn) }), 1nat,
    {
        proof {
            let parent = Type::Fn { args: *args, retrn: Box::new(*retrn) };
            assert(decreases_to!(parent => parent->Fn_args));
            assert(decreases_to!(parent => parent->Fn_retrn));
        }
        let mut params: Vec<Document> = Vec::new();
        let mut i: usize = 0;
        while i < args.len()
            invariant
                i <= args.len(),
                params.len() == i,
                forall|j: int|
                    0 <= j < i ==> (#[trigger] params@[j])@ == positional_layout(
                        j as nat,
                        type_layout(&args@[j], usage_table(generic_usages), old(self).current()),
                    ),
                self.current() == old(self).current(),
                self.prelude_in_use() == (old(self).prelude_in_use() || exists|j: int|
                    0 <= j < i && uses_prelude(#[trigger] &args@[j])),
            decreases args.len() - i,
        {
            let printed = self.do_print(&args[i], generic_usages);
            let ghost parts = seq![
                Layout::Text("x"@),
                Layout::Text(decimal(i as nat)),
                Layout::Text(": "@),
                printed@,
            ];
            let docs = vec![text("x"), Document::Text(decimal_string(i)), text(": "), printed];
            assert(layouts(docs@) =~= parts);
            params.push(concat(docs));
            i += 1;
        }
        let ghost printed = type_layouts(args@, usage_table(generic_usages), old(self).current());
        assert(layouts(params@) =~= Seq::new(
            printed.len(),
            |i: int| positional_layout(i as nat, printed[i]),
        ));
        let params = wrap_args(params);
        let retrn = self.do_print(retrn, generic_usages);
        let ghost parts = seq![params@, Layout::Text(" => "@), retrn@];
        let docs = vec![params, text(" => "), retrn];
        assert(layouts(docs@) =~= parts);
        concat(docs)
    }

    /// Marks the runtime support module as used.
    pub fn set_prelude_used(&mut self)
        ensures
            final(self).prelude_in_use(),
            final(self).current() == old(self).current(),
    {
        self.tracker.prelude_used = true
    }

    /// Whether the runtime support module has been used so far.
    pub fn prelude_used(&self) -> (used: bool)
        ensures
            used == self.prelude_in_use(),
    {
        self.tracker.prelude_used
    }
}

} // verus!
