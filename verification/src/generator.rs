//! From a module to the document of its declaration file.
//!
//! Only the statements of a module are looked at, never the expressions
//! inside them: a declaration says what goes in and what comes out, not how.

use crate::casing::{to_upper_camel_case, upper_camel_case};
use crate::document::{
    break_, concat, interspersed, layouts, line, lines, nil, text, Document, Layout, INDENT,
};
use crate::error::Output;
use crate::imports::{imports_layout, registered, Imports};
use crate::joining::{all_ok, collected, first_error, intersperse, try_collect};
use crate::lists::{args_layout, generic_args_layout, wrap_args, wrap_generic_args};
use crate::module::{
    arg_types, args_printable, args_use_prelude, constructor_types, constructors_printable,
    is_public, label_of, module_emittable, signature_types, statement_printable,
    statement_uses_prelude, Arg, Module, RecordConstructor, Statement,
};
use crate::names::{
    escaped_identifier, id_to_type_var, marked_type_name, marked_type_name_string,
    maybe_escape_identifier_doc, safe_type_name, ts_safe_type_name, type_var_name,
};
use crate::printer::{namespace, namespace_alias, positional_layout, type_layout, TypePrinter};
use crate::text::{decimal, decimal_string, join, joined, repeat, repeated, same_text, strings};
use crate::types::{printable, uses_prelude, Type};
use crate::usage::{
    collect_generic_usages, generics_at_least, generics_of, referents, usages_among,
};
use std::collections::HashMap;
use vstd::prelude::*;
use vstd::string::StringExecFns;

verus! {

/// The names of the type variables `ids`, in order.
pub open spec fn generic_names(ids: Seq<u64>) -> Seq<Layout> {
    Seq::new(ids.len(), |i: int| Layout::Text(type_var_name(ids[i] as nat)))
}

/// The list of type parameters `ids`; nothing where there is none.
pub open spec fn generic_params_layout(ids: Seq<u64>) -> Layout {
    if ids.len() == 0 {
        Layout::nil()
    } else {
        generic_args_layout(generic_names(ids))
    }
}

/// `name` with the type variables that occur in `types` as its type
/// parameters, in ascending order.
pub open spec fn named_with_generics(name: Layout, types: Seq<Type>) -> Layout {
    Layout::Concat(seq![name, generic_params_layout(generics_of(usages_among(types), 1))])
}

/// The parameter at `index` of a function declaration.
pub open spec fn param_layout(
    index: nat,
    arg: &Arg,
    usages: Map<u64, u64>,
    current: Seq<Seq<char>>,
) -> Layout {
    match label_of(arg) {
        Some(label) => Layout::Concat(
            seq![
                Layout::Text(escaped_identifier(label)),
                Layout::Text(": "@),
                type_layout(&arg.type_, Some(usages), current),
            ],
        ),
        None => positional_layout(index, type_layout(&arg.type_, Some(usages), current)),
    }
}

/// The parameters of a function declaration.
pub open spec fn param_layouts(
    args: Seq<Arg>,
    usages: Map<u64, u64>,
    current: Seq<Seq<char>>,
) -> Seq<Layout> {
    Seq::new(args.len(), |i: int| param_layout(i as nat, &args[i], usages, current))
}

/// The declaration of the function `name`. A type variable that its
/// signature mentions once is written `any`; one that it mentions more often
/// is a type parameter of the declaration.
pub open spec fn function_layout(
    name: Seq<char>,
    args: Seq<Arg>,
    return_type: &Type,
    current: Seq<Seq<char>>,
) -> Layout {
    let usages = usages_among(signature_types(args, return_type));
    Layout::Concat(
        seq![
            Layout::Text("export function "@),
            Layout::Text(escaped_identifier(name)),
            generic_params_layout(generics_of(usages, 2)),
            args_layout(param_layouts(args, usages, current)),
            Layout::Text(": "@),
            type_layout(return_type, Some(usages), current),
            Layout::Text(";"@),
        ],
    )
}

/// The declaration of the external type `name` with the parameters `args`.
pub open spec fn external_type_layout(name: Seq<char>, args: Seq<Seq<char>>) -> Layout {
    if args.len() == 0 {
        Layout::Concat(
            seq![
                Layout::Text("export type "@),
                Layout::Text(marked_type_name(name)),
                Layout::Text(" = any;"@),
            ],
        )
    } else {
        Layout::Concat(
            seq![
                Layout::Text("export type "@),
                Layout::Text(marked_type_name(name)),
                generic_args_layout(
                    Seq::new(args.len(), |i: int| Layout::Text(upper_camel_case(args[i]))),
                ),
                Layout::Text(" = any;"@),
            ],
        )
    }
}

/// The declaration of the type alias `alias` for `type_`.
pub open spec fn type_alias_layout(alias: Seq<char>, type_: &Type, current: Seq<Seq<char>>) -> Layout {
    Layout::Concat(
        seq![
            Layout::Text("export type "@),
            Layout::Text(safe_type_name(alias)),
            Layout::Text(" = "@),
            type_layout(type_, None, current),
            Layout::Text(";"@),
        ],
    )
}

/// The declaration of the constant `name` whose value has the type `type_`.
pub open spec fn constant_layout(name: Seq<char>, type_: &Type, current: Seq<Seq<char>>) -> Layout {
    Layout::Concat(
        seq![
            Layout::Text("export const "@),
            Layout::Text(escaped_identifier(name)),
            Layout::Text(": "@),
            type_layout(type_, None, current),
            Layout::Text(";"@),
        ],
    )
}

/// The name of the parameter at `index` of a constructor: its label, or
/// else its position.
pub open spec fn constructor_param_name(index: nat, arg: &Arg) -> Seq<char> {
    match label_of(arg) {
        Some(label) => escaped_identifier(label),
        None => decimal(index),
    }
}

/// The name of the field at `index` of a constructor: its label, or else
/// `x` and its position.
pub open spec fn field_name(index: nat, arg: &Arg) -> Seq<char> {
    match label_of(arg) {
        Some(label) => escaped_identifier(label),
        None => "x"@ + decimal(index),
    }
}

/// The parameter at `index` in the signature of a constructor.
pub open spec fn constructor_param_layout(index: nat, arg: &Arg, current: Seq<Seq<char>>) -> Layout {
    Layout::Concat(
        seq![
            Layout::Text(constructor_param_name(index, arg)),
            Layout::Text(": "@),
            type_layout(&arg.type_, None, current),
        ],
    )
}

/// The field at `index` of the class of a constructor.
pub open spec fn field_layout(index: nat, arg: &Arg, current: Seq<Seq<char>>) -> Layout {
    Layout::Concat(
        seq![
            Layout::Text(field_name(index, arg)),
            Layout::Text(": "@),
            type_layout(&arg.type_, None, current),
            Layout::Text(";"@),
        ],
    )
}

/// The name of a constructor with its type parameters.
pub open spec fn constructor_name_layout(constructor: &RecordConstructor) -> Layout {
    named_with_generics(
        Layout::Text(escaped_identifier(constructor.name@)),
        arg_types(constructor.arguments@),
    )
}

/// The head of the class of a constructor. The class of a constructor of an
/// opaque type is not exported.
pub open spec fn record_head_layout(constructor: &RecordConstructor, opaque: bool) -> Layout {
    Layout::Concat(
        seq![
            if opaque {
                Layout::nil()
            } else {
                Layout::Text("export "@)
            },
            Layout::Text("class "@),
            constructor_name_layout(constructor),
            Layout::Text(" extends $Gleam.CustomType {"@),
        ],
    )
}

/// The body of the class of a constructor: its signature, an empty line,
/// and one field for each argument.
pub open spec fn record_body_layout(args: Seq<Arg>, current: Seq<Seq<char>>) -> Layout {
    Layout::Concat(
        seq![
            Layout::line(),
            Layout::Text("constructor"@),
            args_layout(
                Seq::new(
                    args.len(),
                    |i: int| constructor_param_layout(i as nat, &args[i], current),
                ),
            ),
            Layout::Text(";"@),
            Layout::line(),
            Layout::line(),
            Layout::Concat(
                interspersed(
                    Seq::new(args.len(), |i: int| field_layout(i as nat, &args[i], current)),
                    Layout::line(),
                ),
            ),
        ],
    ).nest(INDENT as nat)
}

/// The class that declares a constructor.
pub open spec fn record_layout(
    constructor: &RecordConstructor,
    opaque: bool,
    current: Seq<Seq<char>>,
) -> Layout {
    if constructor.arguments@.len() == 0 {
        record_head_layout(constructor, opaque).append(Layout::Text("}"@))
    } else {
        Layout::Concat(
            seq![
                record_head_layout(constructor, opaque),
                record_body_layout(constructor.arguments@, current),
                Layout::line(),
                Layout::Text("}"@),
            ],
        )
    }
}

/// The declaration of a custom type as the union of its constructors. It is
/// exported whether the type is opaque or not.
pub open spec fn union_layout(name: Seq<char>, constructors: Seq<RecordConstructor>) -> Layout {
    Layout::Concat(
        seq![
            Layout::Text("export type "@),
            named_with_generics(
                Layout::Text(marked_type_name(name)),
                constructor_types(constructors),
            ),
            Layout::Text(" = "@),
            Layout::Concat(
                interspersed(
                    Seq::new(
                        constructors.len(),
                        |i: int| constructor_name_layout(&constructors[i]),
                    ),
                    Layout::brk("| "@, " | "@),
                ),
            ),
            Layout::Text(";"@),
        ],
    )
}

/// The declarations of a custom type: the class of each constructor, then
/// the union.
pub open spec fn custom_type_layouts(
    name: Seq<char>,
    constructors: Seq<RecordConstructor>,
    opaque: bool,
    current: Seq<Seq<char>>,
) -> Seq<Layout> {
    Seq::new(constructors.len(), |i: int| record_layout(&constructors[i], opaque, current)).push(
        union_layout(name, constructors),
    )
}

/// The declarations of `statement`. A statement that is not public has
/// none, and neither has an import.
pub open spec fn statement_layouts(statement: &Statement, current: Seq<Seq<char>>) -> Seq<Layout> {
    if !is_public(statement) {
        Seq::empty()
    } else {
        match statement {
            Statement::Import { .. } => Seq::empty(),
            Statement::TypeAlias { alias, type_, .. } => seq![
                type_alias_layout(alias@, type_, current),
            ],
            Statement::CustomType { name, opaque, constructors, .. } => custom_type_layouts(
                name@,
                constructors@,
                *opaque,
                current,
            ),
            Statement::ExternalType { name, arguments, .. } => seq![
                external_type_layout(name@, strings(arguments@)),
            ],
            Statement::ModuleConstant { name, type_, .. } => seq![
                constant_layout(name@, type_, current),
            ],
            Statement::Fn { name, arguments, return_type, .. } => seq![
                function_layout(name@, arguments@, return_type, current),
            ],
            Statement::ExternalFn { name, arguments, return_type, .. } => seq![
                function_layout(name@, arguments@, return_type, current),
            ],
        }
    }
}

/// The declarations of `statements`, in the order of the source.
pub open spec fn declarations(statements: Seq<Statement>, current: Seq<Seq<char>>) -> Seq<Layout>
    decreases statements.len(),
{
    if statements.len() == 0 {
        Seq::empty()
    } else {
        declarations(statements.drop_last(), current) + statement_layouts(
            &statements.last(),
            current,
        )
    }
}

/// Whether emitting the declarations of one of `statements` uses the runtime
/// support module.
pub open spec fn statements_use_prelude(statements: Seq<Statement>) -> bool {
    exists|i: int| 0 <= i < statements.len() && statement_uses_prelude(#[trigger] &statements[i])
}

/// Where the declaration file of the module `module` of `package` lies, seen
/// from the declaration file of a module of `own_package` whose path has
/// `depth` segments.
///
/// Within one package the path climbs one directory for each segment but
/// the first. Into another package it climbs out of the own package as well
/// and goes down into what the other package has built.
pub open spec fn import_path_text(
    depth: nat,
    own_package: Seq<char>,
    package: Seq<char>,
    module: Seq<Seq<char>>,
) -> Seq<char> {
    let path = joined(module, "/"@);
    if package == own_package || package.len() == 0 {
        if depth == 1 {
            "./"@ + path + ".d.ts"@
        } else {
            repeated("../"@, (depth - 1) as nat) + path + ".d.ts"@
        }
    } else {
        repeated("../"@, depth + 1) + package + "/dist/"@ + path + ".d.ts"@
    }
}

/// The imports that the import statements among `statements` register, for
/// a module of `own_package` whose path has `depth` segments.
pub open spec fn imported(statements: Seq<Statement>, depth: nat, own_package: Seq<char>) -> Seq<
    (Seq<char>, Seq<char>),
>
    decreases statements.len(),
{
    if statements.len() == 0 {
        Seq::empty()
    } else {
        let before = imported(statements.drop_last(), depth, own_package);
        match statements.last() {
            Statement::Import { module, package } => registered(
                before,
                import_path_text(depth, own_package, package@, strings(module@)),
                namespace(strings(module@)),
            ),
            _ => before,
        }
    }
}

/// The path of the runtime support module.
pub open spec fn prelude_path() -> Seq<Seq<char>> {
    seq!["gleam"@]
}

/// A declaration file with the given imports and declarations: the imports,
/// then the declarations with one empty line between each two. A file with
/// neither says that it exports nothing.
pub open spec fn file_layout(imports: Seq<(Seq<char>, Seq<char>)>, declarations: Seq<Layout>) -> Layout {
    let statements = interspersed(declarations, Layout::Line(2));
    if imports.len() == 0 && statements.len() == 0 {
        Layout::Concat(seq![Layout::Text("export {}"@), Layout::line()])
    } else if imports.len() == 0 {
        Layout::Concat(statements.push(Layout::line()))
    } else if statements.len() == 0 {
        imports_layout(imports)
    } else {
        Layout::Concat(
            seq![imports_layout(imports), Layout::line(), Layout::Concat(statements), Layout::line()],
        )
    }
}

/// The imports of the declaration file of `module`: those of its import
/// statements, and the runtime support module if `prelude` says that it is
/// used.
pub open spec fn module_imports(module: &Module, prelude: bool) -> Seq<(Seq<char>, Seq<char>)> {
    let listed = imported(module.statements@, module.name@.len(), module.package@);
    if prelude {
        registered(
            listed,
            import_path_text(module.name@.len(), module.package@, module.package@, prelude_path()),
            "$Gleam"@,
        )
    } else {
        listed
    }
}

/// The declaration file of `module`, emitted by a generator of which
/// `prelude_before` says whether it had used the runtime support module
/// before.
pub open spec fn module_layout(module: &Module, prelude_before: bool) -> Layout {
    file_layout(
        module_imports(module, prelude_before || statements_use_prelude(module.statements@)),
        declarations(module.statements@, strings(module.name@)),
    )
}

/// What putting a declaration file together gives: the file where every
/// declaration is there, otherwise the first failure.
pub open spec fn assembled(
    imports: Seq<(Seq<char>, Seq<char>)>,
    declarations: Seq<Output>,
    out: Output,
) -> bool {
    match out {
        Ok(doc) => all_ok(declarations) && doc@ == file_layout(imports, collected(declarations)),
        Err(error) => exists|i: int| first_error(declarations, i, error),
    }
}

/// Puts a declaration file together from its imports and the outcome of
/// each declaration. If a declaration failed there is no file, and the first
/// failure is handed on.
pub fn declaration_file(imports: Imports, declarations: Vec<Output>) -> (out: Output)
    ensures
        assembled(imports@, declarations@, out),
        all_ok(declarations@) ==> out is Ok,
{
    let docs = match try_collect(declarations) {
        Ok(docs) => docs,
        Err(error) => {
            return Err(error);
        },
    };
    let mut statements = intersperse(docs, lines(2));
    assert(layouts(statements@).len() == statements@.len());
    if imports.is_empty() && statements.len() == 0 {
        let ghost parts = seq![Layout::Text("export {}"@), Layout::line()];
        let docs = vec![text("export {}"), line()];
        assert(layouts(docs@) =~= parts);
        Ok(concat(docs))
    } else if imports.is_empty() {
        let ghost before = layouts(statements@);
        statements.push(line());
        assert(layouts(statements@) =~= before.push(Layout::line()));
        Ok(concat(statements))
    } else if statements.len() == 0 {
        Ok(imports.into_doc())
    } else {
        let imports = imports.into_doc();
        let statements = concat(statements);
        let ghost parts = seq![imports@, Layout::line(), statements@, Layout::line()];
        let docs = vec![imports, line(), statements, line()];
        assert(layouts(docs@) =~= parts);
        Ok(concat(docs))
    }
}

/// The type parameters `ids` as a document; nothing where there is none.
fn generic_params(ids: &Vec<u64>) -> (doc: Document)
    ensures
        doc@ == generic_params_layout(ids@),
{
    if ids.len() == 0 {
        return nil();
    }
    let mut names: Vec<Document> = Vec::new();
    let mut i: usize = 0;
    while i < ids.len()
        invariant
            i <= ids.len(),
            names.len() == i,
            forall|j: int|
                0 <= j < i ==> (#[trigger] names@[j])@ == Layout::Text(
                    type_var_name(ids@[j] as nat),
                ),
        decreases ids.len() - i,
    {
        names.push(id_to_type_var(ids[i]));
        i += 1;
    }
    assert(layouts(names@) =~= generic_names(ids@));
    wrap_generic_args(names)
}

/// The types of `args`, in order, behind `types`.
fn push_arg_types<'a>(types: &mut Vec<&'a Type>, args: &'a Vec<Arg>)
    ensures
        referents(final(types)@) == referents(old(types)@) + arg_types(args@),
{
    let mut i: usize = 0;
    assert(referents(types@) =~= referents(old(types)@) + arg_types(args@).take(0));
    while i < args.len()
        invariant
            i <= args.len(),
            referents(types@) == referents(old(types)@) + arg_types(args@).take(i as int),
        decreases args.len() - i,
    {
        let ghost before = types@;
        types.push(&args[i].type_);
        assert(referents(types@) =~= referents(before).push(args@[i as int].type_));
        assert(arg_types(args@).take(i + 1) =~= arg_types(args@).take(i as int).push(
            args@[i as int].type_,
        ));
        assert(referents(types@) =~= referents(old(types)@) + arg_types(args@).take(i + 1));
        i += 1;
    }
    assert(arg_types(args@).take(args.len() as int) =~= arg_types(args@));
}

/// `name` with the type variables that occur in `types` as its type
/// parameters.
pub fn name_with_generics(name: Document, types: &Vec<&Type>) -> (doc: Document)
    ensures
        doc@ == named_with_generics(name@, referents(types@)),
{
    let generic_usages = collect_generic_usages(HashMap::new(), types);
    let generics = generic_params(&generics_at_least(&generic_usages, 1));
    let ghost parts = seq![name@, generics@];
    let docs = vec![name, generics];
    assert(layouts(docs@) =~= parts);
    concat(docs)
}

/// Turns a type-checked module into the document of its declaration file.
#[derive(Debug)]
pub struct TypeScriptGenerator<'a> {
    module: &'a Module,
    type_printer: TypePrinter<'a>,
}

impl<'a> TypeScriptGenerator<'a> {
    /// The module whose declarations are emitted.
    pub closed spec fn module(&self) -> &'a Module {
        self.module
    }

    /// The path of the module whose declarations are emitted.
    pub open spec fn current(&self) -> Seq<Seq<char>> {
        strings(self.module().name@)
    }

    /// Whether a declaration emitted so far uses the runtime support module.
    pub closed spec fn prelude_in_use(&self) -> bool {
        self.type_printer.prelude_in_use()
    }

    /// Whether the generator prints types as seen from its own module.
    pub closed spec fn wf(&self) -> bool {
        self.type_printer.current() == strings(self.module.name@)
    }

    /// A generator for the declarations of `module`, which has not emitted
    /// anything yet.
    pub fn new(module: &'a Module) -> (generator: Self)
        ensures
            generator.wf(),
            generator.module() == module,
            !generator.prelude_in_use(),
    {
        Self { module, type_printer: TypePrinter::new(&module.name) }
    }

    /// Whether a declaration emitted so far uses the runtime support module.
    pub fn prelude_used(&self) -> (used: bool)
        ensures
            used == self.prelude_in_use(),
    {
        self.type_printer.prelude_used()
    }

    /// The declaration of the external type `name` with the parameters
    /// `args`: any value is of that type.
    pub fn external_type(&self, name: &str, args: &Vec<String>) -> (out: Output)
        ensures
            out matches Ok(doc) && doc@ == external_type_layout(name@, strings(args@)),
    {
        let doc_name = Document::Text(marked_type_name_string(name.to_owned()));
        if args.len() == 0 {
            let ghost parts = seq![
                Layout::Text("export type "@),
                doc_name@,
                Layout::Text(" = any;"@),
            ];
            let docs = vec![text("export type "), doc_name, text(" = any;")];
            assert(layouts(docs@) =~= parts);
            Ok(concat(docs))
        } else {
            let mut params: Vec<Document> = Vec::new();
            let mut i: usize = 0;
            while i < args.len()
                invariant
                    i <= args.len(),
                    params.len() == i,
                    forall|j: int|
                        0 <= j < i ==> (#[trigger] params@[j])@ == Layout::Text(
                            upper_camel_case(args@[j]@),
                        ),
                decreases args.len() - i,
            {
                params.push(Document::Text(to_upper_camel_case(args[i].as_str())));
                i += 1;
            }
            assert(layouts(params@) =~= Seq::new(
                strings(args@).len(),
                |i: int| Layout::Text(upper_camel_case(strings(args@)[i])),
            ));
            let params = wrap_generic_args(params);
            let ghost parts = seq![
                Layout::Text("export type "@),
                doc_name@,
                params@,
                Layout::Text(" = any;"@),
            ];
            let docs = vec![text("export type "), doc_name, params, text(" = any;")];
            assert(layouts(docs@) =~= parts);
            Ok(concat(docs))
        }
    }

    /// The declaration of the type alias `alias` for `type_`.
    pub fn type_alias(&mut self, alias: &str, type_: &Type) -> (out: Output)
        requires
            old(self).wf(),
            printable(type_),
        ensures
            final(self).wf(),
            final(self).module() == old(self).module(),
            final(self).prelude_in_use() == (old(self).prelude_in_use() || uses_prelude(type_)),
            out matches Ok(doc) && doc@ == type_alias_layout(alias@, type_, old(self).current()),
    {
        let name = Document::Text(ts_safe_type_name(alias.to_owned()));
        let printed = self.type_printer.print(type_);
        let ghost parts = seq![
            Layout::Text("export type "@),
            name@,
            Layout::Text(" = "@),
            printed@,
            Layout::Text(";"@),
        ];
        let docs = vec![text("export type "), name, text(" = "), printed, text(";")];
        assert(layouts(docs@) =~= parts);
        Ok(concat(docs))
    }

    /// The declaration of the constant `name` whose value has the type
    /// `type_`.
    pub fn module_constant(&mut self, name: &str, type_: &Type) -> (out: Output)
        requires
            old(self).wf(),
            printable(type_),
        ensures
            final(self).wf(),
            final(self).module() == old(self).module(),
            final(self).prelude_in_use() == (old(self).prelude_in_use() || uses_prelude(type_)),
            out matches Ok(doc) && doc@ == constant_layout(name@, type_, old(self).current()),
    {
        let name = maybe_escape_identifier_doc(name);
        let printed = self.type_printer.print(type_);
        let ghost parts = seq![
            Layout::Text("export const "@),
            name@,
            Layout::Text(": "@),
            printed@,
            Layout::Text(";"@),
        ];
        let docs = vec![text("export const "), name, text(": "), printed, text(";")];
        assert(layouts(docs@) =~= parts);
        Ok(concat(docs))
    }

    /// The declaration of a function of the module.
    pub fn module_function(&mut self, name: &str, args: &Vec<Arg>, return_type: &Type) -> (out:
        Output)
        requires
            old(self).wf(),
            args_printable(args@),
            printable(return_type),
        ensures
            final(self).wf(),
            final(self).module() == old(self).module(),
            final(self).prelude_in_use() == (old(self).prelude_in_use() || args_use_prelude(args@)
                || uses_prelude(return_type)),
            out matches Ok(doc) && doc@ == function_layout(
                name@,
                args@,
                return_type,
                old(self).current(),
            ),
    {
        self.function_declaration(name, args, return_type)
    }

    /// The declaration of a function that is defined outside the language.
    /// Its parameters are named by the labels of the external signature.
    pub fn external_function(&mut self, name: &str, args: &Vec<Arg>, return_type: &Type) -> (out:
        Output)
        requires
            old(self).wf(),
            args_printable(args@),
            printable(return_type),
        ensures
            final(self).wf(),
            final(self).module() == old(self).module(),
            final(self).prelude_in_use() == (old(self).prelude_in_use() || args_use_prelude(args@)
                || uses_prelude(return_type)),
            out matches Ok(doc) && doc@ == function_layout(
                name@,
                args@,
                return_type,
                old(self).current(),
            ),
    {
        self.function_declaration(name, args, return_type)
    }

    fn function_declaration(&mut self, name: &str, args: &Vec<Arg>, return_type: &Type) -> (out:
        Output)
        requires
            old(self).wf(),
            args_printable(args@),
            printable(return_type),
        ensures
            final(self).wf(),
            final(self).module() == old(self).module(),
            final(self).prelude_in_use() == (old(self).prelude_in_use() || args_use_prelude(args@)
                || uses_prelude(return_type)),
            out matches Ok(doc) && doc@ == function_layout(
                name@,
                args@,
                return_type,
                old(self).current(),
            ),
    {
        let mut types: Vec<&Type> = Vec::new();
        types.push(return_type);
        assert(referents(types@) =~= seq![*return_type]);
        push_arg_types(&mut types, args);
        let generic_usages = collect_generic_usages(HashMap::new(), &types);
        let generics = generic_params(&generics_at_least(&generic_usages, 2));
        let ghost current = self.current();
        let mut params: Vec<Document> = Vec::new();
        let mut i: usize = 0;
        while i < args.len()
            invariant
                i <= args.len(),
                params.len() == i,
                args_printable(args@),
                self.wf(),
                self.module() == old(self).module(),
                current == old(self).current(),
                forall|j: int|
                    0 <= j < i ==> (#[trigger] params@[j])@ == param_layout(
                        j as nat,
                        &args@[j],
                        generic_usages@,
                        current,
                    ),
                self.prelude_in_use() == (old(self).prelude_in_use() || exists|j: int|
                    0 <= j < i && uses_prelude(&(#[trigger] args@[j]).type_)),
            decreases args.len() - i,
        {
            let arg = &args[i];
            let printed = self.type_printer.print_with_generic_usages(&arg.type_, &generic_usages);
            let param = match &arg.label {
                None => {
                    let ghost parts = seq![
                        Layout::Text("x"@),
                        Layout::Text(decimal(i as nat)),
                        Layout::Text(": "@),
                        printed@,
                    ];
                    let docs = vec![
                        text("x"),
                        Document::Text(decimal_string(i)),
                        text(": "),
                        printed,
                    ];
                    assert(layouts(docs@) =~= parts);
                    concat(docs)
                },
                Some(label) => {
                    let label = maybe_escape_identifier_doc(label.as_str());
                    let ghost parts = seq![label@, Layout::Text(": "@), printed@];
                    let docs = vec![label, text(": "), printed];
                    assert(layouts(docs@) =~= parts);
                    concat(docs)
                },
            };
            params.push(param);
            i += 1;
        }
        assert(layouts(params@) =~= param_layouts(args@, generic_usages@, current));
        let params = wrap_args(params);
        let name = maybe_escape_identifier_doc(name);
        let printed = self.type_printer.print_with_generic_usages(return_type, &generic_usages);
        let ghost parts = seq![
            Layout::Text("export function "@),
            name@,
            generics@,
            params@,
            Layout::Text(": "@),
            printed@,
            Layout::Text(";"@),
        ];
        let docs = vec![
            text("export function "),
            name,
            generics,
            params,
            text(": "),
            printed,
            text(";"),
        ];
        assert(layouts(docs@) =~= parts);
        Ok(concat(docs))
    }

    /// The class that declares `constructor`. Every such class extends the
    /// class of the runtime support module, so the module is marked as used.
    /// The class of a constructor of an opaque type is not exported.
    pub fn record_definition(&mut self, constructor: &RecordConstructor, opaque: bool) -> (doc:
        Document)
        requires
            old(self).wf(),
            args_printable(constructor.arguments@),
        ensures
            final(self).wf(),
            final(self).module() == old(self).module(),
            final(self).prelude_in_use(),
            doc@ == record_layout(constructor, opaque, old(self).current()),
    {
        self.type_printer.set_prelude_used();
        let args = &constructor.arguments;
        let ghost current = self.current();
        let mut types: Vec<&Type> = Vec::new();
        assert(referents(types@) =~= Seq::<Type>::empty());
        push_arg_types(&mut types, args);
        assert(referents(types@) =~= arg_types(args@));
        let export = if opaque {
            nil()
        } else {
            text("export ")
        };
        let name = name_with_generics(
            maybe_escape_identifier_doc(constructor.name.as_str()),
            &types,
        );
        let ghost parts = seq![
            export@,
            Layout::Text("class "@),
            name@,
            Layout::Text(" extends $Gleam.CustomType {"@),
        ];
        let docs = vec![export, text("class "), name, text(" extends $Gleam.CustomType {")];
        assert(layouts(docs@) =~= parts);
        let head = concat(docs);
        if args.len() == 0 {
            return head.append(text("}"));
        }
        let mut params: Vec<Document> = Vec::new();
        let mut i: usize = 0;
        while i < args.len()
            invariant
                i <= args.len(),
                params.len() == i,
                args_printable(args@),
                self.wf(),
                self.module() == old(self).module(),
                current == old(self).current(),
                self.prelude_in_use(),
                forall|j: int|
                    0 <= j < i ==> (#[trigger] params@[j])@ == constructor_param_layout(
                        j as nat,
                        &args@[j],
                        current,
                    ),
            decreases args.len() - i,
        {
            let arg = &args[i];
            let name = match &arg.label {
                Some(label) => maybe_escape_identifier_doc(label.as_str()),
                None => Document::Text(decimal_string(i)),
            };
            let printed = self.type_printer.print(&arg.type_);
            let ghost parts = seq![name@, Layout::Text(": "@), printed@];
            let docs = vec![name, text(": "), printed];
            assert(layouts(docs@) =~= parts);
            params.push(concat(docs));
            i += 1;
        }
        assert(layouts(params@) =~= Seq::new(
            args@.len(),
            |i: int| constructor_param_layout(i as nat, &args@[i], current),
        ));
        let mut fields: Vec<Document> = Vec::new();
        let mut i: usize = 0;
        while i < args.len()
            invariant
                i <= args.len(),
                fields.len() == i,
                args_printable(args@),
                self.wf(),
                self.module() == old(self).module(),
                current == old(self).current(),
                self.prelude_in_use(),
                forall|j: int|
                    0 <= j < i ==> (#[trigger] fields@[j])@ == field_layout(
                        j as nat,
                        &args@[j],
                        current,
                    ),
            decreases args.len() - i,
        {
            let arg = &args[i];
            let name = match &arg.label {
                Some(label) => maybe_escape_identifier_doc(label.as_str()),
                None => {
                    let mut name = "x".to_owned();
                    name.append(decimal_string(i).as_str());
                    Document::Text(name)
                },
            };
            let printed = self.type_printer.print(&arg.type_);
            let ghost parts = seq![name@, Layout::Text(": "@), printed@, Layout::Text(";"@)];
            let docs = vec![name, text(": "), printed, text(";")];
            assert(layouts(docs@) =~= parts);
            fields.push(concat(docs));
            i += 1;
        }
        assert(layouts(fields@) =~= Seq::new(
            args@.len(),
            |i: int| field_layout(i as nat, &args@[i], current),
        ));
        let params = wrap_args(params);
        let fields = concat(intersperse(fields, line()));
        let ghost parts = seq![
            Layout::line(),
            Layout::Text("constructor"@),
            params@,
            Layout::Text(";"@),
            Layout::line(),
            Layout::line(),
            fields@,
        ];
        let docs = vec![line(), text("constructor"), params, text(";"), line(), line(), fields];
        assert(layouts(docs@) =~= parts);
        let class_body = concat(docs).nest(INDENT);
        let ghost parts = seq![head@, class_body@, Layout::line(), Layout::Text("}"@)];
        let docs = vec![head, class_body, line(), text("}")];
        assert(layouts(docs@) =~= parts);
        concat(docs)
    }

    /// The declarations of the custom type `name`: the class of each
    /// constructor, then the type itself as the union of its constructors.
    /// A constructor may have the name of its type, so the name of the type
    /// is marked with `$`.
    pub fn custom_type_definition(
        &mut self,
        name: &str,
        constructors: &Vec<RecordConstructor>,
        opaque: bool,
    ) -> (definitions: Vec<Output>)
        requires
            old(self).wf(),
            constructors_printable(constructors@),
        ensures
            final(self).wf(),
            final(self).module() == old(self).module(),
            final(self).prelude_in_use() == (old(self).prelude_in_use() || constructors@.len() > 0),
            all_ok(definitions@),
            collected(definitions@) == custom_type_layouts(
                name@,
                constructors@,
                opaque,
                old(self).current(),
            ),
    {
        let ghost current = self.current();
        let mut definitions: Vec<Output> = Vec::new();
        let mut names: Vec<Document> = Vec::new();
        let mut types: Vec<&Type> = Vec::new();
        assert(referents(types@) =~= constructor_types(constructors@.take(0)));
        let mut i: usize = 0;
        while i < constructors.len()
            invariant
                i <= constructors.len(),
                definitions.len() == i,
                names.len() == i,
                constructors_printable(constructors@),
                self.wf(),
                self.module() == old(self).module(),
                current == old(self).current(),
                self.prelude_in_use() == (old(self).prelude_in_use() || i > 0),
                referents(types@) == constructor_types(constructors@.take(i as int)),
                forall|j: int|
                    0 <= j < i ==> ((#[trigger] definitions@[j]) matches Ok(doc) && doc@
                        == record_layout(&constructors@[j], opaque, current)),
                forall|j: int|
                    0 <= j < i ==> (#[trigger] names@[j])@ == constructor_name_layout(
                        &constructors@[j],
                    ),
            decreases constructors.len() - i,
        {
            let constructor = &constructors[i];
            definitions.push(Ok(self.record_definition(constructor, opaque)));
            let mut own: Vec<&Type> = Vec::new();
            assert(referents(own@) =~= Seq::<Type>::empty());
            push_arg_types(&mut own, &constructor.arguments);
            assert(referents(own@) =~= arg_types(constructor.arguments@));
            names.push(
                name_with_generics(maybe_escape_identifier_doc(constructor.name.as_str()), &own),
            );
            push_arg_types(&mut types, &constructor.arguments);
            assert(constructors@.take(i + 1).drop_last() =~= constructors@.take(i as int));
            i += 1;
        }
        assert(constructors@.take(constructors.len() as int) =~= constructors@);
        assert(layouts(names@) =~= Seq::new(
            constructors@.len(),
            |i: int| constructor_name_layout(&constructors@[i]),
        ));
        let union_name = name_with_generics(
            Document::Text(marked_type_name_string(name.to_owned())),
            &types,
        );
        let names = concat(intersperse(names, break_("| ", " | ")));
        let ghost parts = seq![
            Layout::Text("export type "@),
            union_name@,
            Layout::Text(" = "@),
            names@,
            Layout::Text(";"@),
        ];
        let docs = vec![text("export type "), union_name, text(" = "), names, text(";")];
        assert(layouts(docs@) =~= parts);
        definitions.push(Ok(concat(docs)));
        assert(collected(definitions@) =~= custom_type_layouts(
            name@,
            constructors@,
            opaque,
            current,
        ));
        definitions
    }

    /// The declarations of `statement`: none unless it is public.
    pub fn statement(&mut self, statement: &Statement) -> (outputs: Vec<Output>)
        requires
            old(self).wf(),
            statement_printable(statement),
        ensures
            final(self).wf(),
            final(self).module() == old(self).module(),
            final(self).prelude_in_use() == (old(self).prelude_in_use() || statement_uses_prelude(
                statement,
            )),
            all_ok(outputs@),
            collected(outputs@) == statement_layouts(statement, old(self).current()),
    {
        let outputs = match statement {
            Statement::TypeAlias { alias, public, type_ } => {
                if *public {
                    vec![self.type_alias(alias.as_str(), type_)]
                } else {
                    Vec::new()
                }
            },
            Statement::ExternalType { public, name, arguments } => {
                if *public {
                    vec![self.external_type(name.as_str(), arguments)]
                } else {
                    Vec::new()
                }
            },
            Statement::Import { .. } => Vec::new(),
            Statement::CustomType { public, constructors, opaque, name, .. } => {
                if *public {
                    self.custom_type_definition(name.as_str(), constructors, *opaque)
                } else {
                    Vec::new()
                }
            },
            Statement::ModuleConstant { public, name, type_ } => {
                if *public {
                    vec![self.module_constant(name.as_str(), type_)]
                } else {
                    Vec::new()
                }
            },
            Statement::Fn { arguments, name, public, return_type } => {
                if *public {
                    vec![self.module_function(name.as_str(), arguments, return_type)]
                } else {
                    Vec::new()
                }
            },
            Statement::ExternalFn { public, name, arguments, return_type } => {
                if *public {
                    vec![self.external_function(name.as_str(), arguments, return_type)]
                } else {
                    Vec::new()
                }
            },
        };
        assert(collected(outputs@) =~= statement_layouts(statement, old(self).current()));
        outputs
    }

    /// Where the declaration file of the module `module` of `package` lies,
    /// seen from the declaration file of the own module.
    pub fn import_path(&self, package: &str, module: &Vec<String>) -> (path: String)
        requires
            self.module().name@.len() >= 1,
        ensures
            path@ == import_path_text(
                self.module().name@.len(),
                self.module().package@,
                package@,
                strings(module@),
            ),
    {
        let path = join(module, "/");
        let depth = self.module.name.len();
        if same_text(package, self.module.package.as_str()) || package.is_empty() {
            let mut text = if depth == 1 {
                "./".to_owned()
            } else {
                repeat("../", depth - 1)
            };
            text.append(path.as_str());
            text.append(".d.ts");
            text
        } else {
            let mut text = repeat("../", depth);
            text.append("../");
            text.append(package);
            text.append("/dist/");
            text.append(path.as_str());
            text.append(".d.ts");
            text
        }
    }

    /// Registers the import of the module `module` of `package`. Its
    /// namespace begins with `$`, so that it cannot meet a name of the
    /// module's own.
    pub fn register_import(&self, imports: &mut Imports, package: &str, module: &Vec<String>)
        requires
            self.module().name@.len() >= 1,
        ensures
            final(imports)@ == registered(
                old(imports)@,
                import_path_text(
                    self.module().name@.len(),
                    self.module().package@,
                    package@,
                    strings(module@),
                ),
                namespace(strings(module@)),
            ),
    {
        let path = self.import_path(package, module);
        imports.register_module(path, namespace_alias(module));
    }

    /// The imports of the module's import statements.
    pub fn collect_imports(&self) -> (imports: Imports)
        requires
            self.module().name@.len() >= 1,
        ensures
            imports@ == imported(
                self.module().statements@,
                self.module().name@.len(),
                self.module().package@,
            ),
    {
        let mut imports = Imports::new();
        let statements = &self.module.statements;
        let mut i: usize = 0;
        assert(statements@.take(0) =~= Seq::<Statement>::empty());
        while i < statements.len()
            invariant
                i <= statements.len(),
                statements == &self.module().statements,
                self.module().name@.len() >= 1,
                imports@ == imported(
                    statements@.take(i as int),
                    self.module().name@.len(),
                    self.module().package@,
                ),
            decreases statements.len() - i,
        {
            assert(statements@.take(i + 1).drop_last() =~= statements@.take(i as int));
            match &statements[i] {
                Statement::Import { module, package } => {
                    self.register_import(&mut imports, package.as_str(), module);
                },
                _ => {},
            }
            i += 1;
        }
        assert(statements@.take(statements.len() as int) =~= statements@);
        imports
    }

    /// The document of the module's declaration file.
    pub fn compile(&mut self) -> (out: Output)
        requires
            old(self).wf(),
            module_emittable(old(self).module()),
        ensures
            final(self).wf(),
            final(self).module() == old(self).module(),
            final(self).prelude_in_use() == (old(self).prelude_in_use() || statements_use_prelude(
                old(self).module().statements@,
            )),
            out matches Ok(doc) && doc@ == module_layout(
                old(self).module(),
                old(self).prelude_in_use(),
            ),
    {
        let mut imports = self.collect_imports();
        let statements = &self.module.statements;
        let ghost current = self.current();
        let mut outputs: Vec<Output> = Vec::new();
        let mut i: usize = 0;
        assert(statements@.take(0) =~= Seq::<Statement>::empty());
        assert(collected(outputs@) =~= declarations(statements@.take(0), current));
        while i < statements.len()
            invariant
                i <= statements.len(),
                statements == &old(self).module().statements,
                module_emittable(old(self).module()),
                self.wf(),
                self.module() == old(self).module(),
                current == old(self).current(),
                self.prelude_in_use() == (old(self).prelude_in_use() || exists|j: int|
                    0 <= j < i && statement_uses_prelude(#[trigger] &statements@[j])),
                all_ok(outputs@),
                collected(outputs@) == declarations(statements@.take(i as int), current),
            decreases statements.len() - i,
        {
            let mut more = self.statement(&statements[i]);
            let ghost before = outputs@;
            let ghost added = more@;
            outputs.append(&mut more);
            proof {
                assert(outputs@ =~= before + added);
                assert(statements@.take(i + 1).drop_last() =~= statements@.take(i as int));
                assert(collected(outputs@) =~= collected(before) + collected(added));
            }
            i += 1;
        }
        assert(statements@.take(statements.len() as int) =~= statements@);
        if self.type_printer.prelude_used() {
            let prelude = vec!["gleam".to_owned()];
            assert(strings(prelude@) =~= prelude_path());
            let path = self.import_path(self.module.package.as_str(), &prelude);
            imports.register_module(path, "$Gleam".to_owned());
        }
        declaration_file(imports, outputs)
    }
}

} // verus!
