use ts_declarations::document::{text, Document};
use ts_declarations::error::{Error, Output};
use ts_declarations::generator::{declaration_file, name_with_generics, TypeScriptGenerator};
use ts_declarations::imports::Imports;
use ts_declarations::module::{are_args_printable, Arg, Module, RecordConstructor, Statement};
use ts_declarations::types::{Type, TypeVar};

fn builtin(name: &str, args: Vec<Type>) -> Type {
    Type::App { name: name.to_string(), module: Vec::new(), args }
}

fn int_type() -> Type {
    builtin("Int", vec![])
}

fn float_type() -> Type {
    builtin("Float", vec![])
}

fn string_type() -> Type {
    builtin("String", vec![])
}

fn generic(id: u64) -> Type {
    Type::Var { type_: TypeVar::Generic { id } }
}

fn path(segments: &[&str]) -> Vec<String> {
    segments.iter().map(|s| s.to_string()).collect()
}

fn labelled(label: &str, type_: Type) -> Arg {
    Arg { label: Some(label.to_string()), type_ }
}

fn unlabelled(type_: Type) -> Arg {
    Arg { label: None, type_ }
}

fn module(name: &[&str], statements: Vec<Statement>) -> Module {
    Module { name: path(name), package: "app".to_string(), statements }
}

fn function(name: &str, public: bool, arguments: Vec<Arg>, return_type: Type) -> Statement {
    Statement::Fn { name: name.to_string(), public, arguments, return_type }
}

fn constant(name: &str, public: bool, type_: Type) -> Statement {
    Statement::ModuleConstant { name: name.to_string(), public, type_ }
}

fn custom_type(
    name: &str,
    public: bool,
    opaque: bool,
    constructors: Vec<RecordConstructor>,
) -> Statement {
    Statement::CustomType {
        name: name.to_string(),
        public,
        opaque,
        typed_parameters: Vec::new(),
        constructors,
    }
}

fn constructor(name: &str, arguments: Vec<Arg>) -> RecordConstructor {
    RecordConstructor { name: name.to_string(), arguments }
}

fn compiled(module: &Module) -> String {
    assert!(module.is_emittable());
    let mut generator = TypeScriptGenerator::new(module);
    generator.compile().unwrap().unbroken_text()
}

fn declared(statement: Statement) -> Vec<String> {
    let module = module(&["my", "module"], vec![]);
    let mut generator = TypeScriptGenerator::new(&module);
    assert!(statement.is_printable());
    generator
        .statement(&statement)
        .into_iter()
        .map(|out| out.unwrap().unbroken_text())
        .collect()
}

#[test]
fn public_integer_constant() {
    let module = module(&["my_mod"], vec![constant("max_int", true, int_type())]);
    assert_eq!(compiled(&module), "export const max_int: number;\n");
}

#[test]
fn constant_does_not_import_the_runtime_by_itself() {
    let module = module(&["my_mod"], vec![constant("max_int", true, int_type())]);
    let mut generator = TypeScriptGenerator::new(&module);
    generator.compile().unwrap();
    assert!(!generator.prelude_used());
}

#[test]
fn runtime_is_imported_once_when_another_declaration_uses_it() {
    let module = module(
        &["my_mod"],
        vec![
            constant("max_int", true, int_type()),
            constant("names", true, builtin("List", vec![string_type()])),
            constant("bits", true, builtin("BitString", vec![])),
        ],
    );
    assert_eq!(
        compiled(&module),
        "import * as $Gleam from \"./gleam.d.ts\";\n\
         \n\
         export const max_int: number;\n\
         \n\
         export const names: $Gleam.List<string>;\n\
         \n\
         export const bits: $Gleam.BitString;\n"
    );
}

#[test]
fn custom_type_with_two_constructors() {
    let shape = custom_type(
        "Shape",
        true,
        false,
        vec![
            constructor("Circle", vec![labelled("radius", float_type())]),
            constructor("Square", vec![labelled("side", float_type())]),
        ],
    );
    let module = module(&["shapes"], vec![shape]);
    assert_eq!(
        compiled(&module),
        "import * as $Gleam from \"./gleam.d.ts\";\n\
         \n\
         export class Circle extends $Gleam.CustomType {\n  \
           constructor(radius: number);\n  \
           \n  \
           radius: number;\n\
         }\n\
         \n\
         export class Square extends $Gleam.CustomType {\n  \
           constructor(side: number);\n  \
           \n  \
           side: number;\n\
         }\n\
         \n\
         export type Shape$ = Circle | Square;\n"
    );
}

#[test]
fn custom_type_declarations_come_one_for_each_constructor_and_then_the_union() {
    let shape = custom_type(
        "Shape",
        true,
        false,
        vec![
            constructor("Circle", vec![labelled("radius", float_type())]),
            constructor("Square", vec![labelled("side", float_type())]),
        ],
    );
    let declarations = declared(shape);
    assert_eq!(declarations.len(), 3);
    assert!(declarations[0].starts_with("export class Circle extends"));
    assert!(declarations[1].starts_with("export class Square extends"));
    assert_eq!(declarations[2], "export type Shape$ = Circle | Square;");
}

#[test]
fn opaque_custom_type_hides_its_constructors() {
    let token = custom_type(
        "Token",
        true,
        true,
        vec![constructor("Token", vec![unlabelled(string_type())]), constructor("Empty", vec![])],
    );
    let declarations = declared(token);
    assert_eq!(
        declarations,
        vec![
            "class Token extends $Gleam.CustomType {\n  \
               constructor(0: string);\n  \
               \n  \
               x0: string;\n\
             }"
            .to_string(),
            "class Empty extends $Gleam.CustomType {}".to_string(),
            "export type Token$ = Token | Empty;".to_string(),
        ]
    );
}

#[test]
fn constructor_without_arguments_has_an_empty_body() {
    let unit = custom_type("Unit", true, false, vec![constructor("Unit", vec![])]);
    assert_eq!(
        declared(unit),
        vec![
            "export class Unit extends $Gleam.CustomType {}".to_string(),
            "export type Unit$ = Unit;".to_string(),
        ]
    );
}

#[test]
fn unlabelled_fields_and_parameters_are_named_differently() {
    let pair = custom_type(
        "Pair",
        true,
        false,
        vec![constructor("Pair", vec![unlabelled(int_type()), labelled("class", string_type())])],
    );
    assert_eq!(
        declared(pair)[0],
        "export class Pair extends $Gleam.CustomType {\n  \
           constructor(0: number, class$: string);\n  \
           \n  \
           x0: number;\n  \
           class$: string;\n\
         }"
    );
}

#[test]
fn generic_custom_type_names_its_parameters() {
    let tree = custom_type(
        "Tree",
        true,
        false,
        vec![
            constructor("Leaf", vec![labelled("value", generic(5))]),
            constructor(
                "Node",
                vec![labelled("key", generic(2)), labelled("value", generic(5))],
            ),
            constructor("Nothing", vec![]),
        ],
    );
    let declarations = declared(tree);
    assert!(declarations[0].starts_with("export class Leaf<F> extends"));
    assert!(declarations[0].contains("constructor(value: F);"));
    assert!(declarations[1].starts_with("export class Node<C, F> extends"));
    assert!(declarations[2].starts_with("export class Nothing extends"));
    assert_eq!(declarations[3], "export type Tree$<C, F> = Leaf<F> | Node<C, F> | Nothing;");
}

#[test]
fn custom_type_with_a_reserved_name_is_made_safe() {
    let odd = custom_type("any", true, false, vec![constructor("new", vec![])]);
    assert_eq!(
        declared(odd),
        vec![
            "export class new$ extends $Gleam.CustomType {}".to_string(),
            "export type any_$ = new$;".to_string(),
        ]
    );
}

#[test]
fn identity_function_has_one_type_parameter() {
    let identity = function("identity", true, vec![labelled("x", generic(0))], generic(0));
    assert_eq!(declared(identity), vec!["export function identity<A>(x: A): A;".to_string()]);
}

#[test]
fn generic_used_once_is_any() {
    let to_string = function("to_string", true, vec![labelled("x", generic(0))], string_type());
    assert_eq!(declared(to_string), vec!["export function to_string(x: any): string;".to_string()]);
}

#[test]
fn generics_of_a_function_are_listed_once_and_in_order() {
    let zip = function(
        "zip",
        true,
        vec![
            labelled("left", builtin("List", vec![generic(7)])),
            unlabelled(builtin("List", vec![generic(3)])),
            labelled("other", generic(9)),
        ],
        builtin(
            "List",
            vec![Type::Tuple { elems: vec![generic(7), generic(3), generic(3)] }],
        ),
    );
    assert_eq!(
        declared(zip),
        vec![
            "export function zip<D, H>(left: $Gleam.List<H>, x1: $Gleam.List<D>, other: any): \
             $Gleam.List<[H, D, D]>;"
                .to_string()
        ]
    );
}

#[test]
fn function_without_arguments() {
    let main = function("main", true, vec![], builtin("Nil", vec![]));
    assert_eq!(declared(main), vec!["export function main(): null;".to_string()]);
}

#[test]
fn function_with_a_reserved_name_is_escaped() {
    let delete = function("delete", true, vec![labelled("in", int_type())], int_type());
    assert_eq!(
        declared(delete),
        vec!["export function delete$(in$: number): number;".to_string()]
    );
}

#[test]
fn external_function_is_declared_like_a_function() {
    let external = Statement::ExternalFn {
        name: "now".to_string(),
        public: true,
        arguments: vec![labelled("zone", string_type()), unlabelled(generic(1))],
        return_type: generic(1),
    };
    assert_eq!(
        declared(external),
        vec!["export function now<B>(zone: string, x1: B): B;".to_string()]
    );
}

#[test]
fn type_alias_is_declared_under_its_safe_name() {
    let alias = Statement::TypeAlias {
        alias: "Headers".to_string(),
        public: true,
        type_: builtin("List", vec![Type::Tuple { elems: vec![string_type(), generic(0)] }]),
    };
    assert_eq!(
        declared(alias),
        vec!["export type Headers = $Gleam.List<[string, A]>;".to_string()]
    );
    let odd = Statement::TypeAlias { alias: "string".to_string(), public: true, type_: string_type() };
    assert_eq!(declared(odd), vec!["export type string_ = string;".to_string()]);
}

#[test]
fn external_type_is_any() {
    let plain = Statement::ExternalType {
        name: "Request".to_string(),
        public: true,
        arguments: vec![],
    };
    assert_eq!(declared(plain), vec!["export type Request$ = any;".to_string()]);
    let with_arguments = Statement::ExternalType {
        name: "Map".to_string(),
        public: true,
        arguments: vec!["key".to_string(), "some_value".to_string()],
    };
    assert_eq!(
        declared(with_arguments),
        vec!["export type Map$<Key, SomeValue> = any;".to_string()]
    );
}

#[test]
fn statements_that_are_not_public_declare_nothing() {
    let private = vec![
        Statement::TypeAlias { alias: "A".to_string(), public: false, type_: builtin("List", vec![]) },
        custom_type("B", false, false, vec![constructor("B", vec![])]),
        Statement::ExternalType { name: "C".to_string(), public: false, arguments: vec![] },
        constant("d", false, builtin("BitString", vec![])),
        function("e", false, vec![unlabelled(builtin("List", vec![]))], int_type()),
        Statement::ExternalFn {
            name: "f".to_string(),
            public: false,
            arguments: vec![],
            return_type: builtin("UtfCodepoint", vec![]),
        },
    ];
    for statement in &private {
        let module = module(&["my", "module"], vec![]);
        let mut generator = TypeScriptGenerator::new(&module);
        assert!(generator.statement(statement).is_empty());
        assert!(!generator.prelude_used());
    }
    let module = module(&["my", "module"], private);
    assert_eq!(compiled(&module), "export {}\n");
}

#[test]
fn statement_that_is_not_public_may_hold_an_unknown_type() {
    let private = constant("d", false, builtin("Dict", vec![]));
    assert!(private.is_printable());
    let public = constant("d", true, builtin("Dict", vec![]));
    assert!(!public.is_printable());
    assert!(!module(&["m"], vec![public]).is_emittable());
    assert!(module(&["m"], vec![private]).is_emittable());
    assert!(!module(&[], vec![]).is_emittable());
    assert!(!are_args_printable(&vec![unlabelled(int_type()), unlabelled(builtin("Dict", vec![]))]));
}

#[test]
fn empty_module_exports_nothing() {
    assert_eq!(compiled(&module(&["empty"], vec![])), "export {}\n");
}

#[test]
fn imports_alone_make_a_file_of_imports() {
    let module = module(
        &["my", "deep", "module"],
        vec![
            Statement::Import { module: path(&["one", "two"]), package: "app".to_string() },
            Statement::Import { module: path(&["other_thing"]), package: "".to_string() },
            Statement::Import { module: path(&["one", "two"]), package: "app".to_string() },
            Statement::Import { module: path(&["gleam", "list"]), package: "stdlib".to_string() },
        ],
    );
    assert_eq!(
        compiled(&module),
        "import * as $OneTwo from \"../../one/two.d.ts\";\n\
         import * as $OtherThing from \"../../other_thing.d.ts\";\n\
         import * as $GleamList from \"../../../../stdlib/dist/gleam/list.d.ts\";\n"
    );
}

#[test]
fn imports_come_before_the_declarations() {
    let module = module(
        &["main"],
        vec![
            function(
                "first",
                true,
                vec![unlabelled(Type::App {
                    name: "Option".to_string(),
                    module: path(&["gleam", "option"]),
                    args: vec![generic(1)],
                })],
                generic(1),
            ),
            Statement::Import { module: path(&["gleam", "option"]), package: "stdlib".to_string() },
            constant("limit", true, int_type()),
        ],
    );
    assert_eq!(
        compiled(&module),
        "import * as $GleamOption from \"../../stdlib/dist/gleam/option.d.ts\";\n\
         \n\
         export function first<B>(x0: $GleamOption.Option$<B>): B;\n\
         \n\
         export const limit: number;\n"
    );
}

#[test]
fn import_paths_depend_on_depth_and_package() {
    let shallow = module(&["main"], vec![]);
    let generator = TypeScriptGenerator::new(&shallow);
    assert_eq!(generator.import_path("app", &path(&["a", "b"])), "./a/b.d.ts");
    assert_eq!(generator.import_path("", &path(&["a"])), "./a.d.ts");
    assert_eq!(generator.import_path("lib", &path(&["a", "b"])), "../../lib/dist/a/b.d.ts");
    let deep = module(&["one", "two", "three"], vec![]);
    let generator = TypeScriptGenerator::new(&deep);
    assert_eq!(generator.import_path("app", &path(&["a", "b"])), "../../a/b.d.ts");
    assert_eq!(generator.import_path("lib", &path(&["a"])), "../../../../lib/dist/a.d.ts");
    assert_eq!(generator.import_path("app", &path(&[])), "../../.d.ts");
}

#[test]
fn register_import_and_collect_imports_agree() {
    let module = module(
        &["main"],
        vec![
            Statement::Import { module: path(&["a"]), package: "app".to_string() },
            constant("x", true, int_type()),
            Statement::Import { module: path(&["b", "c"]), package: "lib".to_string() },
        ],
    );
    let generator = TypeScriptGenerator::new(&module);
    let collected = generator.collect_imports().into_doc().unbroken_text();
    let mut imports = Imports::new();
    generator.register_import(&mut imports, "app", &path(&["a"]));
    generator.register_import(&mut imports, "lib", &path(&["b", "c"]));
    generator.register_import(&mut imports, "app", &path(&["a"]));
    assert_eq!(imports.into_doc().unbroken_text(), collected);
    assert_eq!(
        collected,
        "import * as $A from \"./a.d.ts\";\nimport * as $BC from \"../../lib/dist/b/c.d.ts\";\n"
    );
}

#[test]
fn prelude_flag_outlives_a_compilation() {
    let module = module(&["main"], vec![constant("x", true, int_type())]);
    let mut generator = TypeScriptGenerator::new(&module);
    assert_eq!(generator.compile().unwrap().unbroken_text(), "export const x: number;\n");
    let bits = builtin("BitString", vec![]);
    generator.module_constant("y", &bits).unwrap();
    assert!(generator.prelude_used());
    assert_eq!(
        generator.compile().unwrap().unbroken_text(),
        "import * as $Gleam from \"./gleam.d.ts\";\n\nexport const x: number;\n"
    );
}

#[test]
fn name_with_generics_lists_every_variable() {
    let a = Type::Tuple { elems: vec![generic(30), generic(1)] };
    let b = generic(1);
    let doc = name_with_generics(text("Thing"), &vec![&a, &b]);
    assert_eq!(doc.unbroken_text(), "Thing<B, AE>");
    assert_eq!(name_with_generics(text("Thing"), &vec![]).unbroken_text(), "Thing");
}

#[test]
fn declaration_file_hands_on_the_first_failure() {
    let outputs: Vec<Output> = vec![Ok(text("a")), Err(Error::Layout), Ok(text("b"))];
    assert_eq!(declaration_file(Imports::new(), outputs), Err(Error::Layout));
}

#[test]
fn declaration_file_separates_declarations_by_an_empty_line() {
    let outputs: Vec<Output> = vec![Ok(text("a;")), Ok(text("b;")), Ok(text("c;"))];
    let file = declaration_file(Imports::new(), outputs).unwrap();
    assert_eq!(file.unbroken_text(), "a;\n\nb;\n\nc;\n");
    match file {
        Document::Concat(parts) => assert_eq!(parts.len(), 6),
        other => panic!("{:?}", other),
    }
}

#[test]
fn declaration_file_without_anything_says_so() {
    let file = declaration_file(Imports::new(), Vec::new()).unwrap();
    assert_eq!(file.unbroken_text(), "export {}\n");
}
