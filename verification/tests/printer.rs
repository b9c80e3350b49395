use std::collections::HashMap;
use ts_declarations::printer::TypePrinter;
use ts_declarations::types::{are_printable, Type, TypeVar};
use ts_declarations::usage::{collect_generic_usages, generic_ids, generics_at_least};

fn builtin(name: &str, args: Vec<Type>) -> Type {
    Type::App { name: name.to_string(), module: Vec::new(), args }
}

fn named(module: &[&str], name: &str, args: Vec<Type>) -> Type {
    Type::App {
        name: name.to_string(),
        module: module.iter().map(|s| s.to_string()).collect(),
        args,
    }
}

fn generic(id: u64) -> Type {
    Type::Var { type_: TypeVar::Generic { id } }
}

fn link(inner: Type) -> Type {
    Type::Var { type_: TypeVar::Link { type_: Box::new(inner) } }
}

fn current() -> Vec<String> {
    vec!["my".to_string(), "module".to_string()]
}

fn printed(type_: &Type) -> (String, bool) {
    let module = current();
    let mut printer = TypePrinter::new(&module);
    assert!(type_.is_printable());
    let text = printer.print(type_).unbroken_text();
    (text, printer.prelude_used())
}

fn printed_with(type_: &Type, usages: &HashMap<u64, u64>) -> String {
    let module = current();
    let mut printer = TypePrinter::new(&module);
    assert!(type_.is_printable());
    printer.print_with_generic_usages(type_, usages).unbroken_text()
}

#[test]
fn native_types_are_written_as_types_of_the_target() {
    assert_eq!(printed(&builtin("Nil", vec![])), ("null".to_string(), false));
    assert_eq!(printed(&builtin("Int", vec![])), ("number".to_string(), false));
    assert_eq!(printed(&builtin("Float", vec![])), ("number".to_string(), false));
    assert_eq!(printed(&builtin("String", vec![])), ("string".to_string(), false));
    assert_eq!(printed(&builtin("Bool", vec![])), ("boolean".to_string(), false));
}

#[test]
fn runtime_types_mark_the_prelude_as_used() {
    assert_eq!(printed(&builtin("UtfCodepoint", vec![])), ("$Gleam.UtfCodepoint".to_string(), true));
    assert_eq!(printed(&builtin("BitString", vec![])), ("$Gleam.BitString".to_string(), true));
    assert_eq!(
        printed(&builtin("List", vec![builtin("Int", vec![])])),
        ("$Gleam.List<number>".to_string(), true)
    );
    assert_eq!(
        printed(&builtin("Result", vec![builtin("Int", vec![]), builtin("String", vec![])])),
        ("$Gleam.Result<number, string>".to_string(), true)
    );
}

#[test]
fn unknown_builtin_type_is_not_printable() {
    assert!(!builtin("Dict", vec![]).is_printable());
    assert!(!builtin("List", vec![builtin("Dict", vec![])]).is_printable());
    assert!(!Type::Tuple { elems: vec![builtin("int", vec![])] }.is_printable());
    assert!(!are_printable(&vec![builtin("Int", vec![]), builtin("", vec![])]));
    assert!(are_printable(&vec![]));
    assert!(named(&["a"], "Dict", vec![]).is_printable());
    assert!(!named(&["a"], "Dict", vec![builtin("Dict", vec![])]).is_printable());
}

#[test]
fn arguments_of_a_native_type_are_not_printed() {
    let odd = builtin("Int", vec![builtin("Dict", vec![]), builtin("List", vec![])]);
    assert!(odd.is_printable());
    assert_eq!(printed(&odd), ("number".to_string(), false));
}

#[test]
fn type_of_the_own_module_is_written_bare() {
    let type_ = named(&["my", "module"], "shape", vec![]);
    assert_eq!(printed(&type_), ("Shape$".to_string(), false));
}

#[test]
fn type_of_another_module_is_written_under_its_namespace() {
    let type_ = named(&["other", "mod_name"], "my_type", vec![]);
    assert_eq!(printed(&type_), ("$OtherModName.MyType$".to_string(), false));
}

#[test]
fn type_name_is_written_in_upper_camel_case() {
    let type_ = named(&["my", "module"], "snake_case_name", vec![]);
    assert_eq!(printed(&type_).0, "SnakeCaseName$");
    let type_ = named(&["my", "module"], "XMLHttpRequest", vec![]);
    assert_eq!(printed(&type_).0, "XmlHttpRequest$");
}

#[test]
fn reserved_type_name_is_made_safe() {
    let type_ = named(&["my", "module"], "type", vec![]);
    assert_eq!(printed(&type_).0, "Type$");
    let type_ = named(&["my", "module"], "Any", vec![]);
    assert_eq!(printed(&type_).0, "Any$");
}

#[test]
fn type_arguments_are_written_in_angle_brackets() {
    let type_ = named(
        &["my", "module"],
        "Pair",
        vec![builtin("Int", vec![]), builtin("List", vec![generic(1)])],
    );
    assert_eq!(printed(&type_), ("Pair$<number, $Gleam.List<B>>".to_string(), true));
}

#[test]
fn function_type_names_its_parameters_by_position() {
    let type_ = Type::Fn {
        args: vec![builtin("Int", vec![]), generic(0)],
        retrn: Box::new(builtin("Bool", vec![])),
    };
    assert_eq!(printed(&type_), ("(x0: number, x1: A) => boolean".to_string(), false));
    let none = Type::Fn { args: vec![], retrn: Box::new(builtin("Nil", vec![])) };
    assert_eq!(printed(&none).0, "() => null");
}

#[test]
fn function_type_with_many_parameters_counts_in_decimal() {
    let args: Vec<Type> = (0..12).map(|_| builtin("Int", vec![])).collect();
    let type_ = Type::Fn { args, retrn: Box::new(builtin("Int", vec![])) };
    let text = printed(&type_).0;
    assert!(text.contains("x9: number, x10: number, x11: number) => number"), "{}", text);
}

#[test]
fn tuple_is_written_in_square_brackets() {
    let type_ = Type::Tuple {
        elems: vec![builtin("Int", vec![]), builtin("String", vec![]), builtin("Bool", vec![])],
    };
    assert_eq!(printed(&type_).0, "[number, string, boolean]");
    assert_eq!(printed(&Type::Tuple { elems: vec![] }).0, "[]");
    assert_eq!(printed(&Type::Tuple { elems: vec![generic(2)] }).0, "[C]");
}

#[test]
fn unbound_variable_is_written_any() {
    let type_ = Type::Var { type_: TypeVar::Unbound { id: 7 } };
    assert_eq!(printed(&type_), ("any".to_string(), false));
}

#[test]
fn links_are_followed() {
    let type_ = link(link(builtin("BitString", vec![])));
    assert_eq!(printed(&type_), ("$Gleam.BitString".to_string(), true));
    assert!(!link(builtin("Nope", vec![])).is_printable());
}

#[test]
fn generic_without_a_table_is_written_by_name() {
    assert_eq!(printed(&generic(0)).0, "A");
    assert_eq!(printed(&generic(27)).0, "AB");
}

#[test]
fn generic_with_a_table_depends_on_its_count() {
    let mut usages = HashMap::new();
    usages.insert(0, 0);
    usages.insert(1, 1);
    usages.insert(2, 2);
    usages.insert(3, 9);
    assert_eq!(printed_with(&generic(0), &usages), "");
    assert_eq!(printed_with(&generic(1), &usages), "any");
    assert_eq!(printed_with(&generic(2), &usages), "C");
    assert_eq!(printed_with(&generic(3), &usages), "D");
    assert_eq!(printed_with(&generic(4), &usages), "");
    let list = builtin("List", vec![generic(1)]);
    assert_eq!(printed_with(&list, &usages), "$Gleam.List<any>");
}

#[test]
fn prelude_flag_is_kept_and_can_be_set() {
    let module = current();
    let mut printer = TypePrinter::new(&module);
    assert!(!printer.prelude_used());
    printer.print(&builtin("Int", vec![]));
    assert!(!printer.prelude_used());
    printer.print(&builtin("List", vec![]));
    assert!(printer.prelude_used());
    printer.print(&builtin("Int", vec![]));
    assert!(printer.prelude_used());
    let mut other = TypePrinter::new(&module);
    other.set_prelude_used();
    assert!(other.prelude_used());
}

#[test]
fn usages_count_every_occurrence() {
    let type_ = Type::Fn {
        args: vec![generic(1), builtin("List", vec![generic(1), link(generic(2))])],
        retrn: Box::new(Type::Tuple {
            elems: vec![generic(1), Type::Var { type_: TypeVar::Unbound { id: 2 } }],
        }),
    };
    let mut usages = HashMap::new();
    generic_ids(&type_, &mut usages);
    assert_eq!(usages.len(), 2);
    assert_eq!(usages[&1], 3);
    assert_eq!(usages[&2], 1);
    generic_ids(&generic(2), &mut usages);
    assert_eq!(usages[&2], 2);
}

#[test]
fn usages_saturate() {
    let mut usages = HashMap::new();
    usages.insert(5, u64::MAX - 1);
    let twice = Type::Tuple { elems: vec![generic(5), generic(5)] };
    generic_ids(&twice, &mut usages);
    assert_eq!(usages[&5], u64::MAX);
}

#[test]
fn usages_are_collected_over_all_types() {
    let a = generic(3);
    let b = Type::Tuple { elems: vec![generic(3), generic(9)] };
    let c = builtin("Int", vec![]);
    let mut start = HashMap::new();
    start.insert(9, 4);
    start.insert(1, 1);
    let usages = collect_generic_usages(start, &vec![&a, &b, &c]);
    assert_eq!(usages.len(), 3);
    assert_eq!(usages[&3], 2);
    assert_eq!(usages[&9], 5);
    assert_eq!(usages[&1], 1);
    assert!(collect_generic_usages(HashMap::new(), &vec![]).is_empty());
}

#[test]
fn generics_are_listed_in_ascending_order() {
    let mut usages = HashMap::new();
    for (id, count) in [(40, 2), (3, 1), (17, 5), (1000, 2), (0, 0), (8, 2), (2, 3)] {
        usages.insert(id, count);
    }
    assert_eq!(generics_at_least(&usages, 2), vec![2, 8, 17, 40, 1000]);
    assert_eq!(generics_at_least(&usages, 1), vec![2, 3, 8, 17, 40, 1000]);
    assert_eq!(generics_at_least(&usages, 0), vec![0, 2, 3, 8, 17, 40, 1000]);
    assert_eq!(generics_at_least(&usages, 6), Vec::<u64>::new());
    assert_eq!(generics_at_least(&HashMap::new(), 0), Vec::<u64>::new());
}
