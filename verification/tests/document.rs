use ts_declarations::document::{self, break_, lines, nil, text, Document, INDENT};
use ts_declarations::imports::{Import, Imports};
use ts_declarations::lists::{enclose, tuple, wrap_args, wrap_generic_args};
use ts_declarations::text::{decimal_string, join, repeat, same_path};

fn strings(items: &[&str]) -> Vec<String> {
    items.iter().map(|s| s.to_string()).collect()
}

#[test]
fn combinators_build_the_tree_they_name() {
    assert_eq!(nil(), Document::Concat(vec![]));
    assert_eq!(document::line(), Document::Line(1));
    assert_eq!(lines(2), Document::Line(2));
    assert_eq!(text("a"), Document::Text("a".to_string()));
    assert_eq!(
        break_(",", ", "),
        Document::Break { broken: ",".to_string(), unbroken: ", ".to_string() }
    );
    assert_eq!(text("a").append(document::line()), Document::Concat(vec![text("a"), document::line()]));
    assert_eq!(text("a").nest(4), Document::Nest(4, Box::new(text("a"))));
    assert_eq!(text("a").group(), Document::Group(Box::new(text("a"))));
    assert_eq!(
        text("a").surround("(", ")"),
        Document::Concat(vec![Document::Concat(vec![text("("), text("a")]), text(")")])
    );
    assert_eq!(document::concat(vec![text("a"), text("b")]), Document::Concat(vec![text("a"), text("b")]));
    assert_eq!(INDENT, 2);
}

#[test]
fn clone_copies_the_whole_tree() {
    let doc = enclose("(", vec![text("a").nest(3), document::concat(vec![document::line(), text("b")])], ")");
    assert_eq!(doc.clone(), doc);
}

#[test]
fn enclosed_list_has_its_breaks() {
    let doc = enclose("<", vec![text("A"), text("B")], ">");
    let expected = Document::Group(Box::new(Document::Concat(vec![
        Document::Concat(vec![
            text("<"),
            Document::Concat(vec![
                Document::Nest(
                    2,
                    Box::new(Document::Concat(vec![
                        break_("", ""),
                        Document::Concat(vec![text("A"), break_(",", ", "), text("B")]),
                    ])),
                ),
                break_("", ""),
            ]),
        ]),
        text(">"),
    ])));
    assert_eq!(doc, expected);
    assert_eq!(wrap_generic_args(vec![text("A"), text("B")]), expected);
}

#[test]
fn separators_stand_between_items_only() {
    assert_eq!(tuple(vec![]).unbroken_text(), "[]");
    assert_eq!(tuple(vec![text("a")]).unbroken_text(), "[a]");
    assert_eq!(tuple(vec![text("a"), text("b"), text("c")]).unbroken_text(), "[a, b, c]");
    assert_eq!(wrap_args(vec![text("a"), text("b")]).unbroken_text(), "(a, b)");
    assert_eq!(wrap_generic_args(vec![text("a"), text("b")]).unbroken_text(), "<a, b>");
}

#[test]
fn unbroken_text_indents_after_line_ends() {
    let doc = document::concat(vec![
        text("{"),
        document::concat(vec![document::line(), text("a"), document::concat(vec![lines(2), text("b")]).nest(3)]).nest(INDENT),
        document::line(),
        text("}"),
    ]);
    assert_eq!(doc.unbroken_text(), "{\n  a\n\n     b\n}");
    assert_eq!(lines(0).nest(4).unbroken_text(), "    ");
    assert_eq!(nil().unbroken_text(), "");
    assert_eq!(break_("x", "y").group().unbroken_text(), "y");
}

#[test]
fn decimal_string_writes_numbers() {
    assert_eq!(decimal_string(0), "0");
    assert_eq!(decimal_string(7), "7");
    assert_eq!(decimal_string(10), "10");
    assert_eq!(decimal_string(409), "409");
    assert_eq!(decimal_string(usize::MAX), usize::MAX.to_string());
}

#[test]
fn repeat_and_join() {
    assert_eq!(repeat("../", 0), "");
    assert_eq!(repeat("../", 3), "../../../");
    assert_eq!(join(&strings(&[]), "/"), "");
    assert_eq!(join(&strings(&["a"]), "/"), "a");
    assert_eq!(join(&strings(&["a", "", "c"]), "/"), "a//c");
}

#[test]
fn same_path_compares_segments() {
    assert!(same_path(&strings(&[]), &strings(&[])));
    assert!(same_path(&strings(&["a", "b"]), &strings(&["a", "b"])));
    assert!(!same_path(&strings(&["a", "b"]), &strings(&["a"])));
    assert!(!same_path(&strings(&["a", "b"]), &strings(&["a", "c"])));
    assert!(!same_path(&strings(&["ab"]), &strings(&["a", "b"])));
}

#[test]
fn imports_are_registered_once() {
    let mut imports = Imports::new();
    assert!(imports.is_empty());
    imports.register_module("./b.d.ts".to_string(), "$B".to_string());
    imports.register_module("./a.d.ts".to_string(), "$A".to_string());
    imports.register_module("./b.d.ts".to_string(), "$B".to_string());
    imports.register_module("./b.d.ts".to_string(), "$Other".to_string());
    assert!(!imports.is_empty());
    assert_eq!(
        imports.into_doc().unbroken_text(),
        "import * as $B from \"./b.d.ts\";\n\
         import * as $A from \"./a.d.ts\";\n\
         import * as $Other from \"./b.d.ts\";\n"
    );
    assert_eq!(Imports::new().into_doc(), Document::Concat(vec![]));
    let import = Import { path: "p".to_string(), alias: "a".to_string() };
    assert_eq!(import.path, "p");
}
