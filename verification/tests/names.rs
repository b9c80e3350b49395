use ts_declarations::document::Document;
use ts_declarations::names::{
    escape_identifier, id_to_type_var, is_reserved_type_name, is_usable_js_identifier,
    marked_type_name_string, maybe_escape_identifier_doc, maybe_escape_identifier_string,
    module_name, ts_safe_type_name,
};

fn var_name(id: u64) -> String {
    id_to_type_var(id).unbroken_text()
}

#[test]
fn first_type_variables_are_single_letters() {
    assert_eq!(var_name(0), "A");
    assert_eq!(var_name(1), "B");
    assert_eq!(var_name(25), "Z");
}

#[test]
fn later_type_variables_have_more_letters() {
    assert_eq!(var_name(26), "AA");
    assert_eq!(var_name(27), "AB");
    assert_eq!(var_name(51), "AZ");
    assert_eq!(var_name(52), "BA");
    assert_eq!(var_name(675), "YZ");
    assert_eq!(var_name(676), "AAA");
    assert_eq!(var_name(677), "AAB");
}

#[test]
fn largest_type_variable_has_a_name() {
    let name = var_name(u64::MAX);
    assert_eq!(name.len(), 14);
    assert!(name.chars().all(|c| c.is_ascii_uppercase()));
}

#[test]
fn type_variable_names_are_distinct() {
    let mut names: Vec<String> = (0..2000).map(var_name).collect();
    names.sort();
    names.dedup();
    assert_eq!(names.len(), 2000);
}

#[test]
fn type_variable_name_is_the_same_every_time() {
    assert_eq!(id_to_type_var(703), id_to_type_var(703));
    assert_eq!(id_to_type_var(3), Document::Text("D".to_string()));
}

#[test]
fn reserved_words_of_javascript_are_not_usable() {
    for word in ["await", "class", "function", "then", "undefined", "yield", "in", "do"] {
        assert!(!is_usable_js_identifier(word), "{}", word);
    }
    for word in ["Await", "classy", "", "max_int", "thenable", "string", "any"] {
        assert!(is_usable_js_identifier(word), "{}", word);
    }
}

#[test]
fn reserved_type_names_are_recognised() {
    for name in ["any", "boolean", "constructor", "declare", "get", "module", "require",
        "number", "set", "string", "symbol", "type", "from", "of"]
    {
        assert!(is_reserved_type_name(name), "{}", name);
    }
    for name in ["Any", "String", "", "class", "off"] {
        assert!(!is_reserved_type_name(name), "{}", name);
    }
}

#[test]
fn escaping_adds_a_dollar_to_reserved_words_only() {
    assert_eq!(maybe_escape_identifier_string("class"), "class$");
    assert_eq!(maybe_escape_identifier_string("max_int"), "max_int");
    assert_eq!(escape_identifier("x"), "x$");
    assert_eq!(maybe_escape_identifier_doc("new"), Document::Text("new$".to_string()));
}

#[test]
fn safe_type_name_adds_an_underscore_or_a_dollar() {
    assert_eq!(ts_safe_type_name("any".to_string()), "any_");
    assert_eq!(ts_safe_type_name("string".to_string()), "string_");
    assert_eq!(ts_safe_type_name("class".to_string()), "class$");
    assert_eq!(ts_safe_type_name("Shape".to_string()), "Shape");
}

#[test]
fn safe_type_name_is_idempotent() {
    for name in ["any", "class", "Shape", "of", "then", "x", "any_", "class$"] {
        let once = ts_safe_type_name(name.to_string());
        let twice = ts_safe_type_name(once.clone());
        assert_eq!(once, twice);
        assert!(is_usable_js_identifier(&once));
        assert!(!is_reserved_type_name(&once));
    }
}

#[test]
fn marked_type_name_ends_in_a_dollar() {
    assert_eq!(marked_type_name_string("Shape".to_string()), "Shape$");
    assert_eq!(marked_type_name_string("type".to_string()), "type_$");
}

#[test]
fn module_name_joins_segments_in_upper_camel_case() {
    let path = vec!["one".to_string(), "two_three".to_string()];
    assert_eq!(module_name(&path), "OneTwoThree");
    assert_eq!(module_name(&vec!["gleam".to_string()]), "Gleam");
    assert_eq!(module_name(&Vec::new()), "");
}
