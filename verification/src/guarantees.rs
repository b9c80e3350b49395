//! What holds of every declaration file, whatever the module.

use crate::document::Layout;
use crate::generator::{
    declarations, import_path_text, imported, module_imports, module_layout, prelude_path,
    record_head_layout, record_layout, statement_layouts, statements_use_prelude, union_layout,
};
use crate::imports::registered;
use crate::printer::namespace;
use crate::text::strings;
use crate::module::{
    is_public, signature_types, statement_uses_prelude, Arg, Module, RecordConstructor, Statement,
};
use crate::names::type_var_name;
use crate::printer::{generic_layout, type_layout};
use crate::render::{concatenated, unbroken, unbroken_each};
use crate::types::{Type, TypeVar};
use crate::usage::{generics_of, lemma_generics_of_lists, occurrences_in, usages_among};
use vstd::prelude::*;

verus! {

/// A type variable that the signature of a function mentions once is
/// written `any` and is no type parameter of the declaration. One that the
/// signature mentions more often is written under its name wherever it
/// occurs, and is a type parameter of the declaration exactly once.
pub proof fn lemma_generic_is_any_or_a_parameter(
    args: Seq<Arg>,
    return_type: &Type,
    id: u64,
    current: Seq<Seq<char>>,
)
    ensures
        ({
            let types = signature_types(args, return_type);
            let usages = usages_among(types);
            let params = generics_of(usages, 2);
            let written = type_layout(
                &Type::Var { type_: TypeVar::Generic { id } },
                Some(usages),
                current,
            );
            &&& occurrences_in(types, id) == 1 ==> written == Layout::Text("any"@)
                && !params.contains(id)
            &&& occurrences_in(types, id) >= 2 ==> written == Layout::Text(
                type_var_name(id as nat),
            ) && exists|i: int|
                0 <= i < params.len() && #[trigger] params[i] == id && forall|j: int|
                    0 <= j < params.len() && params[j] == id ==> j == i
        }),
{
    let types = signature_types(args, return_type);
    let usages = usages_among(types);
    let params = generics_of(usages, 2);
    lemma_generics_of_lists(usages, 2);
    assert(type_layout(&Type::Var { type_: TypeVar::Generic { id } }, Some(usages), current)
        == generic_layout(id, Some(usages)));
    if occurrences_in(types, id) == 1 {
        assert(usages.contains_key(id) && usages[id] == 1);
    }
    if occurrences_in(types, id) >= 2 {
        assert(usages.contains_key(id) && usages[id] >= 2);
        assert(params.contains(id));
        let i = choose|i: int| 0 <= i < params.len() && params[i] == id;
        assert(params[i] == id);
        assert forall|j: int| 0 <= j < params.len() && params[j] == id implies j == i by {
            if j < i {
                assert(params[j] < params[i]);
            }
            if i < j {
                assert(params[i] < params[j]);
            }
        }
    }
}

/// A statement that is not public has no declaration and does not use the
/// runtime support module.
pub proof fn lemma_private_statement_declares_nothing(
    statement: &Statement,
    current: Seq<Seq<char>>,
)
    requires
        !is_public(statement),
    ensures
        statement_layouts(statement, current) == Seq::<Layout>::empty(),
        !statement_uses_prelude(statement),
{
}

proof fn lemma_declarations_without(statements: Seq<Statement>, index: int, current: Seq<Seq<char>>)
    requires
        0 <= index < statements.len(),
        !is_public(&statements[index]),
    ensures
        declarations(statements.remove(index), current) == declarations(statements, current),
    decreases statements.len(),
{
    let without = statements.remove(index);
    if index == statements.len() - 1 {
        assert(without =~= statements.drop_last());
        assert(declarations(statements, current) =~= declarations(without, current));
    } else {
        assert(without.drop_last() =~= statements.drop_last().remove(index));
        assert(without.last() == statements.last());
        lemma_declarations_without(statements.drop_last(), index, current);
    }
}

proof fn lemma_imported_without(
    statements: Seq<Statement>,
    index: int,
    depth: nat,
    own_package: Seq<char>,
)
    requires
        0 <= index < statements.len(),
        !(statements[index] is Import),
    ensures
        imported(statements.remove(index), depth, own_package) == imported(
            statements,
            depth,
            own_package,
        ),
    decreases statements.len(),
{
    let without = statements.remove(index);
    if index == statements.len() - 1 {
        assert(without =~= statements.drop_last());
    } else {
        assert(without.drop_last() =~= statements.drop_last().remove(index));
        assert(without.last() == statements.last());
        lemma_imported_without(statements.drop_last(), index, depth, own_package);
    }
}

proof fn lemma_prelude_without(statements: Seq<Statement>, index: int)
    requires
        0 <= index < statements.len(),
        !is_public(&statements[index]),
    ensures
        statements_use_prelude(statements.remove(index)) == statements_use_prelude(statements),
{
    let without = statements.remove(index);
    if statements_use_prelude(statements) {
        let i = choose|i: int|
            0 <= i < statements.len() && statement_uses_prelude(#[trigger] &statements[i]);
        if i < index {
            assert(statement_uses_prelude(&without[i]));
        } else {
            assert(statement_uses_prelude(&without[i - 1]));
        }
    }
    if statements_use_prelude(without) {
        let i = choose|i: int|
            0 <= i < without.len() && statement_uses_prelude(#[trigger] &without[i]);
        if i < index {
            assert(statement_uses_prelude(&statements[i]));
        } else {
            assert(statement_uses_prelude(&statements[i + 1]));
        }
    }
}

/// A statement that is not public leaves no trace in the declaration file:
/// the file of the module is the file of the module without the statement,
/// imports included.
pub proof fn lemma_private_statement_leaves_no_trace(
    module: &Module,
    without: &Module,
    index: int,
    prelude_before: bool,
)
    requires
        0 <= index < module.statements@.len(),
        !is_public(&module.statements@[index]),
        !(module.statements@[index] is Import),
        without.name@ == module.name@,
        without.package@ == module.package@,
        without.statements@ == module.statements@.remove(index),
    ensures
        module_layout(without, prelude_before) == module_layout(module, prelude_before),
{
    let statements = module.statements@;
    lemma_declarations_without(statements, index, strings(module.name@));
    lemma_imported_without(statements, index, module.name@.len(), module.package@);
    lemma_prelude_without(statements, index);
}

proof fn lemma_registered_keeps_distinct(
    entries: Seq<(Seq<char>, Seq<char>)>,
    path: Seq<char>,
    alias: Seq<char>,
)
    requires
        entries.no_duplicates(),
    ensures
        registered(entries, path, alias).no_duplicates(),
        registered(entries, path, alias).contains((path, alias)),
{
    if !entries.contains((path, alias)) {
        let after = entries.push((path, alias));
        assert(after[entries.len() as int] == (path, alias));
        assert forall|i: int, j: int| 0 <= i < after.len() && 0 <= j < after.len() && i != j implies after[i]
            != after[j] by {
            if i == entries.len() {
                assert(entries.contains(entries[j]));
            } else if j == entries.len() {
                assert(entries.contains(entries[i]));
            }
        }
    }
}

proof fn lemma_imported_is_distinct(statements: Seq<Statement>, depth: nat, own_package: Seq<char>)
    ensures
        imported(statements, depth, own_package).no_duplicates(),
    decreases statements.len(),
{
    if statements.len() > 0 {
        lemma_imported_is_distinct(statements.drop_last(), depth, own_package);
        let before = imported(statements.drop_last(), depth, own_package);
        match statements.last() {
            Statement::Import { module, package } => {
                lemma_registered_keeps_distinct(
                    before,
                    import_path_text(depth, own_package, package@, strings(module@)),
                    namespace(strings(module@)),
                );
            },
            _ => {},
        }
    }
}

/// No import stands twice in a declaration file, however often a module is
/// imported and whether or not the runtime support module is among the
/// imports already.
pub proof fn lemma_imports_are_registered_once(module: &Module, prelude: bool)
    ensures
        module_imports(module, prelude).no_duplicates(),
{
    let listed = imported(module.statements@, module.name@.len(), module.package@);
    lemma_imported_is_distinct(module.statements@, module.name@.len(), module.package@);
    if prelude {
        lemma_registered_keeps_distinct(
            listed,
            import_path_text(module.name@.len(), module.package@, module.package@, prelude_path()),
            "$Gleam"@,
        );
    }
}

proof fn lemma_concatenated_prefix(parts: Seq<Seq<char>>, count: int)
    requires
        0 <= count <= parts.len(),
    ensures
        concatenated(parts.take(count)).is_prefix_of(concatenated(parts)),
    decreases parts.len(),
{
    if count == parts.len() {
        assert(parts.take(count) =~= parts);
    } else {
        lemma_concatenated_prefix(parts.drop_last(), count);
        assert(parts.drop_last().take(count) =~= parts.take(count));
    }
}

proof fn lemma_starts_with_two(parts: Seq<Layout>, indent: nat)
    requires
        parts.len() >= 2,
    ensures
        (unbroken(parts[0], indent) + unbroken(parts[1], indent)).is_prefix_of(
            unbroken(Layout::Concat(parts), indent),
        ),
{
    let texts = unbroken_each(parts, indent);
    lemma_concatenated_prefix(texts, 2);
    assert(texts.take(2).drop_last() =~= texts.take(1));
    assert(texts.take(1).drop_last() =~= texts.take(0));
    assert(concatenated(texts.take(0)) =~= Seq::<char>::empty());
    assert(concatenated(texts.take(1)) =~= texts[0]);
    assert(concatenated(texts.take(2)) =~= texts[0] + texts[1]);
}

proof fn lemma_starts_with_one(parts: Seq<Layout>, indent: nat)
    requires
        parts.len() >= 1,
    ensures
        unbroken(parts[0], indent).is_prefix_of(unbroken(Layout::Concat(parts), indent)),
{
    let texts = unbroken_each(parts, indent);
    lemma_concatenated_prefix(texts, 1);
    assert(texts.take(1).drop_last() =~= texts.take(0));
    assert(concatenated(texts.take(0)) =~= Seq::<char>::empty());
    assert(concatenated(texts.take(1)) =~= texts[0]);
}

/// The class of a constructor of an opaque type is written without
/// `export`, and that of any other type with it. The union that declares
/// the type itself is exported in either case.
pub proof fn lemma_opaque_type_hides_its_constructors(
    name: Seq<char>,
    constructors: Seq<RecordConstructor>,
    index: int,
    current: Seq<Seq<char>>,
    indent: nat,
)
    requires
        0 <= index < constructors.len(),
    ensures
        "class "@.is_prefix_of(unbroken(record_layout(&constructors[index], true, current), indent)),
        ("export "@ + "class "@).is_prefix_of(
            unbroken(record_layout(&constructors[index], false, current), indent),
        ),
        "export type "@.is_prefix_of(unbroken(union_layout(name, constructors), indent)),
{
    let constructor = &constructors[index];
    let hidden = record_head_layout(constructor, true);
    let shown = record_head_layout(constructor, false);
    lemma_starts_with_two(hidden->Concat_0, indent);
    lemma_starts_with_two(shown->Concat_0, indent);
    assert(unbroken_each(Seq::<Layout>::empty(), indent).len() == 0);
    assert(unbroken(Layout::nil(), indent) =~= Seq::<char>::empty());
    assert(Seq::<char>::empty() + "class "@ =~= "class "@);
    assert("class "@.is_prefix_of(unbroken(hidden, indent)));
    assert(("export "@ + "class "@).is_prefix_of(unbroken(shown, indent)));
    lemma_starts_with_one(record_layout(constructor, true, current)->Concat_0, indent);
    lemma_starts_with_one(record_layout(constructor, false, current)->Concat_0, indent);
    lemma_starts_with_one(union_layout(name, constructors)->Concat_0, indent);
}

} // verus!
