//! Names that are safe to write in a declaration file.
//!
//! A source name may be a word that the target language keeps for itself.
//! Such a name gets a suffix, and the suffixed name is never such a word
//! again. Generic type parameters are named by letters.

use crate::casing::{to_upper_camel_case, upper_camel_case};
use crate::document::{Document, Layout};
use crate::joining;
use crate::text::{joined, same_text, strings};
use vstd::prelude::*;
use vstd::string::StrSliceExecFns;
use vstd::string::StringExecFns;

verus! {

/// Whether `word` is a keyword or an ambient name of JavaScript.
pub open spec fn is_js_reserved(word: Seq<char>) -> bool {
    ||| word == "await"@
    ||| word == "arguments"@
    ||| word == "break"@
    ||| word == "case"@
    ||| word == "catch"@
    ||| word == "class"@
    ||| word == "const"@
    ||| word == "continue"@
    ||| word == "debugger"@
    ||| word == "default"@
    ||| word == "delete"@
    ||| word == "do"@
    ||| word == "else"@
    ||| word == "enum"@
    ||| word == "export"@
    ||| word == "extends"@
    ||| word == "eval"@
    ||| word == "false"@
    ||| word == "finally"@
    ||| word == "for"@
    ||| word == "function"@
    ||| word == "if"@
    ||| word == "implements"@
    ||| word == "import"@
    ||| word == "in"@
    ||| word == "instanceof"@
    ||| word == "interface"@
    ||| word == "let"@
    ||| word == "new"@
    ||| word == "null"@
    ||| word == "package"@
    ||| word == "private"@
    ||| word == "protected"@
    ||| word == "public"@
    ||| word == "return"@
    ||| word == "static"@
    ||| word == "super"@
    ||| word == "switch"@
    ||| word == "this"@
    ||| word == "throw"@
    ||| word == "true"@
    ||| word == "try"@
    ||| word == "typeof"@
    ||| word == "var"@
    ||| word == "void"@
    ||| word == "while"@
    ||| word == "with"@
    ||| word == "yield"@
    ||| word == "undefined"@
    ||| word == "then"@
}

/// Whether `word` is a name that TypeScript gives a meaning of its own where
/// a type is expected.
pub open spec fn is_ts_reserved(word: Seq<char>) -> bool {
    ||| word == "any"@
    ||| word == "boolean"@
    ||| word == "constructor"@
    ||| word == "declare"@
    ||| word == "get"@
    ||| word == "module"@
    ||| word == "require"@
    ||| word == "number"@
    ||| word == "set"@
    ||| word == "string"@
    ||| word == "symbol"@
    ||| word == "type"@
    ||| word == "from"@
    ||| word == "of"@
}

/// The identifier written for the value-level name `word`.
pub open spec fn escaped_identifier(word: Seq<char>) -> Seq<char> {
    if is_js_reserved(word) {
        word.push('$')
    } else {
        word
    }
}

/// The identifier written for the type-level name `name`, before the marker
/// that sets types apart from values.
pub open spec fn safe_type_name(name: Seq<char>) -> Seq<char> {
    if is_ts_reserved(name) {
        name.push('_')
    } else {
        escaped_identifier(name)
    }
}

/// The name of a type as a declaration writes it: made safe, then marked
/// with `$` so that it cannot meet a value of the same name.
pub open spec fn marked_type_name(name: Seq<char>) -> Seq<char> {
    safe_type_name(name).push('$')
}

/// The letter at `index` of the alphabet, counted from zero.
pub open spec fn letter(index: nat) -> char {
    "ABCDEFGHIJKLMNOPQRSTUVWXYZ"@[index as int]
}

/// The letters of a type variable of two letters or more: the digits of
/// `number` to the base 26, the leading one counted from one.
pub open spec fn type_var_letters(number: nat) -> Seq<char>
    decreases number,
{
    if number >= 26 {
        type_var_letters(number / 26).push(letter(number % 26))
    } else {
        seq![letter((number - 1) as nat)]
    }
}

/// The name of the generic type variable `id`: `A` to `Z` for the first 26,
/// then `AA`, `AB` and so on.
pub open spec fn type_var_name(id: nat) -> Seq<char> {
    if id < 26 {
        seq![letter(id)]
    } else {
        type_var_letters(id)
    }
}

/// The namespace that stands for the module at `path`: its segments in upper
/// camel case, written together.
pub open spec fn module_alias(path: Seq<Seq<char>>) -> Seq<char> {
    joined(Seq::new(path.len(), |i: int| upper_camel_case(path[i])), Seq::empty())
}

/// Whether `word` can be written as it is where JavaScript expects an
/// identifier.
pub fn is_usable_js_identifier(word: &str) -> (usable: bool)
    ensures
        usable == !is_js_reserved(word@),
{
    !(same_text(word, "await")
        || same_text(word, "arguments")
        || same_text(word, "break")
        || same_text(word, "case")
        || same_text(word, "catch")
        || same_text(word, "class")
        || same_text(word, "const")
        || same_text(word, "continue")
        || same_text(word, "debugger")
        || same_text(word, "default")
        || same_text(word, "delete")
        || same_text(word, "do")
        || same_text(word, "else")
        || same_text(word, "enum")
        || same_text(word, "export")
        || same_text(word, "extends")
        || same_text(word, "eval")
        || same_text(word, "false")
        || same_text(word, "finally")
        || same_text(word, "for")
        || same_text(word, "function")
        || same_text(word, "if")
        || same_text(word, "implements")
        || same_text(word, "import")
        || same_text(word, "in")
        || same_text(word, "instanceof")
        || same_text(word, "interface")
        || same_text(word, "let")
        || same_text(word, "new")
        || same_text(word, "null")
        || same_text(word, "package")
        || same_text(word, "private")
        || same_text(word, "protected")
        || same_text(word, "public")
        || same_text(word, "return")
        || same_text(word, "static")
        || same_text(word, "super")
        || same_text(word, "switch")
        || same_text(word, "this")
        || same_text(word, "throw")
        || same_text(word, "true")
        || same_text(word, "try")
        || same_text(word, "typeof")
        || same_text(word, "var")
        || same_text(word, "void")
        || same_text(word, "while")
        || same_text(word, "with")
        || same_text(word, "yield")
        || same_text(word, "undefined")
        || same_text(word, "then"))
}

/// Whether `name` would be taken for something else where TypeScript expects
/// the name of a type.
pub fn is_reserved_type_name(name: &str) -> (reserved: bool)
    ensures
        reserved == is_ts_reserved(name@),
{
    same_text(name, "any")
        || same_text(name, "boolean")
        || same_text(name, "constructor")
        || same_text(name, "declare")
        || same_text(name, "get")
        || same_text(name, "module")
        || same_text(name, "require")
        || same_text(name, "number")
        || same_text(name, "set")
        || same_text(name, "string")
        || same_text(name, "symbol")
        || same_text(name, "type")
        || same_text(name, "from")
        || same_text(name, "of")
}

/// `word` with `$` behind it.
pub fn escape_identifier(word: &str) -> (escaped: String)
    ensures
        escaped@ == word@.push('$'),
{
    let mut escaped = word.to_owned();
    escaped.append("$");
    proof {
        reveal_strlit("$");
        assert(escaped@ =~= word@.push('$'));
    }
    escaped
}

/// The identifier for the value-level name `word`.
pub fn maybe_escape_identifier_string(word: &str) -> (escaped: String)
    ensures
        escaped@ == escaped_identifier(word@),
{
    if is_usable_js_identifier(word) {
        word.to_owned()
    } else {
        escape_identifier(word)
    }
}

/// The identifier for the value-level name `word`, as a document.
pub fn maybe_escape_identifier_doc(word: &str) -> (doc: Document)
    ensures
        doc@ == Layout::Text(escaped_identifier(word@)),
{
    Document::Text(maybe_escape_identifier_string(word))
}

/// The identifier for the type-level name `name`. Where it clashes with a
/// name of TypeScript, `_` is put behind it.
pub fn ts_safe_type_name(name: String) -> (safe: String)
    ensures
        safe@ == safe_type_name(name@),
{
    if is_reserved_type_name(name.as_str()) {
        let mut safe = name;
        let ghost before = safe@;
        safe.append("_");
        proof {
            reveal_strlit("_");
            assert(safe@ =~= before.push('_'));
        }
        safe
    } else {
        maybe_escape_identifier_string(name.as_str())
    }
}

/// The marked name of the type `name`.
pub fn marked_type_name_string(name: String) -> (marked: String)
    ensures
        marked@ == marked_type_name(name@),
{
    let safe = ts_safe_type_name(name);
    escape_identifier(safe.as_str())
}

fn type_var_letters_string(number: u64) -> (letters: String)
    requires
        number >= 1,
    ensures
        letters@ == type_var_letters(number as nat),
    decreases number,
{
    let alphabet = "ABCDEFGHIJKLMNOPQRSTUVWXYZ";
    proof {
        reveal_strlit("ABCDEFGHIJKLMNOPQRSTUVWXYZ");
    }
    if number >= 26 {
        let mut letters = type_var_letters_string(number / 26);
        let last = (number % 26) as usize;
        letters.append(alphabet.substring_ascii(last, last + 1));
        assert(letters@ =~= type_var_letters(number as nat / 26).push(
            letter(number as nat % 26),
        ));
        letters
    } else {
        let first = (number - 1) as usize;
        let mut letters = String::new();
        letters.append(alphabet.substring_ascii(first, first + 1));
        assert(letters@ =~= seq![letter((number - 1) as nat)]);
        letters
    }
}

/// The name of the generic type variable `id`. Variables with the same id
/// get the same name wherever they are printed.
pub fn id_to_type_var(id: u64) -> (doc: Document)
    ensures
        doc@ == Layout::Text(type_var_name(id as nat)),
{
    if id < 26 {
        let alphabet = "ABCDEFGHIJKLMNOPQRSTUVWXYZ";
        proof {
            reveal_strlit("ABCDEFGHIJKLMNOPQRSTUVWXYZ");
        }
        let index = id as usize;
        let mut name = String::new();
        name.append(alphabet.substring_ascii(index, index + 1));
        assert(name@ =~= seq![letter(id as nat)]);
        return Document::Text(name);
    }
    Document::Text(type_var_letters_string(id))
}

/// Joins the segments of a module's path into one name in upper camel case.
pub fn module_name(parts: &Vec<String>) -> (name: String)
    ensures
        name@ == module_alias(strings(parts@)),
{
    let mut cased: Vec<String> = Vec::new();
    let mut i: usize = 0;
    while i < parts.len()
        invariant
            i <= parts.len(),
            cased.len() == i,
            forall|j: int| 0 <= j < i ==> cased@[j]@ == upper_camel_case(parts@[j]@),
        decreases parts.len() - i,
    {
        cased.push(to_upper_camel_case(parts[i].as_str()));
        i += 1;
    }
    proof {
        reveal_strlit("");
        assert(""@ =~= Seq::<char>::empty());
        assert(strings(cased@) =~= Seq::new(
            parts@.len(),
            |i: int| upper_camel_case(strings(parts@)[i]),
        ));
    }
    joining::join(&cased, "")
}

proof fn lemma_reserved_words_end_in_letters(word: Seq<char>)
    requires
        is_js_reserved(word) || is_ts_reserved(word),
    ensures
        word.len() > 0,
        word.last() != '$',
        word.last() != '_',
{
    reveal_strlit("await");
    reveal_strlit("arguments");
    reveal_strlit("break");
    reveal_strlit("case");
    reveal_strlit("catch");
    reveal_strlit("class");
    reveal_strlit("const");
    reveal_strlit("continue");
    reveal_strlit("debugger");
    reveal_strlit("default");
    reveal_strlit("delete");
    reveal_strlit("do");
    reveal_strlit("else");
    reveal_strlit("enum");
    reveal_strlit("export");
    reveal_strlit("extends");
    reveal_strlit("eval");
    reveal_strlit("false");
    reveal_strlit("finally");
    reveal_strlit("for");
    reveal_strlit("function");
    reveal_strlit("if");
    reveal_strlit("implements");
    reveal_strlit("import");
    reveal_strlit("in");
    reveal_strlit("instanceof");
    reveal_strlit("interface");
    reveal_strlit("let");
    reveal_strlit("new");
    reveal_strlit("null");
    reveal_strlit("package");
    reveal_strlit("private");
    reveal_strlit("protected");
    reveal_strlit("public");
    reveal_strlit("return");
    reveal_strlit("static");
    reveal_strlit("super");
    reveal_strlit("switch");
    reveal_strlit("this");
    reveal_strlit("throw");
    reveal_strlit("true");
    reveal_strlit("try");
    reveal_strlit("typeof");
    reveal_strlit("var");
    reveal_strlit("void");
    reveal_strlit("while");
    reveal_strlit("with");
    reveal_strlit("yield");
    reveal_strlit("undefined");
    reveal_strlit("then");
    reveal_strlit("any");
    reveal_strlit("boolean");
    reveal_strlit("constructor");
    reveal_strlit("declare");
    reveal_strlit("get");
    reveal_strlit("module");
    reveal_strlit("require");
    reveal_strlit("number");
    reveal_strlit("set");
    reveal_strlit("string");
    reveal_strlit("symbol");
    reveal_strlit("type");
    reveal_strlit("from");
    reveal_strlit("of");
}

/// A safe type name is never a word that the target keeps for itself.
pub proof fn lemma_safe_type_name_is_not_reserved(name: Seq<char>)
    ensures
        !is_js_reserved(safe_type_name(name)),
        !is_ts_reserved(safe_type_name(name)),
{
    let safe = safe_type_name(name);
    if is_js_reserved(safe) || is_ts_reserved(safe) {
        lemma_reserved_words_end_in_letters(safe);
    }
}

/// A name that is no reserved word is safe as it stands, and making a name
/// safe a second time changes nothing.
pub proof fn lemma_safe_type_name_is_idempotent(name: Seq<char>)
    ensures
        !is_js_reserved(name) && !is_ts_reserved(name) ==> safe_type_name(name) == name,
        safe_type_name(safe_type_name(name)) == safe_type_name(name),
{
    lemma_safe_type_name_is_not_reserved(name);
}

/// An escaped identifier is never a reserved word of JavaScript, and
/// escaping it a second time changes nothing.
pub proof fn lemma_escaped_identifier_is_usable(word: Seq<char>)
    ensures
        !is_js_reserved(escaped_identifier(word)),
        escaped_identifier(escaped_identifier(word)) == escaped_identifier(word),
{
    let escaped = escaped_identifier(word);
    if is_js_reserved(escaped) {
        lemma_reserved_words_end_in_letters(escaped);
    }
}

proof fn lemma_letters_differ(i: nat, j: nat)
    requires
        i < 26,
        j < 26,
        letter(i) == letter(j),
    ensures
        i == j,
{
    reveal_strlit("ABCDEFGHIJKLMNOPQRSTUVWXYZ");
}

proof fn lemma_type_var_letters_len(number: nat)
    ensures
        type_var_letters(number).len() >= 1,
        number >= 26 ==> type_var_letters(number).len() >= 2,
    decreases number,
{
    if number >= 26 {
        lemma_type_var_letters_len(number / 26);
    }
}

proof fn lemma_type_var_letters_injective(a: nat, b: nat)
    requires
        a >= 1,
        b >= 1,
        type_var_letters(a) == type_var_letters(b),
    ensures
        a == b,
    decreases a,
{
    lemma_type_var_letters_len(a);
    lemma_type_var_letters_len(b);
    if a >= 26 && b >= 26 {
        let front_a = type_var_letters(a / 26);
        let front_b = type_var_letters(b / 26);
        assert(front_a.push(letter(a % 26)).last() == letter(a % 26));
        assert(front_b.push(letter(b % 26)).last() == letter(b % 26));
        assert(front_a.push(letter(a % 26)).drop_last() =~= front_a);
        assert(front_b.push(letter(b % 26)).drop_last() =~= front_b);
        lemma_letters_differ(a % 26, b % 26);
        lemma_type_var_letters_injective(a / 26, b / 26);
    } else if a < 26 && b < 26 {
        assert(type_var_letters(a)[0] == letter((a - 1) as nat));
        assert(type_var_letters(b)[0] == letter((b - 1) as nat));
        lemma_letters_differ((a - 1) as nat, (b - 1) as nat);
    }
}

/// Two generic type variables get the same name only if they are the same
/// variable.
pub proof fn lemma_type_var_name_injective(a: nat, b: nat)
    requires
        type_var_name(a) == type_var_name(b),
    ensures
        a == b,
{
    lemma_type_var_letters_len(a);
    lemma_type_var_letters_len(b);
    if a < 26 && b < 26 {
        assert(type_var_name(a)[0] == letter(a));
        assert(type_var_name(b)[0] == letter(b));
        lemma_letters_differ(a, b);
    } else if a >= 26 && b >= 26 {
        lemma_type_var_letters_injective(a, b);
    }
}

} // verus!
