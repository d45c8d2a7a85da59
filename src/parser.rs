//! The two operations on one file, and the admission filter for
//! JavaScript and TypeScript sources.
use vstd::prelude::*;
use crate::dto::invocation_structure::{texts, InvocationStructure};
use crate::dto::repository_method_dto::RepositoryMethodDto;
use crate::syntax::grammar::{parse_source, Grammar};
use crate::syntax::SyntaxNode;
use crate::visitor::{
    cpp_declaration_visitor, cpp_invocation_visitor, java_declaration_visitor, java_invocation_visitor, js_declaration_visitor, js_invocation_visitor,
    python_declaration_visitor, python_invocation_visitor,
};
use crate::visitor::symbols::opt_text;
use crate::visitor::flatten::extends_with;
use crate::visitor::java_declaration_visitor::java_records;
use crate::visitor::java_invocation_visitor::{call_free, file_package, imports_after};
use crate::visitor::symbols::imports_of;
use vstd::string::StringSliceAdditionalSpecFns;
use vstd::utf8::encode_utf8;

verus! {

/// Lines longer than this many bytes reject a source.
pub const MAX_LINE_LENGTH: usize = 500;
/// In a source of fewer than `REQUIRED_LINE_NUMBER` lines, lines longer
/// than this many bytes reject it.
pub const MAX_LINE_LENGTH_WITH_SMALL_LINE_NUMBER: usize = 200;
pub const REQUIRED_LINE_NUMBER: usize = 10;

/// The languages a file can be given in.
#[derive(Debug, Clone, Copy, PartialEq, Eq, Structural)]
pub enum SupportedLanguages {
    Js,
    Java,
    Cpp,
    Python,
    Ts,
}

pub open spec fn language_of(s: Seq<char>) -> Option<SupportedLanguages> {
    if s == "JS"@ {
        Some(SupportedLanguages::Js)
    } else if s == "JAVA"@ {
        Some(SupportedLanguages::Java)
    } else if s == "CPP"@ {
        Some(SupportedLanguages::Cpp)
    } else if s == "PYTHON"@ {
        Some(SupportedLanguages::Python)
    } else if s == "TS"@ {
        Some(SupportedLanguages::Ts)
    } else {
        None
    }
}

impl SupportedLanguages {
    /// The language named `name` (`JS`, `JAVA`, `CPP`, `PYTHON`, `TS`).
    pub fn from_name(name: &String) -> (r: Option<SupportedLanguages>)
        ensures
            r == language_of(name@),
    {
        if *name == "JS".to_owned() {
            Some(SupportedLanguages::Js)
        } else if *name == "JAVA".to_owned() {
            Some(SupportedLanguages::Java)
        } else if *name == "CPP".to_owned() {
            Some(SupportedLanguages::Cpp)
        } else if *name == "PYTHON".to_owned() {
            Some(SupportedLanguages::Python)
        } else if *name == "TS".to_owned() {
            Some(SupportedLanguages::Ts)
        } else {
            None
        }
    }
}

/// Whether `part` occurs in `s`.
pub open spec fn contains_text(s: Seq<char>, part: Seq<char>) -> bool {
    exists|i: int| 0 <= i && i + part.len() <= s.len() && #[trigger] s.subrange(i, i + part.len()) == part
}

/// How many newline bytes `b` holds.
pub open spec fn newlines(b: Seq<u8>) -> nat
    decreases b.len(),
{
    if b.len() == 0 {
        0
    } else {
        newlines(b.drop_last()) + if b.last() == 10u8 { 1nat } else { 0nat }
    }
}

/// The length of the unfinished line at the end of `b`.
pub open spec fn trailing_len(b: Seq<u8>) -> nat
    decreases b.len(),
{
    if b.len() == 0 {
        0
    } else if b.last() == 10u8 {
        0
    } else {
        trailing_len(b.drop_last()) + 1
    }
}

/// The length of the unfinished line at the end of `b`, less a carriage
/// return that a newline may follow.
pub open spec fn trailing_measure(b: Seq<u8>) -> nat {
    if trailing_len(b) > 0 && b.last() == 13u8 {
        (trailing_len(b) - 1) as nat
    } else {
        trailing_len(b)
    }
}

/// The largest `trailing_measure` over the prefixes of `b`.
pub open spec fn longest_measure(b: Seq<u8>) -> nat
    decreases b.len(),
{
    if b.len() == 0 {
        0
    } else {
        let m = longest_measure(b.drop_last());
        if m >= trailing_measure(b) { m } else { trailing_measure(b) }
    }
}

/// The length in bytes of the longest line of `b`: lines end at a newline,
/// which with a carriage return just before it is not part of the line.
pub open spec fn longest_line(b: Seq<u8>) -> nat {
    if longest_measure(b) >= trailing_len(b) { longest_measure(b) } else { trailing_len(b) }
}

/// Whether a source with file stem `stem` and bytes `b` is admitted.
pub open spec fn source_valid(stem: Option<Seq<char>>, b: Seq<u8>) -> bool {
    match stem {
        None => false,
        Some(s) => {
            &&& !contains_text(s, ".min"@)
            &&& !contains_text(s, ".dev"@)
            &&& newlines(b) > 0
            &&& longest_line(b) <= MAX_LINE_LENGTH
            &&& !(newlines(b) < REQUIRED_LINE_NUMBER && longest_line(b) > MAX_LINE_LENGTH_WITH_SMALL_LINE_NUMBER)
        },
    }
}

/// Filename filter: a file whose stem holds `.min` or `.dev` is rejected
/// whatever its content, and so is any content without a newline, whatever
/// the file's name.
pub proof fn lemma_filename_filter(stem: Option<Seq<char>>, b: Seq<u8>)
    ensures
        stem matches Some(s) && (contains_text(s, ".min"@) || contains_text(s, ".dev"@)) ==> !source_valid(stem, b),
        newlines(b) == 0 ==> !source_valid(stem, b),
{
}

/// What `Path::file_stem` gives for a path, as text: the file name without
/// its last extension; `None` when the path has no file name.
pub uninterp spec fn stem_of(path: Seq<char>) -> Option<Seq<char>>;

/// Relies on std::path::Path::file_stem, with OsStr::to_str to turn the
/// stem of a `&str` path (always valid Unicode) back into text.
#[verifier::external_body]
fn file_stem(path: &str) -> (r: Option<String>)
    ensures
        opt_text(r) == stem_of(path@),
{
    std::path::Path::new(path).file_stem().and_then(|s| s.to_str()).map(|s| s.to_string())
}

/// Whether `part` occurs in `s`.
pub fn contains_part(s: &str, part: &str) -> (r: bool)
    ensures
        r == contains_text(s@, part@),
{
    let n = s.unicode_len();
    let m = part.unicode_len();
    if m > n {
        return false;
    }
    let mut i: usize = 0;
    while i <= n - m
        invariant
            n == s@.len(),
            m == part@.len(),
            m <= n,
            i <= n - m + 1,
            forall|k: int| 0 <= k < i ==> #[trigger] s@.subrange(k, k + m) != part@,
        decreases n - m + 1 - i,
    {
        let mut j: usize = 0;
        let mut same = true;
        while j < m
            invariant
                n == s@.len(),
                m == part@.len(),
                i + m <= n,
                j <= m,
                same == forall|k: int| 0 <= k < j ==> s@[i + k] == part@[k],
            decreases m - j,
        {
            if s.get_char(i + j) != part.get_char(j) {
                same = false;
            }
            j = j + 1;
        }
        if same {
            assert(s@.subrange(i as int, i + m) =~= part@);
            return true;
        }
        assert(s@.subrange(i as int, i + m)[j as int] != part@[j as int] || exists|k: int| 0 <= k < m && s@[i + k] != part@[k]);
        i = i + 1;
    }
    proof {
        assert forall|k: int| 0 <= k && k + part@.len() <= s@.len() implies #[trigger] s@.subrange(k, k + part@.len()) != part@ by {
            assert(k < i);
        }
    }
    false
}

/// Line count and longest line of `b`, as `newlines` and `longest_line`
/// define them.
pub fn line_statistics(b: &[u8]) -> (r: (usize, usize))
    ensures
        r.0 == newlines(b@),
        r.1 == longest_line(b@),
{
    let mut count: usize = 0;
    let mut current: usize = 0;
    let mut best: usize = 0;
    let mut i: usize = 0;
    while i < b.len()
        invariant
            i <= b@.len(),
            count == newlines(b@.subrange(0, i as int)),
            current == trailing_len(b@.subrange(0, i as int)),
            best == longest_measure(b@.subrange(0, i as int)),
            count <= i,
            current <= i,
            best <= i,
        decreases b@.len() - i,
    {
        let ghost p = b@.subrange(0, i + 1);
        assert(p.drop_last() =~= b@.subrange(0, i as int));
        assert(p.last() == b@[i as int]);
        if b[i] == 10u8 {
            count = count + 1;
            current = 0;
        } else {
            current = current + 1;
        }
        let measure = if current > 0 && b[i] == 13u8 { current - 1 } else { current };
        if measure > best {
            best = measure;
        }
        i = i + 1;
    }
    assert(b@.subrange(0, i as int) =~= b@);
    let longest = if best >= current { best } else { current };
    (count, longest)
}

/// Whether a source with file stem `stem` is admitted: the stem holds
/// neither `.min` nor `.dev`, the source has a newline, no line is longer
/// than 500 bytes, and a source of fewer than 10 lines has none longer
/// than 200.
pub fn source_code_valid_with_stem(stem: Option<String>, source: &str) -> (r: bool)
    ensures
        r == source_valid(opt_text(stem), source.spec_bytes()),
{
    let name = match stem {
        Some(s) => s,
        None => return false,
    };
    if contains_part(name.as_str(), ".min") || contains_part(name.as_str(), ".dev") {
        return false;
    }
    let (line_number, longest_line_length) = line_statistics(source.as_bytes());
    if line_number == 0 {
        return false;
    }
    if longest_line_length > MAX_LINE_LENGTH {
        false
    } else if line_number < REQUIRED_LINE_NUMBER && longest_line_length > MAX_LINE_LENGTH_WITH_SMALL_LINE_NUMBER {
        false
    } else {
        true
    }
}

/// Whether a JavaScript or TypeScript source at `path_file` is worth
/// parsing; see `source_code_valid_with_stem`.
pub fn is_source_code_valid(source: &str, path_file: &str) -> (r: bool)
    ensures
        r == source_valid(stem_of(path_file@), source.spec_bytes()),
{
    let stem = file_stem(path_file);
    source_code_valid_with_stem(stem, source)
}

/// Whether a call on a file in the language named `language` has nothing
/// to parse: the language is unknown, or the file is JavaScript or
/// TypeScript that the admission filter rejects.
pub open spec fn skipped(file_data: Seq<char>, path: Seq<char>, language: Seq<char>) -> bool {
    match language_of(language) {
        None => true,
        Some(SupportedLanguages::Js) | Some(SupportedLanguages::Ts) => !source_valid(stem_of(path), encode_utf8(file_data)),
        _ => false,
    }
}

/// The grammar each language is parsed with; TypeScript goes through the
/// JavaScript grammar and passes.
pub open spec fn grammar_for(language: SupportedLanguages) -> Grammar {
    match language {
        SupportedLanguages::Java => Grammar::Java,
        SupportedLanguages::Js | SupportedLanguages::Ts => Grammar::JavaScript,
        SupportedLanguages::Python => Grammar::Python,
        SupportedLanguages::Cpp => Grammar::Cpp,
    }
}

/// The package kind code of a grammar's declaration records.
pub open spec fn package_code(grammar: Grammar) -> Seq<char> {
    match grammar {
        Grammar::Java => crate::model::java_object::CodeType::JAVA_PACKAGE.spec_code(),
        Grammar::JavaScript => crate::model::js_object::CodeType::JS_PACKAGE.spec_code(),
        Grammar::Python => crate::model::python_object::CodeType::PYTHON_PACKAGE.spec_code(),
        Grammar::Cpp => crate::model::cpp_object::CodeType::CPP_PACKAGE.spec_code(),
    }
}

/// The declaration-kind codes of a grammar's language.
pub open spec fn codes_of(grammar: Grammar) -> Seq<Seq<char>> {
    match grammar {
        Grammar::Java => crate::model::java_object::CodeType::type_codes_spec(),
        Grammar::JavaScript => crate::model::js_object::CodeType::type_codes_spec(),
        Grammar::Python => crate::model::python_object::CodeType::type_codes_spec(),
        Grammar::Cpp => crate::model::cpp_object::CodeType::type_codes_spec(),
    }
}

/// The grammar a language is parsed with.
pub fn grammar_of(language: SupportedLanguages) -> (r: Grammar)
    ensures
        r == grammar_for(language),
{
    match language {
        SupportedLanguages::Java => Grammar::Java,
        SupportedLanguages::Js => Grammar::JavaScript,
        SupportedLanguages::Ts => Grammar::JavaScript,
        SupportedLanguages::Python => Grammar::Python,
        SupportedLanguages::Cpp => Grammar::Cpp,
    }
}

/// Whether a file in `language` passes the admission filter; only
/// JavaScript and TypeScript files are filtered.
pub fn admitted(language: SupportedLanguages, file_data: &String, path: &String) -> (r: bool)
    ensures
        !(language == SupportedLanguages::Js || language == SupportedLanguages::Ts) ==> r,
        (language == SupportedLanguages::Js || language == SupportedLanguages::Ts)
            ==> r == source_valid(stem_of(path@), encode_utf8(file_data@)),
{
    match language {
        SupportedLanguages::Js | SupportedLanguages::Ts => is_source_code_valid(file_data.as_str(), path.as_str()),
        _ => true,
    }
}

/// The grammar and syntax tree of a file in `language`; `None` exactly when
/// there is nothing to parse.
pub fn syntax_tree_of(file_data: &String, path: &String, language: &String) -> (r: Option<(Grammar, SyntaxNode)>)
    ensures
        r is None <==> skipped(file_data@, path@, language@),
        r matches Some((g, _)) ==> g == grammar_for(language_of(language@)->0),
{
    let language = match SupportedLanguages::from_name(language) {
        Some(l) => l,
        None => return None,
    };
    if !admitted(language, file_data, path) {
        return None;
    }
    let grammar = grammar_of(language);
    match parse_source(file_data, grammar) {
        Some(root) => Some((grammar, root)),
        None => None,
    }
}

/// The declaration records of a file in `language`: none when there is
/// nothing to parse; else the records of the language's declaration pass,
/// which begin with the file's package record.
pub fn parse_file_get_dto(file_data: String, rep_id: i32, path: String, language: String) -> (r: Vec<RepositoryMethodDto>)
    ensures
        skipped(file_data@, path@, language@) ==> r@.len() == 0,
        !skipped(file_data@, path@, language@) ==> {
            &&& r@.len() >= 1
            &&& r@[0].repository_id == rep_id
            &&& r@[0].path_file@ == path@
            &&& r@[0].method_type@ == package_code(grammar_for(language_of(language@)->0))
        },
        language_of(language@) == Some(SupportedLanguages::Java) ==> exists|root: SyntaxNode|
            extends_with(r@, Seq::empty(), rep_id, path@, java_records(root)),
{
    match syntax_tree_of(&file_data, &path, &language) {
        Some((grammar, root)) => match grammar {
            Grammar::Java => java_declaration_visitor::get_repository_method_dto(&root, &path, rep_id),
            Grammar::JavaScript => js_declaration_visitor::get_repository_method_dto(&root, &path, rep_id),
            Grammar::Python => python_declaration_visitor::get_repository_method_dto(&root, &path, rep_id),
            Grammar::Cpp => cpp_declaration_visitor::get_repository_method_dto(&root, &path, rep_id),
        },
        None => Vec::new(),
    }
}

/// The invocation structure of a file in `language`: the empty one when
/// there is nothing to parse; else that of the language's invocation pass,
/// with the language's type codes.
pub fn parse_file_get_invocation_structure(file_data: String, path: String, language: String) -> (r: InvocationStructure)
    ensures
        skipped(file_data@, path@, language@) ==> r.repository_import_declarations@.len() == 0
            && r.method_descriptions@.len() == 0 && r.type_codes@.len() == 0,
        !skipped(file_data@, path@, language@)
            ==> texts(r.type_codes@) == codes_of(grammar_for(language_of(language@)->0)),
        language_of(language@) == Some(SupportedLanguages::Java) ==> exists|root: SyntaxNode|
            imports_of(r.repository_import_declarations@)
                == imports_after(root.children@, seq![(file_package(root), Seq::<Seq<char>>::empty())])
            && (call_free(root) ==> r.method_descriptions@.len() == 0),
{
    match syntax_tree_of(&file_data, &path, &language) {
        Some((grammar, root)) => match grammar {
            Grammar::Java => {
                let r = java_invocation_visitor::get_file_structure(&root);
                assert(call_free(root) ==> r.method_descriptions@.len() == 0);
                assert(imports_of(r.repository_import_declarations@)
                    == imports_after(root.children@, seq![(file_package(root), Seq::<Seq<char>>::empty())]));
                r
            },
            Grammar::JavaScript => js_invocation_visitor::get_file_structure(&root, &path),
            Grammar::Python => python_invocation_visitor::get_file_structure(&root),
            Grammar::Cpp => cpp_invocation_visitor::get_file_structure(&root, &path),
        },
        None => InvocationStructure::empty(),
    }
}

} // verus!
