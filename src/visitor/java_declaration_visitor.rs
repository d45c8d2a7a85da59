//! The declaration pass for Java.
use vstd::prelude::*;
use crate::dto::repository_method_dto::RepositoryMethodDto;
use crate::model::declaration::DeclarationNode;
use crate::model::java_object::CodeType;
use crate::syntax::{has_field, lemma_child_smaller, lemma_first_of_smaller, same_text, text_or_empty, SyntaxNode};
use crate::dto::invocation_structure::texts;
use crate::visitor::declarations::{
    attach, grows, is_method_node, lemma_grows_refl, lemma_grows_trans, method_node, package_node,
    type_node, type_with_constructor,
};
use crate::visitor::flatten::{
    extends_with, flatten, flatten_all, lemma_first_record, prepare_output_data, starts_with_package, DeclRecord,
};

verus! {

const PACKAGE_DECLARATION: &'static str = "package_declaration";
const INTERFACE_DECLARATION: &'static str = "interface_declaration";
const CLASS_DECLARATION: &'static str = "class_declaration";
const CONSTRUCTOR_DECLARATION: &'static str = "constructor_declaration";
const ENUM_DECLARATION: &'static str = "enum_declaration";
const METHOD_DECLARATION: &'static str = "method_declaration";
const SCOPED_IDENTIFIER: &'static str = "scoped_identifier";
const IDENTIFIER: &'static str = "identifier";
const ENUM_BODY_DECLARATIONS: &'static str = "enum_body_declarations";
const FORMAL_PARAMETERS: &'static str = "formal_parameters";
const VARIABLE_DECLARATOR: &'static str = "variable_declarator";
const MODIFIERS: &'static str = "modifiers";
const ERROR: &'static str = "ERROR";
const NAME: &'static str = "name";
const BODY: &'static str = "body";
const TYPE: &'static str = "type";
const VOID: &'static str = "void";

/// Whether no parameter list of the constructor `c` names a parameter.
pub open spec fn takes_no_arguments(c: SyntaxNode) -> bool {
    forall|j: int|
        0 <= j < c.children@.len() && (#[trigger] c.children@[j]).kind@ == "formal_parameters"@
            ==> c.children@[j].children@.filter(|x: SyntaxNode| x.named).len() == 0
}

/// Whether a type body declares a constructor without parameters.
pub open spec fn declares_zero_arg_constructor(body: SyntaxNode) -> bool {
    exists|i: int|
        0 <= i < body.children@.len() && (#[trigger] body.children@[i]).kind@ == "constructor_declaration"@
            && takes_no_arguments(body.children@[i])
}

/// The name and line of a file's package declaration: its scoped name, or
/// else its plain name; `None` when there is no declaration or no name of
/// readable length.
pub open spec fn java_package_of(root: SyntaxNode) -> Option<(Seq<char>, usize)> {
    match root.child_by_kind_spec("package_declaration"@) {
        Some(d) => match d.child_by_kind_spec("scoped_identifier"@) {
            Some(n) if n.text is Some => Some((n.text->0@, d.line)),
            _ => match d.child_by_kind_spec("identifier"@) {
                Some(n) if n.text is Some => Some((n.text->0@, d.line)),
                _ => None,
            },
        },
        None => None,
    }
}

/// A declaration record as values.
pub open spec fn record(
    package_name: Seq<char>,
    line_code: usize,
    class_name: Seq<char>,
    method_name: Seq<char>,
    modifiers: Seq<Seq<char>>,
    method_type: Seq<char>,
    count_of_parameters: nat,
) -> DeclRecord {
    DeclRecord { package_name, line_code, class_name, method_name, modifiers, method_type, count_of_parameters }
}

/// The texts among `s` that are not absent.
pub open spec fn present_texts(s: Seq<SyntaxNode>) -> Seq<Seq<char>>
    decreases s.len(),
{
    if s.len() == 0 {
        Seq::empty()
    } else {
        match s.last().text {
            Some(t) => present_texts(s.drop_last()).push(t@),
            None => present_texts(s.drop_last()),
        }
    }
}

/// The modifiers written before a declaration.
pub open spec fn modifier_texts(node: SyntaxNode) -> Seq<Seq<char>> {
    match node.child_by_kind_spec("modifiers"@) {
        Some(m) => present_texts(m.children@),
        None => Seq::empty(),
    }
}

/// The parameter names one node of a parameter list gives.
pub open spec fn param_names_of(c: SyntaxNode) -> Seq<Seq<char>> {
    if !c.named {
        Seq::empty()
    } else {
        (match c.child_by_field_name_spec("name"@) {
            Some(n) => match n.text {
                Some(t) => seq![t@],
                None => Seq::empty(),
            },
            None => Seq::empty(),
        }) + match c.child_by_kind_spec("variable_declarator"@) {
            Some(v) => match v.child_by_field_name_spec("name"@) {
                Some(n) => match n.text {
                    Some(t) => seq![t@],
                    None => Seq::empty(),
                },
                None => Seq::empty(),
            },
            None => Seq::empty(),
        }
    }
}

/// The parameter names the nodes of `s` give, in order.
pub open spec fn param_names_among(s: Seq<SyntaxNode>) -> Seq<Seq<char>>
    decreases s.len(),
{
    if s.len() == 0 {
        Seq::empty()
    } else {
        param_names_among(s.drop_last()) + param_names_of(s.last())
    }
}

/// The parameter names of a method or constructor declaration.
pub open spec fn java_params(node: SyntaxNode) -> Seq<Seq<char>> {
    match node.child_by_kind_spec("formal_parameters"@) {
        Some(p) => param_names_among(p.children@),
        None => Seq::empty(),
    }
}

/// The records of the declarations among the children of `node`, within
/// package `pkg` and type `cls`.
pub open spec fn children_records(node: SyntaxNode, pkg: Seq<char>, cls: Seq<char>) -> Seq<DeclRecord>
    decreases node, 2nat,
{
    records_among(node.children@, pkg, cls)
}

/// The records of the declarations that the nodes of `s` make, in order.
pub open spec fn records_among(s: Seq<SyntaxNode>, pkg: Seq<char>, cls: Seq<char>) -> Seq<DeclRecord>
    decreases s, 1nat,
{
    if s.len() == 0 {
        Seq::empty()
    } else {
        records_among(s.subrange(0, s.len() - 1), pkg, cls) + decl_records(s[s.len() - 1], pkg, cls)
    }
}

/// The records of the members of an enum body, declared after its
/// constants.
pub open spec fn enum_body_records(b: SyntaxNode, pkg: Seq<char>, cls: Seq<char>) -> Seq<DeclRecord>
    decreases b, 4nat,
{
    proof {
        lemma_first_of_smaller(b, |x: SyntaxNode| x.kind@ == "enum_body_declarations"@);
    }
    match b.child_by_kind_spec("enum_body_declarations"@) {
        Some(d) => children_records(d, pkg, cls),
        None => Seq::empty(),
    }
}

/// The records of what one syntax node declares, within package `pkg` and
/// type `cls`: a type with its implicit constructor and its members, a
/// method, a constructor, or what an error node holds.
pub open spec fn decl_records(c: SyntaxNode, pkg: Seq<char>, cls: Seq<char>) -> Seq<DeclRecord>
    decreases c, 3nat,
{
    proof {
        lemma_first_of_smaller(c, |x: SyntaxNode| has_field(x, "body"@));
    }
    let body = c.child_by_field_name_spec("body"@);
    match c.child_by_field_name_spec("name"@) {
        None => if c.kind@ == "ERROR"@ {
            children_records(c, pkg, cls)
        } else {
            Seq::empty()
        },
        Some(n) => {
            let name = text_or_empty(n);
            if c.kind@ == "class_declaration"@ {
                let mods = modifier_texts(c);
                let synthesize = match body {
                    Some(b) => !declares_zero_arg_constructor(b),
                    None => true,
                };
                seq![record(pkg, n.line, name, Seq::empty(), mods, CodeType::JAVA_CLASS.spec_code(), 0)]
                    + (if synthesize {
                        seq![record(pkg, n.line, name, name, mods, CodeType::JAVA_CONSTRUCTOR.spec_code(), 0)]
                    } else {
                        Seq::empty()
                    }) + match body {
                        Some(b) => children_records(b, pkg, name),
                        None => Seq::empty(),
                    }
            } else if c.kind@ == "interface_declaration"@ {
                seq![record(pkg, n.line, name, Seq::empty(), Seq::empty(), CodeType::JAVA_INTERFACE.spec_code(), 0)]
                    + match body {
                        Some(b) => children_records(b, pkg, name),
                        None => Seq::empty(),
                    }
            } else if c.kind@ == "enum_declaration"@ {
                seq![record(pkg, n.line, name, Seq::empty(), Seq::empty(), CodeType::JAVA_ENUM.spec_code(), 0)]
                    + match body {
                        Some(b) => enum_body_records(b, pkg, name),
                        None => Seq::empty(),
                    }
            } else if c.kind@ == "method_declaration"@ {
                match n.text {
                    Some(t) => seq![record(pkg, n.line, cls, t@, modifier_texts(c), CodeType::JAVA_METHOD.spec_code(),
                        java_params(c).len())],
                    None => Seq::empty(),
                }
            } else if c.kind@ == "constructor_declaration"@ {
                seq![record(pkg, n.line, cls, name, modifier_texts(c), CodeType::JAVA_CONSTRUCTOR.spec_code(),
                    java_params(c).len())]
            } else if c.kind@ == "ERROR"@ {
                children_records(c, pkg, cls)
            } else {
                Seq::empty()
            }
        },
    }
}

/// The lengths of the grammar's kind names and of the kind codes used here,
/// which tell them apart.
proof fn lemma_literals()
    ensures
        "class_declaration"@.len() == 17,
        "interface_declaration"@.len() == 21,
        "enum_declaration"@.len() == 16,
        "method_declaration"@.len() == 18,
        "constructor_declaration"@.len() == 23,
        "ERROR"@.len() == 5,
        CodeType::JAVA_CLASS.spec_code().len() > 0,
        CodeType::JAVA_INTERFACE.spec_code().len() > 0,
        CodeType::JAVA_ENUM.spec_code().len() > 0,
        CodeType::JAVA_METHOD.spec_code().len() > 0,
        CodeType::JAVA_CONSTRUCTOR.spec_code().len() > 0,
{
    reveal_strlit("class_declaration");
    reveal_strlit("interface_declaration");
    reveal_strlit("enum_declaration");
    reveal_strlit("method_declaration");
    reveal_strlit("constructor_declaration");
    reveal_strlit("ERROR");
    reveal_strlit("JAVA_CLASS");
    reveal_strlit("JAVA_INTERFACE");
    reveal_strlit("JAVA_ENUM");
    reveal_strlit("JAVA_METHOD");
    reveal_strlit("JAVA_CONSTRUCTOR");
}

proof fn lemma_flatten_push(s: Seq<DeclarationNode>, x: DeclarationNode, pkg: Seq<char>, cls: Seq<char>)
    ensures
        flatten_all(s.push(x), pkg, cls) == flatten_all(s, pkg, cls) + flatten(x, pkg, cls),
{
    let t = s.push(x);
    assert(t.subrange(0, t.len() - 1) =~= s);
    assert(t[t.len() - 1] == x);
}

/// The record of a method node without children.
proof fn lemma_flatten_method(
    m: DeclarationNode,
    name: Seq<char>,
    code: Seq<char>,
    line: usize,
    params: Seq<Seq<char>>,
    mods: Seq<Seq<char>>,
    pkg: Seq<char>,
    cls: Seq<char>,
)
    requires
        is_method_node(m, name, code, line, params, mods),
        code.len() > 0,
    ensures
        flatten(m, pkg, cls) == seq![record(pkg, line, cls, name, mods, code, params.len())],
{
    let o = m->Method_0;
    assert(o.object_data.children@ =~= Seq::<DeclarationNode>::empty());
    assert(flatten_all(o.object_data.children@, pkg, cls) =~= Seq::<DeclRecord>::empty());
    if cls.len() == 0 {
        assert(o.namespace@ =~= cls);
    }
    assert(o.parameters@.len() == texts(o.parameters@).len());
    assert(flatten(m, pkg, cls) =~= seq![record(pkg, line, cls, name, mods, code, params.len())]);
}

/// The records of a type node: its own, then its children's within it.
proof fn lemma_flatten_type(t: DeclarationNode, pkg: Seq<char>, cls: Seq<char>)
    requires
        t is Type,
        t.data().type_code@.len() > 0,
    ensures
        flatten(t, pkg, cls) == seq![record(pkg, t.data().line_code, t.data().name@, Seq::empty(),
            texts(t.data().modifiers@), t.data().type_code@, 0)]
            + flatten_all(t.data().children@, pkg, t.data().name@),
{
}

/// Whether a declaration node is a Java constructor.
pub open spec fn is_constructor_node(n: DeclarationNode) -> bool {
    n is Method && n.data().type_code@ == CodeType::JAVA_CONSTRUCTOR.spec_code()
}

/// How many of `s` are Java constructors.
pub open spec fn constructor_count(s: Seq<DeclarationNode>) -> nat
    decreases s.len(),
{
    if s.len() == 0 {
        0
    } else {
        constructor_count(s.drop_last()) + if is_constructor_node(s.last()) { 1nat } else { 0nat }
    }
}

/// How many named constructor declarations stand among the children of
/// `node`, looking through error nodes.
pub open spec fn declared_constructors(node: SyntaxNode) -> nat
    decreases node, 2nat,
{
    constructors_among(node.children@)
}

/// How many named constructor declarations stand in `s`, looking through
/// error nodes.
pub open spec fn constructors_among(s: Seq<SyntaxNode>) -> nat
    decreases s, 1nat,
{
    if s.len() == 0 {
        0
    } else {
        constructors_among(s.subrange(0, s.len() - 1)) + constructor_contribution(s[s.len() - 1])
    }
}

/// How many named constructor declarations one child contributes.
pub open spec fn constructor_contribution(c: SyntaxNode) -> nat
    decreases c, 3nat,
{
    if c.kind@ == "constructor_declaration"@ {
        if c.child_by_field_name_spec("name"@) is Some { 1nat } else { 0nat }
    } else if c.kind@ == "ERROR"@ {
        declared_constructors(c)
    } else {
        0nat
    }
}

proof fn lemma_count_push(s: Seq<DeclarationNode>, x: DeclarationNode)
    ensures
        constructor_count(s.push(x)) == constructor_count(s) + if is_constructor_node(x) { 1nat } else { 0nat },
{
    assert(s.push(x).drop_last() =~= s);
}

/// A child of any kind but a constructor declaration or an error node
/// contributes no constructor.
proof fn lemma_other_kind(c: SyntaxNode)
    requires
        c.kind@.len() != 23,
        c.kind@.len() != 5,
    ensures
        constructor_contribution(c) == 0,
{
    reveal_strlit("constructor_declaration");
    reveal_strlit("ERROR");
    assert(c.kind@ != "constructor_declaration"@);
    assert(c.kind@ != "ERROR"@);
}

/// A type node appended, or nothing, leaves the constructor count.
proof fn lemma_type_added(a: DeclarationNode, b: DeclarationNode)
    requires
        grows(a, b),
        b == a || (b.data().children@.len() == a.data().children@.len() + 1 && b.data().children@.last() is Type),
    ensures
        constructor_count(b.data().children@) == constructor_count(a.data().children@),
{
    if b != a {
        lemma_one_more(a, b);
    }
}

/// One node appended to what `parent` held.
proof fn lemma_one_more(a: DeclarationNode, b: DeclarationNode)
    requires
        grows(a, b),
        b.data().children@.len() == a.data().children@.len() + 1,
    ensures
        b.data().children@ == a.data().children@.push(b.data().children@.last()),
        constructor_count(b.data().children@) == constructor_count(a.data().children@)
            + if is_constructor_node(b.data().children@.last()) { 1nat } else { 0nat },
{
    assert(b.data().children@ =~= a.data().children@.push(b.data().children@.last()));
    lemma_count_push(a.data().children@, b.data().children@.last());
}

/// The name and line of the file's package record.
pub open spec fn package_record_of(root: SyntaxNode) -> (Seq<char>, usize) {
    match java_package_of(root) {
        Some((name, line)) => (name, line),
        None => (Seq::empty(), 0),
    }
}

/// The declaration records of a Java file: its package's, then those of
/// every declaration in source order, each within its package and type.
pub open spec fn java_records(root: SyntaxNode) -> Seq<DeclRecord> {
    let (name, line) = package_record_of(root);
    seq![record(name, line, Seq::empty(), Seq::empty(), Seq::empty(), CodeType::JAVA_PACKAGE.spec_code(), 0)]
        + children_records(root, name, Seq::empty())
}

/// Constructor synthesis, for the Java declaration pass: a class whose body
/// declares no constructor without parameters yields its own record, then
/// one constructor record named after it, on the class's line, with no
/// parameters.
pub proof fn lemma_java_constructor_synthesis(c: SyntaxNode, pkg: Seq<char>, cls: Seq<char>)
    requires
        c.kind@ == "class_declaration"@,
        c.child_by_field_name_spec("name"@) is Some,
        match c.child_by_field_name_spec("body"@) {
            Some(b) => !declares_zero_arg_constructor(b),
            None => true,
        },
    ensures
        ({
            let n = c.child_by_field_name_spec("name"@)->0;
            let recs = decl_records(c, pkg, cls);
            &&& recs.len() >= 2
            &&& recs[0].method_type == CodeType::JAVA_CLASS.spec_code()
            &&& recs[0].class_name == text_or_empty(n)
            &&& recs[0].line_code == n.line
            &&& recs[1].method_type == CodeType::JAVA_CONSTRUCTOR.spec_code()
            &&& recs[1].class_name == text_or_empty(n)
            &&& recs[1].method_name == text_or_empty(n)
            &&& recs[1].line_code == n.line
            &&& recs[1].count_of_parameters == 0
        }),
{
    lemma_literals();
}

/// The declaration records of a parsed Java file: its package, then every
/// type, constructor and method in source order.
pub fn get_repository_method_dto(root: &SyntaxNode, path: &String, rep_id: i32) -> (r: Vec<RepositoryMethodDto>)
    ensures
        extends_with(r@, Seq::empty(), rep_id, path@, java_records(*root)),
        match java_package_of(*root) {
            Some((name, line)) => starts_with_package(r@, rep_id, path@, name, line, CodeType::JAVA_PACKAGE.spec_code()),
            None => starts_with_package(r@, rep_id, path@, Seq::empty(), 0, CodeType::JAVA_PACKAGE.spec_code()),
        },
{
    let mut data = find_package_declaration(root);
    let ghost d0 = data;
    parse_node(&mut data, root);
    let mut method_dto_vec: Vec<RepositoryMethodDto> = Vec::new();
    let empty = String::new();
    prepare_output_data(&mut method_dto_vec, &data, rep_id, path, &empty, &empty);
    assert(method_dto_vec@.subrange(0, 0) =~= Seq::<RepositoryMethodDto>::empty());
    proof {
        reveal_strlit("JAVA_PACKAGE");
        lemma_first_record(data, method_dto_vec@, rep_id, path@);
        assert(data.data().name == d0.data().name && data.data().line_code == d0.data().line_code);
        if java_package_of(*root) is None {
            assert(data.data().name@ =~= Seq::<char>::empty());
        }
        let (name, line) = package_record_of(*root);
        assert(d0.data().children@ =~= Seq::<DeclarationNode>::empty());
        assert(data.data().modifiers == d0.data().modifiers);
        assert(texts(data.data().modifiers@) =~= Seq::<Seq<char>>::empty());
        assert(flatten_all(d0.data().children@, name, Seq::empty()) =~= Seq::<DeclRecord>::empty());
        assert(flatten_all(data.data().children@, name, Seq::empty())
            == flatten_all(d0.data().children@, name, Seq::empty()) + children_records(*root, name, Seq::empty()));
        assert(flatten(data, Seq::empty(), Seq::empty()) =~= java_records(*root));
    }
    method_dto_vec
}

/// Adds the declarations found among the children of `node` to `parent`.
/// Error nodes are searched as if they were not there.
#[verifier::rlimit(100)]
fn parse_node(parent: &mut DeclarationNode, node: &SyntaxNode)
    ensures
        grows(*old(parent), *final(parent)),
        forall|pkg: Seq<char>, cls: Seq<char>| #[trigger] flatten_all(final(parent).data().children@, pkg, cls)
            == flatten_all(old(parent).data().children@, pkg, cls) + children_records(*node, pkg, cls),
        constructor_count(final(parent).data().children@)
            == constructor_count(old(parent).data().children@) + declared_constructors(*node),
    decreases node, 1nat,
{
    proof { lemma_grows_refl(*parent); lemma_literals(); }
    let mut i: usize = 0;
    assert(node.children@.subrange(0, 0) =~= Seq::<SyntaxNode>::empty());
    assert forall|pkg: Seq<char>, cls: Seq<char>| #[trigger] flatten_all(parent.data().children@, pkg, cls)
        == flatten_all(old(parent).data().children@, pkg, cls)
            + records_among(node.children@.subrange(0, 0), pkg, cls) by {
        assert(flatten_all(parent.data().children@, pkg, cls) + Seq::<DeclRecord>::empty()
            =~= flatten_all(parent.data().children@, pkg, cls));
    }
    while i < node.children.len()
        invariant
            i <= node.children@.len(),
            grows(*old(parent), *parent),
            constructor_count(parent.data().children@)
                == constructor_count(old(parent).data().children@) + constructors_among(node.children@.subrange(0, i as int)),
            forall|pkg: Seq<char>, cls: Seq<char>| #[trigger] flatten_all(parent.data().children@, pkg, cls)
                == flatten_all(old(parent).data().children@, pkg, cls)
                    + records_among(node.children@.subrange(0, i as int), pkg, cls),
        decreases node.children@.len() - i,
    {
        let ghost before = *parent;
        let child = &node.children[i];
        proof {
            assert(decreases_to!(node => node.children));
            assert(decreases_to!(node.children => node.children@));
            assert(decreases_to!(node.children@ => node.children@[i as int]));
            let seen = node.children@.subrange(0, i + 1);
            assert(seen.subrange(0, seen.len() - 1) =~= node.children@.subrange(0, i as int));
            assert(seen[seen.len() - 1] == *child);
            assert(constructors_among(seen) == constructors_among(node.children@.subrange(0, i as int))
                + constructor_contribution(*child));
        }
        if child.is_kind(CLASS_DECLARATION) {
            add_class_declaration(child, parent);
            proof {
                lemma_type_added(before, *parent);
                reveal_strlit("class_declaration");
                lemma_other_kind(*child);
            }
        } else if child.is_kind(INTERFACE_DECLARATION) {
            add_interface_declaration(child, parent);
            proof {
                lemma_type_added(before, *parent);
                reveal_strlit("interface_declaration");
                lemma_other_kind(*child);
            }
        } else if child.is_kind(ENUM_DECLARATION) {
            add_enum_declaration(child, parent);
            proof {
                lemma_type_added(before, *parent);
                reveal_strlit("enum_declaration");
                lemma_other_kind(*child);
            }
        } else if child.is_kind(METHOD_DECLARATION) {
            add_method_declaration(child, parent);
            proof {
                if parent.data().children@.len() == before.data().children@.len() + 1 {
                    lemma_one_more(before, *parent);
                    reveal_strlit("JAVA_METHOD");
                    reveal_strlit("JAVA_CONSTRUCTOR");
                    assert(CodeType::JAVA_METHOD.spec_code().len() != CodeType::JAVA_CONSTRUCTOR.spec_code().len());
                    assert(!is_constructor_node(parent.data().children@.last()));
                }
                reveal_strlit("method_declaration");
                lemma_other_kind(*child);
            }
        } else if child.is_kind(CONSTRUCTOR_DECLARATION) {
            add_constructor_declaration(child, parent);
            proof {
                if parent.data().children@.len() == before.data().children@.len() + 1 {
                    lemma_one_more(before, *parent);
                }
                reveal_strlit("constructor_declaration");
                assert(child.kind@ == "constructor_declaration"@);
            }
        } else if child.is_kind(ERROR) {
            parse_node(parent, child);
            proof {
                reveal_strlit("constructor_declaration");
                reveal_strlit("ERROR");
                assert(child.kind@ != "constructor_declaration"@);
            }
        } else {
            proof {
                reveal_strlit("constructor_declaration");
                reveal_strlit("ERROR");
                assert(child.kind@ != "constructor_declaration"@);
                assert(child.kind@ != "ERROR"@);
            }
        }
        proof {
            lemma_grows_refl(*parent);
            lemma_grows_trans(*old(parent), before, *parent);
            assert(constructor_count(parent.data().children@)
                == constructor_count(before.data().children@) + constructor_contribution(*child));
            lemma_literals();
            assert forall|pkg: Seq<char>, cls: Seq<char>| #[trigger] flatten_all(parent.data().children@, pkg, cls)
                == flatten_all(old(parent).data().children@, pkg, cls)
                    + records_among(node.children@.subrange(0, i + 1), pkg, cls) by {
                let seen = node.children@.subrange(0, i + 1);
                assert(seen.subrange(0, seen.len() - 1) =~= node.children@.subrange(0, i as int));
                assert(records_among(seen, pkg, cls)
                    == records_among(node.children@.subrange(0, i as int), pkg, cls) + decl_records(*child, pkg, cls));
                if !(child.kind@ == "class_declaration"@ || child.kind@ == "interface_declaration"@
                    || child.kind@ == "enum_declaration"@ || child.kind@ == "method_declaration"@
                    || child.kind@ == "constructor_declaration"@) {
                    if child.kind@ == "ERROR"@ {
                        assert(decl_records(*child, pkg, cls) == children_records(*child, pkg, cls));
                    } else {
                        assert(decl_records(*child, pkg, cls) =~= Seq::<DeclRecord>::empty());
                    }
                }
                assert(flatten_all(parent.data().children@, pkg, cls)
                    =~= flatten_all(old(parent).data().children@, pkg, cls) + records_among(seen, pkg, cls));
            }
        }
        i = i + 1;
    }
    assert(node.children@.subrange(0, i as int) =~= node.children@);
}

/// Adds the node of a constructor declared in `node`; nothing when it has
/// no name.
fn add_constructor_declaration(node: &SyntaxNode, parent: &mut DeclarationNode)
    requires
        node.kind@ == "constructor_declaration"@,
    ensures
        grows(*old(parent), *final(parent)),
        forall|pkg: Seq<char>, cls: Seq<char>| #[trigger] flatten_all(final(parent).data().children@, pkg, cls)
            == flatten_all(old(parent).data().children@, pkg, cls) + decl_records(*node, pkg, cls),
        match node.child_by_field_name_spec(NAME@) {
            Some(name_node) => final(parent).data().children@.len() == old(parent).data().children@.len() + 1
                && final(parent).data().children@.last() is Method
                && final(parent).data().children@.last()->Method_0.object_data.line_code == name_node.line
                && final(parent).data().children@.last()->Method_0.object_data.type_code@
                    == CodeType::JAVA_CONSTRUCTOR.spec_code(),
            None => *final(parent) == *old(parent),
        },
{
    proof { lemma_literals(); }
    let name_node = match node.child_by_field_name(NAME) {
        Some(n) => n,
        None => {
            proof {
                lemma_grows_refl(*parent);
                assert forall|pkg: Seq<char>, cls: Seq<char>| #[trigger] flatten_all(parent.data().children@, pkg, cls)
                    == flatten_all(old(parent).data().children@, pkg, cls) + decl_records(*node, pkg, cls) by {
                    assert(decl_records(*node, pkg, cls) =~= Seq::<DeclRecord>::empty());
                }
            }
            return;
        },
    };
    let name = name_node.value_or_empty();
    let params = get_parameters_from_node(node);
    let mods = get_modifiers_from_node(node);
    let ghost pv = texts(params@);
    let ghost mv = texts(mods@);
    let ghost nv = name@;
    let constructor = method_node(
        name,
        CodeType::JAVA_CONSTRUCTOR.code(),
        name_node.line,
        params,
        mods,
        String::new(),
    );
    let ghost c = constructor;
    attach(parent, constructor);
    proof {
        assert forall|pkg: Seq<char>, cls: Seq<char>| #[trigger] flatten_all(parent.data().children@, pkg, cls)
            == flatten_all(old(parent).data().children@, pkg, cls) + decl_records(*node, pkg, cls) by {
            lemma_flatten_push(old(parent).data().children@, c, pkg, cls);
            lemma_flatten_method(c, nv, CodeType::JAVA_CONSTRUCTOR.spec_code(), name_node.line, pv, mv, pkg, cls);
        }
    }
}

/// Adds the node of a method declared in `node`; nothing when its name is
/// missing or too long.
fn add_method_declaration(node: &SyntaxNode, parent: &mut DeclarationNode)
    requires
        node.kind@ == "method_declaration"@,
    ensures
        grows(*old(parent), *final(parent)),
        forall|pkg: Seq<char>, cls: Seq<char>| #[trigger] flatten_all(final(parent).data().children@, pkg, cls)
            == flatten_all(old(parent).data().children@, pkg, cls) + decl_records(*node, pkg, cls),
        match node.child_by_field_name_spec(NAME@) {
            Some(name_node) => match name_node.text {
                Some(t) => final(parent).data().children@.len() == old(parent).data().children@.len() + 1
                    && final(parent).data().children@.last() is Method
                    && final(parent).data().children@.last()->Method_0.object_data.name@ == t@
                    && final(parent).data().children@.last()->Method_0.object_data.line_code == name_node.line
                    && final(parent).data().children@.last()->Method_0.object_data.type_code@
                        == CodeType::JAVA_METHOD.spec_code(),
                None => *final(parent) == *old(parent),
            },
            None => *final(parent) == *old(parent),
        },
{
    proof { lemma_literals(); }
    let name_node = match node.child_by_field_name(NAME) {
        Some(n) => n,
        None => {
            proof {
                lemma_grows_refl(*parent);
                assert forall|pkg: Seq<char>, cls: Seq<char>| #[trigger] flatten_all(parent.data().children@, pkg, cls)
                    == flatten_all(old(parent).data().children@, pkg, cls) + decl_records(*node, pkg, cls) by {
                    assert(decl_records(*node, pkg, cls) =~= Seq::<DeclRecord>::empty());
                }
            }
            return;
        },
    };
    let method_name = match name_node.value() {
        Some(v) => v,
        None => {
            proof {
                lemma_grows_refl(*parent);
                assert forall|pkg: Seq<char>, cls: Seq<char>| #[trigger] flatten_all(parent.data().children@, pkg, cls)
                    == flatten_all(old(parent).data().children@, pkg, cls) + decl_records(*node, pkg, cls) by {
                    assert(decl_records(*node, pkg, cls) =~= Seq::<DeclRecord>::empty());
                }
            }
            return;
        },
    };
    let output = match get_output_param_from_node(node) {
        Some(o) => o,
        None => String::new(),
    };
    let params = get_parameters_from_node(node);
    let mods = get_modifiers_from_node(node);
    let ghost pv = texts(params@);
    let ghost mv = texts(mods@);
    let ghost nv = method_name@;
    let method = method_node(
        method_name,
        CodeType::JAVA_METHOD.code(),
        name_node.line,
        params,
        mods,
        output,
    );
    let ghost m = method;
    attach(parent, method);
    proof {
        assert forall|pkg: Seq<char>, cls: Seq<char>| #[trigger] flatten_all(parent.data().children@, pkg, cls)
            == flatten_all(old(parent).data().children@, pkg, cls) + decl_records(*node, pkg, cls) by {
            lemma_flatten_push(old(parent).data().children@, m, pkg, cls);
            lemma_flatten_method(m, nv, CodeType::JAVA_METHOD.spec_code(), name_node.line, pv, mv, pkg, cls);
        }
    }
}

/// Adds the node of a class declared in `node`, with the class's members
/// as its children. Unless the body declares a constructor without
/// parameters, the class's first child is the implicit one.
fn add_class_declaration(node: &SyntaxNode, parent: &mut DeclarationNode)
    requires
        node.kind@ == "class_declaration"@,
    ensures
        grows(*old(parent), *final(parent)),
        forall|pkg: Seq<char>, cls: Seq<char>| #[trigger] flatten_all(final(parent).data().children@, pkg, cls)
            == flatten_all(old(parent).data().children@, pkg, cls) + decl_records(*node, pkg, cls),
        match node.child_by_field_name_spec(NAME@) {
            Some(name_node) => {
                let class = final(parent).data().children@.last();
                &&& final(parent).data().children@.len() == old(parent).data().children@.len() + 1
                &&& class is Type
                &&& class.data().name@ == text_or_empty(name_node)
                &&& class.data().line_code == name_node.line
                &&& class.data().type_code@ == CodeType::JAVA_CLASS.spec_code()
                &&& (match node.child_by_field_name_spec(BODY@) {
                    Some(b) => !declares_zero_arg_constructor(b),
                    None => true,
                }) ==> class.data().children@.len() >= 1 && is_method_node(class.data().children@[0],
                    class.data().name@, CodeType::JAVA_CONSTRUCTOR.spec_code(), name_node.line, Seq::empty(),
                    texts(class.data().modifiers@))
                &&& constructor_count(class.data().children@) == (match node.child_by_field_name_spec(BODY@) {
                    Some(b) => declared_constructors(b) + if declares_zero_arg_constructor(b) { 0nat } else { 1nat },
                    None => 1nat,
                })
            },
            None => *final(parent) == *old(parent),
        },
    decreases node, 0nat,
{
    proof { lemma_literals(); }
    let name_node = match node.child_by_field_name(NAME) {
        Some(n) => n,
        None => {
            proof {
                lemma_grows_refl(*parent);
                assert forall|pkg: Seq<char>, cls: Seq<char>| #[trigger] flatten_all(parent.data().children@, pkg, cls)
                    == flatten_all(old(parent).data().children@, pkg, cls) + decl_records(*node, pkg, cls) by {
                    assert(decl_records(*node, pkg, cls) =~= Seq::<DeclRecord>::empty());
                }
            }
            return;
        },
    };
    let class_name = name_node.value_or_empty();
    let line = name_node.line;
    let modifiers = get_modifiers_from_node(node);
    let ghost mv = texts(modifiers@);
    let ghost nv = class_name@;
    let body = node.child_by_field_name(BODY);
    let synthesize = match body {
        Some(b) => !has_zero_arg_constructor(b),
        None => true,
    };
    let mut class_node = if synthesize {
        type_with_constructor(class_name, CodeType::JAVA_CLASS.code(), CodeType::JAVA_CONSTRUCTOR.code(), line, modifiers)
    } else {
        type_node(class_name, CodeType::JAVA_CLASS.code(), line, modifiers)
    };
    let ghost built = class_node;
    proof {
        let kids = built.data().children@;
        if synthesize {
            assert(kids.drop_last() =~= Seq::<DeclarationNode>::empty());
            assert(kids.last() == kids[0]);
            assert(constructor_count(Seq::<DeclarationNode>::empty()) == 0);
            assert(is_constructor_node(kids[0]));
            assert(constructor_count(kids) == 1);
        } else {
            assert(constructor_count(kids) == 0);
        }
    }
    match body {
        Some(b) => {
            proof { lemma_child_smaller(node, |c: SyntaxNode| has_field(c, BODY@), b); }
            parse_node(&mut class_node, b);
        },
        None => {
            proof { lemma_grows_refl(class_node); }
        },
    }
    assert(synthesize ==> class_node.data().children@[0] == built.data().children@[0]);
    let ghost fin = class_node;
    attach(parent, class_node);
    proof {
        assert forall|pkg: Seq<char>, cls: Seq<char>| #[trigger] flatten_all(parent.data().children@, pkg, cls)
            == flatten_all(old(parent).data().children@, pkg, cls) + decl_records(*node, pkg, cls) by {
            lemma_flatten_push(old(parent).data().children@, fin, pkg, cls);
            lemma_flatten_type(fin, pkg, cls);
            let kids = built.data().children@;
            let own = if synthesize {
                seq![record(pkg, line, nv, nv, mv, CodeType::JAVA_CONSTRUCTOR.spec_code(), 0)]
            } else {
                Seq::<DeclRecord>::empty()
            };
            if synthesize {
                assert(kids =~= Seq::<DeclarationNode>::empty().push(kids[0]));
                lemma_flatten_push(Seq::<DeclarationNode>::empty(), kids[0], pkg, nv);
                lemma_flatten_method(kids[0], nv, CodeType::JAVA_CONSTRUCTOR.spec_code(), line, Seq::empty(), mv, pkg, nv);
            } else {
                assert(kids =~= Seq::<DeclarationNode>::empty());
            }
            assert(flatten_all(kids, pkg, nv) =~= own);
            match body {
                Some(b) => {
                    assert(flatten_all(fin.data().children@, pkg, nv) == flatten_all(kids, pkg, nv) + children_records(*b, pkg, nv));
                },
                None => {
                    assert(fin == built);
                },
            }
            assert(flatten(fin, pkg, cls) =~= seq![record(pkg, line, nv, Seq::empty(), mv, CodeType::JAVA_CLASS.spec_code(), 0)]
                + own + match body {
                    Some(b) => children_records(*b, pkg, nv),
                    None => Seq::<DeclRecord>::empty(),
                });
        }
    }
}

/// Adds the node of an interface declared in `node`, with its members.
fn add_interface_declaration(node: &SyntaxNode, parent: &mut DeclarationNode)
    requires
        node.kind@ == "interface_declaration"@,
    ensures
        grows(*old(parent), *final(parent)),
        forall|pkg: Seq<char>, cls: Seq<char>| #[trigger] flatten_all(final(parent).data().children@, pkg, cls)
            == flatten_all(old(parent).data().children@, pkg, cls) + decl_records(*node, pkg, cls),
        match node.child_by_field_name_spec(NAME@) {
            Some(name_node) => final(parent).data().children@.len() == old(parent).data().children@.len() + 1
                && final(parent).data().children@.last() is Type
                && final(parent).data().children@.last()->Type_0.object_data.type_code@
                    == CodeType::JAVA_INTERFACE.spec_code(),
            None => *final(parent) == *old(parent),
        },
    decreases node, 0nat,
{
    proof { lemma_literals(); }
    let name_node = match node.child_by_field_name(NAME) {
        Some(n) => n,
        None => {
            proof {
                lemma_grows_refl(*parent);
                assert forall|pkg: Seq<char>, cls: Seq<char>| #[trigger] flatten_all(parent.data().children@, pkg, cls)
                    == flatten_all(old(parent).data().children@, pkg, cls) + decl_records(*node, pkg, cls) by {
                    assert(decl_records(*node, pkg, cls) =~= Seq::<DeclRecord>::empty());
                }
            }
            return;
        },
    };
    let name = name_node.value_or_empty();
    let ghost nv = name@;
    let mut interface_node = type_node(name, CodeType::JAVA_INTERFACE.code(), name_node.line, Vec::new());
    let ghost built = interface_node;
    let body = node.child_by_field_name(BODY);
    match body {
        Some(b) => {
            proof { lemma_child_smaller(node, |c: SyntaxNode| has_field(c, BODY@), b); }
            parse_node(&mut interface_node, b);
        },
        None => {},
    }
    let ghost fin = interface_node;
    attach(parent, interface_node);
    proof {
        assert(texts(built.data().modifiers@) =~= Seq::<Seq<char>>::empty());
        assert(built.data().children@ =~= Seq::<DeclarationNode>::empty());
        assert forall|pkg: Seq<char>, cls: Seq<char>| #[trigger] flatten_all(parent.data().children@, pkg, cls)
            == flatten_all(old(parent).data().children@, pkg, cls) + decl_records(*node, pkg, cls) by {
            lemma_flatten_push(old(parent).data().children@, fin, pkg, cls);
            lemma_flatten_type(fin, pkg, cls);
            assert(flatten_all(built.data().children@, pkg, nv) =~= Seq::<DeclRecord>::empty());
            match body {
                Some(b) => {
                    assert(flatten_all(fin.data().children@, pkg, nv)
                        == flatten_all(built.data().children@, pkg, nv) + children_records(*b, pkg, nv));
                },
                None => {},
            }
            assert(flatten(fin, pkg, cls) =~= seq![record(pkg, name_node.line, nv, Seq::empty(), Seq::empty(),
                CodeType::JAVA_INTERFACE.spec_code(), 0)] + match body {
                    Some(b) => children_records(*b, pkg, nv),
                    None => Seq::<DeclRecord>::empty(),
                });
        }
    }
}

/// Adds the node of an enum declared in `node`, with the members declared
/// after its constants.
fn add_enum_declaration(node: &SyntaxNode, parent: &mut DeclarationNode)
    requires
        node.kind@ == "enum_declaration"@,
    ensures
        grows(*old(parent), *final(parent)),
        forall|pkg: Seq<char>, cls: Seq<char>| #[trigger] flatten_all(final(parent).data().children@, pkg, cls)
            == flatten_all(old(parent).data().children@, pkg, cls) + decl_records(*node, pkg, cls),
        match node.child_by_field_name_spec(NAME@) {
            Some(name_node) => final(parent).data().children@.len() == old(parent).data().children@.len() + 1
                && final(parent).data().children@.last() is Type
                && final(parent).data().children@.last()->Type_0.object_data.type_code@
                    == CodeType::JAVA_ENUM.spec_code(),
            None => *final(parent) == *old(parent),
        },
    decreases node, 0nat,
{
    proof { lemma_literals(); }
    let name_node = match node.child_by_field_name(NAME) {
        Some(n) => n,
        None => {
            proof {
                lemma_grows_refl(*parent);
                assert forall|pkg: Seq<char>, cls: Seq<char>| #[trigger] flatten_all(parent.data().children@, pkg, cls)
                    == flatten_all(old(parent).data().children@, pkg, cls) + decl_records(*node, pkg, cls) by {
                    assert(decl_records(*node, pkg, cls) =~= Seq::<DeclRecord>::empty());
                }
            }
            return;
        },
    };
    let name = name_node.value_or_empty();
    let ghost nv = name@;
    let mut enum_node = type_node(name, CodeType::JAVA_ENUM.code(), name_node.line, Vec::new());
    let ghost built = enum_node;
    let body = node.child_by_field_name(BODY);
    match body {
        Some(b) => {
            proof { lemma_child_smaller(node, |c: SyntaxNode| has_field(c, BODY@), b); }
            match b.child_by_kind(ENUM_BODY_DECLARATIONS) {
                Some(declarations) => {
                    proof {
                        lemma_child_smaller(b, |c: SyntaxNode| c.kind@ == ENUM_BODY_DECLARATIONS@, declarations);
                    }
                    parse_node(&mut enum_node, declarations);
                },
                None => {},
            }
        },
        None => {},
    }
    let ghost fin = enum_node;
    attach(parent, enum_node);
    proof {
        assert(texts(built.data().modifiers@) =~= Seq::<Seq<char>>::empty());
        assert(built.data().children@ =~= Seq::<DeclarationNode>::empty());
        assert forall|pkg: Seq<char>, cls: Seq<char>| #[trigger] flatten_all(parent.data().children@, pkg, cls)
            == flatten_all(old(parent).data().children@, pkg, cls) + decl_records(*node, pkg, cls) by {
            lemma_flatten_push(old(parent).data().children@, fin, pkg, cls);
            lemma_flatten_type(fin, pkg, cls);
            assert(flatten_all(built.data().children@, pkg, nv) =~= Seq::<DeclRecord>::empty());
            let members = match body {
                Some(b) => enum_body_records(*b, pkg, nv),
                None => Seq::<DeclRecord>::empty(),
            };
            match body {
                Some(b) => {
                    match b.child_by_kind_spec(ENUM_BODY_DECLARATIONS@) {
                        Some(d) => {
                            assert(flatten_all(fin.data().children@, pkg, nv)
                                == flatten_all(built.data().children@, pkg, nv) + children_records(d, pkg, nv));
                        },
                        None => {},
                    }
                },
                None => {},
            }
            assert(flatten_all(fin.data().children@, pkg, nv) =~= members);
            assert(flatten(fin, pkg, cls) =~= seq![record(pkg, name_node.line, nv, Seq::empty(), Seq::empty(),
                CodeType::JAVA_ENUM.spec_code(), 0)] + members);
        }
    }
}

/// The package node of the file: named after its package declaration, or
/// unnamed at line 0 when there is none.
fn find_package_declaration(root: &SyntaxNode) -> (r: DeclarationNode)
    ensures
        r is Package,
        r.data().type_code@ == CodeType::JAVA_PACKAGE.spec_code(),
        r.data().children@.len() == 0,
        r.data().modifiers@.len() == 0,
        match java_package_of(*root) {
            Some((name, line)) => r.data().name@ == name && r.data().line_code == line,
            None => r.data().name@.len() == 0 && r.data().line_code == 0,
        },
{
    match root.child_by_kind(PACKAGE_DECLARATION) {
        Some(declaration) => {
            match declaration.child_by_kind(SCOPED_IDENTIFIER) {
                Some(name_node) => match name_node.value() {
                    Some(name) => return package_node(name, CodeType::JAVA_PACKAGE.code(), declaration.line),
                    None => {},
                },
                None => {},
            }
            match declaration.child_by_kind(IDENTIFIER) {
                Some(name_node) => match name_node.value() {
                    Some(name) => return package_node(name, CodeType::JAVA_PACKAGE.code(), declaration.line),
                    None => {},
                },
                None => {},
            }
        },
        None => {},
    }
    package_node(String::new(), CodeType::JAVA_PACKAGE.code(), 0)
}

/// Whether a type body declares a constructor without parameters.
fn has_zero_arg_constructor(body: &SyntaxNode) -> (r: bool)
    ensures
        r == declares_zero_arg_constructor(*body),
{
    let mut i: usize = 0;
    while i < body.children.len()
        invariant
            i <= body.children@.len(),
            forall|k: int| 0 <= k < i ==> !(
                (#[trigger] body.children@[k]).kind@ == "constructor_declaration"@
                && takes_no_arguments(body.children@[k])),
        decreases body.children@.len() - i,
    {
        let c = &body.children[i];
        if c.is_kind(CONSTRUCTOR_DECLARATION) && no_named_parameters(c) {
            return true;
        }
        i = i + 1;
    }
    false
}

/// Whether no parameter list of `c` names a parameter.
fn no_named_parameters(c: &SyntaxNode) -> (r: bool)
    ensures
        r == takes_no_arguments(*c),
{
    let mut j: usize = 0;
    while j < c.children.len()
        invariant
            j <= c.children@.len(),
            forall|k: int| 0 <= k < j && (#[trigger] c.children@[k]).kind@ == "formal_parameters"@
                ==> c.children@[k].children@.filter(|x: SyntaxNode| x.named).len() == 0,
        decreases c.children@.len() - j,
    {
        if c.children[j].is_kind(FORMAL_PARAMETERS) && c.children[j].named_child_count() != 0 {
            return false;
        }
        j = j + 1;
    }
    true
}

/// The names of the parameters of a method or constructor `node`.
fn get_parameters_from_node(node: &SyntaxNode) -> (r: Vec<String>)
    ensures
        texts(r@) == java_params(*node),
{
    let mut parameters: Vec<String> = Vec::new();
    let params_node = match node.child_by_kind(FORMAL_PARAMETERS) {
        Some(p) => p,
        None => {
            assert(texts(parameters@) =~= Seq::<Seq<char>>::empty());
            return parameters;
        },
    };
    let mut i: usize = 0;
    assert(texts(parameters@) =~= Seq::<Seq<char>>::empty());
    while i < params_node.children.len()
        invariant
            i <= params_node.children@.len(),
            texts(parameters@) == param_names_among(params_node.children@.subrange(0, i as int)),
        decreases params_node.children@.len() - i,
    {
        let ghost seen = params_node.children@.subrange(0, i + 1);
        assert(seen.drop_last() =~= params_node.children@.subrange(0, i as int));
        let ghost start = texts(parameters@);
        let child = &params_node.children[i];
        if child.named {
            let ghost p0 = parameters@;
            match child.child_by_field_name(NAME) {
                Some(param_name) => match param_name.value() {
                    Some(p) => {
                        parameters.push(p);
                        assert(texts(parameters@) =~= texts(p0).push(p@));
                    },
                    None => {},
                },
                None => {},
            }
            let ghost p1 = parameters@;
            let ghost first = texts(p1);
            match child.child_by_kind(VARIABLE_DECLARATOR) {
                Some(var) => match var.child_by_field_name(NAME) {
                    Some(spread_name) => match spread_name.value() {
                        Some(p) => {
                            parameters.push(p);
                            assert(texts(parameters@) =~= texts(p1).push(p@));
                        },
                        None => {},
                    },
                    None => {},
                },
                None => {},
            }
            assert(texts(parameters@) =~= start + param_names_of(*child));
        } else {
            assert(param_names_of(*child) =~= Seq::<Seq<char>>::empty());
            assert(texts(parameters@) =~= start + param_names_of(*child));
        }
        i = i + 1;
    }
    assert(params_node.children@.subrange(0, i as int) =~= params_node.children@);
    parameters
}

/// The written return type of a method, unless it is `void`.
fn get_output_param_from_node(node: &SyntaxNode) -> (r: Option<String>)
    ensures
        r matches Some(v) ==> v@ != VOID@,
{
    match node.child_by_field_name(TYPE) {
        Some(type_node) => match type_node.value() {
            Some(v) => if same_text(&v, VOID) { None } else { Some(v) },
            None => None,
        },
        None => None,
    }
}

/// The modifiers written before a declaration, in order.
fn get_modifiers_from_node(node: &SyntaxNode) -> (r: Vec<String>)
    ensures
        texts(r@) == modifier_texts(*node),
{
    let mut modifiers: Vec<String> = Vec::new();
    assert(texts(modifiers@) =~= Seq::<Seq<char>>::empty());
    match node.child_by_kind(MODIFIERS) {
        Some(modifiers_node) => {
            let mut i: usize = 0;
            while i < modifiers_node.children.len()
                invariant
                    i <= modifiers_node.children@.len(),
                    texts(modifiers@) == present_texts(modifiers_node.children@.subrange(0, i as int)),
                decreases modifiers_node.children@.len() - i,
            {
                let ghost seen = modifiers_node.children@.subrange(0, i + 1);
                assert(seen.drop_last() =~= modifiers_node.children@.subrange(0, i as int));
                let ghost m0 = modifiers@;
                match modifiers_node.children[i].value() {
                    Some(m) => {
                        modifiers.push(m);
                        assert(texts(modifiers@) =~= texts(m0).push(m@));
                    },
                    None => {},
                }
                i = i + 1;
            }
            assert(modifiers_node.children@.subrange(0, i as int) =~= modifiers_node.children@);
        },
        None => {},
    }
    modifiers
}

} // verus!
