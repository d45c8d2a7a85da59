//! Flattening of a declaration tree into declaration records.
use vstd::prelude::*;
use crate::dto::invocation_structure::texts;
use crate::dto::repository_method_dto::RepositoryMethodDto;
use crate::model::declaration::{ClassObject, DeclarationNode, MethodObject, PackageObject};
use crate::visitor::declarations::is_method_node;

verus! {

/// A lower-case hexadecimal digit.
pub open spec fn hex_digit(d: int) -> char {
    seq!['0', '1', '2', '3', '4', '5', '6', '7', '8', '9', 'a', 'b', 'c', 'd', 'e', 'f'][d]
}

/// How JSON writes one character inside a string: quote, backslash and
/// the control characters below U+0020 are escaped, everything else is
/// written as it is.
pub open spec fn json_char(c: char) -> Seq<char> {
    if c == '"' {
        seq!['\\', '"']
    } else if c == '\\' {
        seq!['\\', '\\']
    } else if c == '\u{8}' {
        seq!['\\', 'b']
    } else if c == '\t' {
        seq!['\\', 't']
    } else if c == '\n' {
        seq!['\\', 'n']
    } else if c == '\u{c}' {
        seq!['\\', 'f']
    } else if c == '\r' {
        seq!['\\', 'r']
    } else if (c as u32) < 0x20 {
        seq!['\\', 'u', '0', '0', hex_digit((c as u32) as int / 16), hex_digit((c as u32) as int % 16)]
    } else {
        seq![c]
    }
}

/// The characters of `t`, each written as JSON writes it in a string.
pub open spec fn json_chars(t: Seq<char>) -> Seq<char>
    decreases t.len(),
{
    if t.len() == 0 {
        Seq::empty()
    } else {
        json_chars(t.drop_last()) + json_char(t.last())
    }
}

/// The JSON string of `t`.
pub open spec fn json_string(t: Seq<char>) -> Seq<char> {
    seq!['"'] + json_chars(t) + seq!['"']
}

/// The JSON strings of `s`, separated by commas.
pub open spec fn json_items(s: Seq<Seq<char>>) -> Seq<char>
    decreases s.len(),
{
    if s.len() == 0 {
        Seq::empty()
    } else if s.len() == 1 {
        json_string(s[0])
    } else {
        json_items(s.drop_last()) + seq![','] + json_string(s.last())
    }
}

/// The compact JSON text of an array of strings.
pub open spec fn json_of_texts(s: Seq<Seq<char>>) -> Seq<char> {
    seq!['['] + json_items(s) + seq![']']
}

/// Relies on serde_json::to_string on a `Vec<String>`: the compact JSON
/// array of the strings, escaped by serde_json's table (src/ser.rs); it
/// cannot fail on strings.
#[verifier::external_body]
fn modifiers_json(modifiers: &Vec<String>) -> (r: String)
    ensures
        r@ == json_of_texts(texts(modifiers@)),
{
    serde_json::to_string(modifiers).unwrap_or_default()
}

/// A declaration record as values; repository id, path and the always
/// empty blob are left out.
pub struct DeclRecord {
    pub package_name: Seq<char>,
    pub line_code: usize,
    pub class_name: Seq<char>,
    pub method_name: Seq<char>,
    pub modifiers: Seq<Seq<char>>,
    pub method_type: Seq<char>,
    pub count_of_parameters: nat,
}

/// The records of a node and its descendants, in pre-order, within package
/// `pkg` and type `cls`. A package or type node sets the context for its
/// children; a method outside any type is placed in the scope written
/// before its name; a node without a kind code yields nothing.
pub open spec fn flatten(n: DeclarationNode, pkg: Seq<char>, cls: Seq<char>) -> Seq<DeclRecord>
    decreases n,
{
    match n {
        DeclarationNode::Package(p) => if p.object_data.type_code@.len() == 0 {
            Seq::empty()
        } else {
            seq![DeclRecord {
                package_name: p.object_data.name@,
                line_code: p.object_data.line_code,
                class_name: cls,
                method_name: Seq::empty(),
                modifiers: texts(p.object_data.modifiers@),
                method_type: p.object_data.type_code@,
                count_of_parameters: 0,
            }] + flatten_all(p.object_data.children@, p.object_data.name@, cls)
        },
        DeclarationNode::Type(c) => if c.object_data.type_code@.len() == 0 {
            Seq::empty()
        } else {
            seq![DeclRecord {
                package_name: pkg,
                line_code: c.object_data.line_code,
                class_name: c.object_data.name@,
                method_name: Seq::empty(),
                modifiers: texts(c.object_data.modifiers@),
                method_type: c.object_data.type_code@,
                count_of_parameters: 0,
            }] + flatten_all(c.object_data.children@, pkg, c.object_data.name@)
        },
        DeclarationNode::Method(m) => if m.object_data.type_code@.len() == 0 {
            Seq::empty()
        } else {
            seq![DeclRecord {
                package_name: pkg,
                line_code: m.object_data.line_code,
                class_name: if cls.len() == 0 { m.namespace@ } else { cls },
                method_name: m.object_data.name@,
                modifiers: texts(m.object_data.modifiers@),
                method_type: m.object_data.type_code@,
                count_of_parameters: m.parameters@.len(),
            }] + flatten_all(m.object_data.children@, pkg, cls)
        },
    }
}

/// The records of a sequence of sibling nodes, one after the other.
pub open spec fn flatten_all(s: Seq<DeclarationNode>, pkg: Seq<char>, cls: Seq<char>) -> Seq<DeclRecord>
    decreases s,
{
    if s.len() == 0 {
        Seq::empty()
    } else {
        flatten_all(s.subrange(0, s.len() - 1), pkg, cls) + flatten(s[s.len() - 1], pkg, cls)
    }
}

/// `d` is the record `r` of repository `rep_id` and file `path`.
pub open spec fn dto_is(d: RepositoryMethodDto, rep_id: i32, path: Seq<char>, r: DeclRecord) -> bool {
    &&& d.repository_id == rep_id
    &&& d.path_file@ == path
    &&& d.package_name@ == r.package_name
    &&& d.line_code == r.line_code
    &&& d.class_name@ == r.class_name
    &&& d.method_name@ == r.method_name
    &&& d.blob_data@.len() == 0
    &&& d.modifiers@ == json_of_texts(r.modifiers)
    &&& d.method_type@ == r.method_type
    &&& d.count_of_parameters == r.count_of_parameters
}

/// `new` is `old` followed by the records `recs`.
pub open spec fn extends_with(
    new: Seq<RepositoryMethodDto>,
    old: Seq<RepositoryMethodDto>,
    rep_id: i32,
    path: Seq<char>,
    recs: Seq<DeclRecord>,
) -> bool {
    &&& new.len() == old.len() + recs.len()
    &&& new.subrange(0, old.len() as int) == old
    &&& forall|i: int| 0 <= i < recs.len() ==> dto_is(#[trigger] new[old.len() + i], rep_id, path, recs[i])
}

proof fn lemma_extends_trans(
    a: Seq<RepositoryMethodDto>,
    b: Seq<RepositoryMethodDto>,
    c: Seq<RepositoryMethodDto>,
    rep_id: i32,
    path: Seq<char>,
    r1: Seq<DeclRecord>,
    r2: Seq<DeclRecord>,
)
    requires
        extends_with(b, a, rep_id, path, r1),
        extends_with(c, b, rep_id, path, r2),
    ensures
        extends_with(c, a, rep_id, path, r1 + r2),
{
    assert(c.subrange(0, a.len() as int) =~= b.subrange(0, a.len() as int));
    assert forall|i: int| 0 <= i < (r1 + r2).len() implies dto_is(#[trigger] c[a.len() + i], rep_id, path, (r1 + r2)[i]) by {
        if i < r1.len() {
            assert(c[a.len() + i] == b[a.len() + i]);
        } else {
            assert(c[a.len() + i] == c[b.len() + (i - r1.len())]);
        }
    }
}

/// Appends the record of a node with the given fields.
fn push_record(
    dto_vec: &mut Vec<RepositoryMethodDto>,
    rep_id: i32,
    path: &String,
    package_name: String,
    line_code: usize,
    class_name: String,
    method_name: String,
    modifiers: &Vec<String>,
    method_type: String,
    count_of_parameters: usize,
)
    ensures
        extends_with(final(dto_vec)@, old(dto_vec)@, rep_id, path@, seq![DeclRecord {
            package_name: package_name@,
            line_code,
            class_name: class_name@,
            method_name: method_name@,
            modifiers: texts(modifiers@),
            method_type: method_type@,
            count_of_parameters: count_of_parameters as nat,
        }]),
{
    let dto = RepositoryMethodDto::new(
        rep_id,
        path.clone(),
        package_name,
        line_code,
        class_name,
        method_name,
        String::new(),
        modifiers_json(modifiers),
        method_type,
        count_of_parameters,
    );
    dto_vec.push(dto);
    assert(final(dto_vec)@.subrange(0, old(dto_vec)@.len() as int) =~= old(dto_vec)@);
}

/// Appends the records of `node` and its descendants, within package
/// `package_name` and type `class_name`.
pub fn prepare_output_data(
    dto_vec: &mut Vec<RepositoryMethodDto>,
    node: &DeclarationNode,
    rep_id: i32,
    path: &String,
    package_name: &String,
    class_name: &String,
)
    ensures
        extends_with(final(dto_vec)@, old(dto_vec)@, rep_id, path@, flatten(*node, package_name@, class_name@)),
    decreases node, 1nat,
{
    match node {
        DeclarationNode::Package(p) => prepare_package_object(dto_vec, p, rep_id, path, class_name),
        DeclarationNode::Type(c) => prepare_class_object(dto_vec, c, rep_id, path, package_name),
        DeclarationNode::Method(m) => prepare_method_object(dto_vec, m, rep_id, path, package_name, class_name),
    }
}

fn prepare_package_object(
    dto_vec: &mut Vec<RepositoryMethodDto>,
    package_object: &PackageObject,
    rep_id: i32,
    path: &String,
    class_name: &String,
)
    ensures
        extends_with(final(dto_vec)@, old(dto_vec)@, rep_id, path@,
            flatten(DeclarationNode::Package(*package_object), Seq::empty(), class_name@)),
    decreases package_object, 0nat,
{
    let data = &package_object.object_data;
    if data.type_code.as_str().is_empty() {
        assert(final(dto_vec)@.subrange(0, old(dto_vec)@.len() as int) =~= old(dto_vec)@);
        return;
    }
    push_record(dto_vec, rep_id, path, data.get_name(), data.line_code, class_name.clone(), String::new(),
        &data.modifiers, data.type_code.clone(), 0);
    let ghost mid = dto_vec@;
    prepare_children(dto_vec, &data.children, rep_id, path, &data.name, class_name);
    proof {
        lemma_extends_trans(old(dto_vec)@, mid, dto_vec@, rep_id, path@, seq![DeclRecord {
            package_name: data.name@,
            line_code: data.line_code,
            class_name: class_name@,
            method_name: Seq::empty(),
            modifiers: texts(data.modifiers@),
            method_type: data.type_code@,
            count_of_parameters: 0,
        }], flatten_all(data.children@, data.name@, class_name@));
    }
}

fn prepare_class_object(
    dto_vec: &mut Vec<RepositoryMethodDto>,
    class_object: &ClassObject,
    rep_id: i32,
    path: &String,
    package_name: &String,
)
    ensures
        extends_with(final(dto_vec)@, old(dto_vec)@, rep_id, path@,
            flatten(DeclarationNode::Type(*class_object), package_name@, Seq::empty())),
    decreases class_object, 0nat,
{
    let data = &class_object.object_data;
    if data.type_code.as_str().is_empty() {
        assert(final(dto_vec)@.subrange(0, old(dto_vec)@.len() as int) =~= old(dto_vec)@);
        return;
    }
    push_record(dto_vec, rep_id, path, package_name.clone(), data.line_code, data.get_name(), String::new(),
        &data.modifiers, data.type_code.clone(), 0);
    let ghost mid = dto_vec@;
    prepare_children(dto_vec, &data.children, rep_id, path, package_name, &data.name);
    proof {
        lemma_extends_trans(old(dto_vec)@, mid, dto_vec@, rep_id, path@, seq![DeclRecord {
            package_name: package_name@,
            line_code: data.line_code,
            class_name: data.name@,
            method_name: Seq::empty(),
            modifiers: texts(data.modifiers@),
            method_type: data.type_code@,
            count_of_parameters: 0,
        }], flatten_all(data.children@, package_name@, data.name@));
    }
}

fn prepare_method_object(
    dto_vec: &mut Vec<RepositoryMethodDto>,
    method_object: &MethodObject,
    rep_id: i32,
    path: &String,
    package_name: &String,
    class_name: &String,
)
    ensures
        extends_with(final(dto_vec)@, old(dto_vec)@, rep_id, path@,
            flatten(DeclarationNode::Method(*method_object), package_name@, class_name@)),
    decreases method_object, 0nat,
{
    let data = &method_object.object_data;
    if data.type_code.as_str().is_empty() {
        assert(final(dto_vec)@.subrange(0, old(dto_vec)@.len() as int) =~= old(dto_vec)@);
        return;
    }
    let owner = if class_name.as_str().is_empty() { method_object.namespace.clone() } else { class_name.clone() };
    push_record(dto_vec, rep_id, path, package_name.clone(), data.line_code, owner, data.get_name(),
        &data.modifiers, data.type_code.clone(), method_object.parameters.len());
    let ghost mid = dto_vec@;
    prepare_children(dto_vec, &data.children, rep_id, path, package_name, class_name);
    proof {
        lemma_extends_trans(old(dto_vec)@, mid, dto_vec@, rep_id, path@, seq![DeclRecord {
            package_name: package_name@,
            line_code: data.line_code,
            class_name: if class_name@.len() == 0 { method_object.namespace@ } else { class_name@ },
            method_name: data.name@,
            modifiers: texts(data.modifiers@),
            method_type: data.type_code@,
            count_of_parameters: method_object.parameters@.len(),
        }], flatten_all(data.children@, package_name@, class_name@));
    }
}

/// Appends the records of each of `children` in turn.
fn prepare_children(
    dto_vec: &mut Vec<RepositoryMethodDto>,
    children: &Vec<DeclarationNode>,
    rep_id: i32,
    path: &String,
    package_name: &String,
    class_name: &String,
)
    ensures
        extends_with(final(dto_vec)@, old(dto_vec)@, rep_id, path@, flatten_all(children@, package_name@, class_name@)),
    decreases children, 2nat,
{
    let mut i: usize = 0;
    assert(children@.subrange(0, 0) =~= Seq::<DeclarationNode>::empty());
    assert(dto_vec@.subrange(0, dto_vec@.len() as int) =~= dto_vec@);
    while i < children.len()
        invariant
            i <= children@.len(),
            extends_with(dto_vec@, old(dto_vec)@, rep_id, path@,
                flatten_all(children@.subrange(0, i as int), package_name@, class_name@)),
        decreases children@.len() - i,
    {
        let ghost before = dto_vec@;
        proof {
            assert(decreases_to!(children => children@));
            assert(decreases_to!(children@ => children@[i as int]));
        }
        prepare_output_data(dto_vec, &children[i], rep_id, path, package_name, class_name);
        proof {
            let s = children@.subrange(0, i + 1);
            assert(s.subrange(0, s.len() - 1) =~= children@.subrange(0, i as int));
            assert(s[s.len() - 1] == children@[i as int]);
            lemma_extends_trans(old(dto_vec)@, before, dto_vec@, rep_id, path@,
                flatten_all(children@.subrange(0, i as int), package_name@, class_name@),
                flatten(children@[i as int], package_name@, class_name@));
        }
        i = i + 1;
    }
    assert(children@.subrange(0, i as int) =~= children@);
}

/// The records of a sequence of siblings begin with those of the first.
proof fn lemma_flatten_all_first(s: Seq<DeclarationNode>, pkg: Seq<char>, cls: Seq<char>)
    requires
        s.len() >= 1,
    ensures
        flatten_all(s, pkg, cls).len() >= flatten(s[0], pkg, cls).len(),
        forall|i: int| 0 <= i < flatten(s[0], pkg, cls).len()
            ==> #[trigger] flatten_all(s, pkg, cls)[i] == flatten(s[0], pkg, cls)[i],
    decreases s.len(),
{
    let init = s.subrange(0, s.len() - 1);
    if s.len() == 1 {
        assert(init =~= Seq::<DeclarationNode>::empty());
        assert(flatten_all(init, pkg, cls) =~= Seq::<DeclRecord>::empty());
        assert(flatten_all(s, pkg, cls) =~= flatten(s[0], pkg, cls));
    } else {
        lemma_flatten_all_first(init, pkg, cls);
        assert(init[0] == s[0]);
    }
}

/// Constructor synthesis: a type whose first child is the constructor that
/// the language supplies (same name, line and modifiers, no parameters)
/// yields, right after its own record, one constructor record on the type's
/// line with no parameters.
pub proof fn lemma_constructor_synthesis(class: ClassObject, pkg: Seq<char>, cls: Seq<char>, constructor_code: Seq<char>)
    requires
        class.object_data.type_code@.len() > 0,
        constructor_code.len() > 0,
        class.object_data.children@.len() >= 1,
        is_method_node(class.object_data.children@[0], class.object_data.name@, constructor_code,
            class.object_data.line_code, Seq::empty(), texts(class.object_data.modifiers@)),
    ensures
        ({
            let records = flatten(DeclarationNode::Type(class), pkg, cls);
            &&& records.len() >= 2
            &&& records[0].line_code == class.object_data.line_code
            &&& records[0].class_name == class.object_data.name@
            &&& records[1] == DeclRecord {
                package_name: pkg,
                line_code: class.object_data.line_code,
                class_name: class.object_data.name@,
                method_name: class.object_data.name@,
                modifiers: texts(class.object_data.modifiers@),
                method_type: constructor_code,
                count_of_parameters: 0,
            }
        }),
{
    let children = class.object_data.children@;
    let name = class.object_data.name@;
    let constructor = children[0];
    assert(constructor.data().children@ =~= Seq::<DeclarationNode>::empty());
    assert(flatten_all(constructor->Method_0.object_data.children@, pkg, name) =~= Seq::<DeclRecord>::empty());
    assert(constructor->Method_0.parameters@.len() == 0) by {
        assert(texts(constructor->Method_0.parameters@).len() == 0);
    }
    lemma_flatten_all_first(children, pkg, name);
    assert(constructor->Method_0.namespace@ =~= Seq::<char>::empty());
    if name.len() == 0 {
        assert(name =~= Seq::<char>::empty());
    }
    let first = flatten(constructor, pkg, name);
    assert(first.len() == 1);
    assert(flatten_all(children, pkg, name)[0] == first[0]);
}

/// `r` begins with the record of a package named `name`, declared at
/// `line`, with kind code `code`, of repository `rep_id` and file `path`.
pub open spec fn starts_with_package(
    r: Seq<RepositoryMethodDto>,
    rep_id: i32,
    path: Seq<char>,
    name: Seq<char>,
    line: usize,
    code: Seq<char>,
) -> bool {
    &&& r.len() >= 1
    &&& r[0].repository_id == rep_id
    &&& r[0].path_file@ == path
    &&& r[0].package_name@ == name
    &&& r[0].line_code == line
    &&& r[0].class_name@.len() == 0
    &&& r[0].method_name@.len() == 0
    &&& r[0].method_type@ == code
    &&& r[0].count_of_parameters == 0
}

/// The records of a package node with a kind code begin with its own.
pub proof fn lemma_first_record(
    n: DeclarationNode,
    r: Seq<RepositoryMethodDto>,
    rep_id: i32,
    path: Seq<char>,
)
    requires
        n is Package,
        n.data().type_code@.len() > 0,
        extends_with(r, Seq::empty(), rep_id, path, flatten(n, Seq::empty(), Seq::empty())),
    ensures
        starts_with_package(r, rep_id, path, n.data().name@, n.data().line_code, n.data().type_code@),
{
    let records = flatten(n, Seq::empty(), Seq::empty());
    assert(records[0].package_name == n.data().name@);
    let empty = Seq::<RepositoryMethodDto>::empty();
    assert(dto_is(r[empty.len() + 0int], rep_id, path, records[0]));
}

} // verus!
