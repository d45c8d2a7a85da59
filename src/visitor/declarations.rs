//! Building blocks of the declaration pass shared by the languages.
use vstd::prelude::*;
use crate::dto::invocation_structure::texts;
use crate::model::declaration::{ClassObject, DeclarationNode, MethodObject, ObjectData, PackageObject};

verus! {

/// `n` is a method node with exactly these fields and no children.
pub open spec fn is_method_node(
    n: DeclarationNode,
    name: Seq<char>,
    code: Seq<char>,
    line: usize,
    params: Seq<Seq<char>>,
    modifiers: Seq<Seq<char>>,
) -> bool {
    &&& n is Method
    &&& n->Method_0.object_data.name@ == name
    &&& n->Method_0.object_data.type_code@ == code
    &&& n->Method_0.object_data.line_code == line
    &&& n->Method_0.object_data.children@.len() == 0
    &&& texts(n->Method_0.object_data.modifiers@) == modifiers
    &&& texts(n->Method_0.parameters@) == params
    &&& n->Method_0.namespace@.len() == 0
}

/// `n` is a type node with exactly these fields and no children.
pub open spec fn is_type_node(
    n: DeclarationNode,
    name: Seq<char>,
    code: Seq<char>,
    line: usize,
    modifiers: Seq<Seq<char>>,
) -> bool {
    &&& n is Type
    &&& n->Type_0.object_data.name@ == name
    &&& n->Type_0.object_data.type_code@ == code
    &&& n->Type_0.object_data.line_code == line
    &&& n->Type_0.object_data.children@.len() == 0
    &&& texts(n->Type_0.object_data.modifiers@) == modifiers
}

/// A copy of a list of strings.
pub fn copy_texts(v: &Vec<String>) -> (r: Vec<String>)
    ensures
        texts(r@) == texts(v@),
{
    let mut r: Vec<String> = Vec::new();
    let mut i: usize = 0;
    while i < v.len()
        invariant
            i <= v@.len(),
            texts(r@) == texts(v@.subrange(0, i as int)),
        decreases v@.len() - i,
    {
        let ghost prev = r@;
        r.push(v[i].clone());
        assert(texts(r@) =~= texts(prev).push(v@[i as int]@));
        assert(texts(v@.subrange(0, i + 1)) =~= texts(v@.subrange(0, i as int)).push(v@[i as int]@));
        i = i + 1;
    }
    assert(v@.subrange(0, i as int) =~= v@);
    r
}

/// A method node.
pub fn method_node(
    name: String,
    code: String,
    line: usize,
    params: Vec<String>,
    modifiers: Vec<String>,
    output_parameter: String,
) -> (r: DeclarationNode)
    ensures
        is_method_node(r, name@, code@, line, texts(params@), texts(modifiers@)),
        r->Method_0.output_parameter@ == output_parameter@,
{
    let mut object_data = ObjectData::new(name, code);
    object_data.set_line_code(line);
    object_data.set_modifiers(modifiers);
    DeclarationNode::Method(MethodObject { object_data, parameters: params, output_parameter, namespace: String::new() })
}

/// A type node.
pub fn type_node(name: String, code: String, line: usize, modifiers: Vec<String>) -> (r: DeclarationNode)
    ensures
        is_type_node(r, name@, code@, line, texts(modifiers@)),
{
    let mut object_data = ObjectData::new(name, code);
    object_data.set_line_code(line);
    object_data.set_modifiers(modifiers);
    DeclarationNode::Type(ClassObject { object_data })
}

/// A package node with no children and no modifiers.
pub fn package_node(name: String, code: String, line: usize) -> (r: DeclarationNode)
    ensures
        r is Package,
        r->Package_0.object_data.name@ == name@,
        r->Package_0.object_data.type_code@ == code@,
        r->Package_0.object_data.line_code == line,
        r->Package_0.object_data.children@.len() == 0,
        r->Package_0.object_data.modifiers@.len() == 0,
{
    DeclarationNode::Package(PackageObject::new_name(name, code, line))
}

/// A type node whose first child is the zero-argument constructor that the
/// language would supply: it shares the type's name, line and modifiers.
pub fn type_with_constructor(
    name: String,
    code: String,
    constructor_code: String,
    line: usize,
    modifiers: Vec<String>,
) -> (r: DeclarationNode)
    ensures
        r is Type,
        r->Type_0.object_data.name@ == name@,
        r->Type_0.object_data.type_code@ == code@,
        r->Type_0.object_data.line_code == line,
        texts(r->Type_0.object_data.modifiers@) == texts(modifiers@),
        r->Type_0.object_data.children@.len() == 1,
        is_method_node(r->Type_0.object_data.children@[0], name@, constructor_code@, line,
            Seq::empty(), texts(modifiers@)),
{
    let no_params: Vec<String> = Vec::new();
    assert(texts(no_params@) =~= Seq::<Seq<char>>::empty());
    let constructor = method_node(name.clone(), constructor_code, line, no_params, copy_texts(&modifiers), String::new());
    let mut r = type_node(name, code, line, modifiers);
    r.add_child(constructor);
    r
}

/// `new` is `old` with the same kind and fields, and more children after
/// the ones it had.
pub open spec fn grows(old: DeclarationNode, new: DeclarationNode) -> bool {
    &&& (old is Package <==> new is Package)
    &&& (old is Type <==> new is Type)
    &&& (old is Method <==> new is Method)
    &&& new.data().name == old.data().name
    &&& new.data().line_code == old.data().line_code
    &&& new.data().type_code == old.data().type_code
    &&& new.data().modifiers == old.data().modifiers
    &&& old.data().children@.len() <= new.data().children@.len()
    &&& new.data().children@.subrange(0, old.data().children@.len() as int) == old.data().children@
}

pub proof fn lemma_grows_refl(n: DeclarationNode)
    ensures
        grows(n, n),
{
    assert(n.data().children@.subrange(0, n.data().children@.len() as int) =~= n.data().children@);
}

pub proof fn lemma_grows_trans(a: DeclarationNode, b: DeclarationNode, c: DeclarationNode)
    requires
        grows(a, b),
        grows(b, c),
    ensures
        grows(a, c),
{
    assert(c.data().children@.subrange(0, a.data().children@.len() as int)
        =~= b.data().children@.subrange(0, a.data().children@.len() as int));
}

/// Appends `child` to `parent`.
pub fn attach(parent: &mut DeclarationNode, child: DeclarationNode)
    ensures
        grows(*old(parent), *final(parent)),
        final(parent).data().children@ == old(parent).data().children@.push(child),
{
    parent.add_child(child);
    assert(final(parent).data().children@.subrange(0, old(parent).data().children@.len() as int)
        =~= old(parent).data().children@);
}

} // verus!
