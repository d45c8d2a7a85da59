//! The invocation pass for Python: imports, classes, annotated parameters
//! and calls, found anywhere in the file.
use vstd::prelude::*;
use crate::dto::invocation_structure::{texts, InvocationStructure};
use crate::dto::object_description::{PackageDescription, VarDescription};
use crate::model::python_object::CodeType;
use crate::syntax::{named_count, text_or_empty, SyntaxNode};
use crate::visitor::symbols::{
    keeps, lemma_keeps_refl, lemma_keeps_trans, links_of, merged_imports, resolve, SymbolTable,
};

verus! {

const CLASS_DEFINITION: &'static str = "class_definition";
const IDENTIFIER: &'static str = "identifier";
const TYPED_PARAMETER: &'static str = "typed_parameter";
const TYPED_DEFAULT_PARAMETER: &'static str = "typed_default_parameter";
const CALL: &'static str = "call";
const PARAMETERS: &'static str = "parameters";
const IMPORT_STATEMENT: &'static str = "import_statement";
const IMPORT_FROM_STATEMENT: &'static str = "import_from_statement";
const DOTTED_NAME: &'static str = "dotted_name";
const ALIASED_IMPORT: &'static str = "aliased_import";
const ATTRIBUTE: &'static str = "attribute";
const ALIAS: &'static str = "alias";
const NAME: &'static str = "name";
const TYPE: &'static str = "type";
const FUNCTION: &'static str = "function";
const ARGUMENTS: &'static str = "arguments";
const OBJECT: &'static str = "object";
const SUPERCLASSES: &'static str = "superclasses";
const SELF_SPECIFIER: &'static str = "self";

/// What a call's function part calls, as (member, receiver): a plain name
/// is called through `self`; `x.f` through the identifier `x`, or no
/// receiver when the object is any other expression.
pub open spec fn call_target(f: SyntaxNode) -> (Seq<char>, Seq<char>) {
    if f.kind@ == "attribute"@ {
        (
            match f.child_by_field_name_spec("attribute"@) {
                Some(a) => text_or_empty(a),
                None => Seq::empty(),
            },
            match f.child_by_field_name_spec("object"@) {
                Some(o) => if o.kind@ == "identifier"@ { text_or_empty(o) } else { Seq::empty() },
                None => "self"@,
            },
        )
    } else if f.kind@ == "identifier"@ {
        (text_or_empty(f), "self"@)
    } else {
        (Seq::empty(), "self"@)
    }
}

/// What one module of an `import` statement imports, as (name it is known
/// by, module): `a.b` is known as `a.b`, `a.b as c` as `c`; `None` for an
/// alias without both parts.
pub open spec fn imported_module(node: SyntaxNode) -> Option<(Seq<char>, Seq<char>)> {
    if node.kind@ == "dotted_name"@ {
        Some((text_or_empty(node), text_or_empty(node)))
    } else if node.kind@ == "aliased_import"@ {
        match (node.child_by_field_name_spec("alias"@), node.child_by_field_name_spec("name"@)) {
            (Some(a), Some(n)) => Some((text_or_empty(a), text_or_empty(n))),
            _ => None,
        }
    } else {
        Some((Seq::empty(), Seq::empty()))
    }
}

/// The name under which `from m import ...` makes a type known: a dotted
/// name itself, or an alias; empty for anything else.
pub open spec fn import_name(c: SyntaxNode) -> Seq<char> {
    if c.kind@ == "dotted_name"@ {
        text_or_empty(c)
    } else if c.kind@ == "aliased_import"@ {
        match c.child_by_field_name_spec("alias"@) {
            Some(a) => text_or_empty(a),
            None => Seq::empty(),
        }
    } else {
        Seq::empty()
    }
}

/// The non-empty names imported by the named nodes of `s`, in order.
pub open spec fn from_names(s: Seq<SyntaxNode>) -> Seq<Seq<char>>
    decreases s.len(),
{
    if s.len() == 0 {
        Seq::empty()
    } else if s.last().named && import_name(s.last()).len() > 0 {
        from_names(s.drop_last()).push(import_name(s.last()))
    } else {
        from_names(s.drop_last())
    }
}

/// The imports after importing each of `names` from `package` in turn.
pub open spec fn merge_all(
    imports: Seq<(Seq<char>, Seq<Seq<char>>)>,
    package: Seq<char>,
    names: Seq<Seq<char>>,
) -> Seq<(Seq<char>, Seq<Seq<char>>)>
    decreases names.len(),
{
    if names.len() == 0 {
        imports
    } else {
        merged_imports(merge_all(imports, package, names.drop_last()), package, Some(names.last()))
    }
}

/// `m` is the index of the first named node of `s`.
pub open spec fn is_first_named(s: Seq<SyntaxNode>, m: int) -> bool {
    0 <= m < s.len() && s[m].named && forall|j: int| 0 <= j < m ==> !(#[trigger] s[j]).named
}

/// The imports and navigation links of a parsed Python file, with the type
/// codes of Python.
pub fn get_file_structure(root: &SyntaxNode) -> (r: InvocationStructure)
    ensures
        texts(r.type_codes@) == CodeType::type_codes_spec(),
{
    let mut table = SymbolTable::new(SELF_SPECIFIER.to_owned(), '.');
    let no_class = String::new();
    traverse_tree(root, &mut table, &no_class);
    let (imports, links) = table.take();
    InvocationStructure::new(imports, links, CodeType::type_codes())
}

/// Visits every node below `node` in pre-order; `class_name` is the
/// innermost enclosing class, empty at module level.
fn traverse_tree(node: &SyntaxNode, t: &mut SymbolTable, class_name: &String)
    requires
        old(t).wf(),
    ensures
        keeps(*old(t), *final(t)),
    decreases node,
{
    proof { lemma_keeps_refl(*t); }
    let mut i: usize = 0;
    while i < node.children.len()
        invariant
            i <= node.children@.len(),
            keeps(*old(t), *t),
        decreases node.children@.len() - i,
    {
        let ghost before = *t;
        let child = &node.children[i];
        proof {
            assert(decreases_to!(node => node.children));
            assert(decreases_to!(node.children => node.children@));
            assert(decreases_to!(node.children@ => node.children@[i as int]));
        }
        let inner = walk_into(child, t, class_name);
        let ghost mid = *t;
        traverse_tree(child, t, &inner);
        proof {
            lemma_keeps_trans(before, mid, *t);
            lemma_keeps_trans(*old(t), before, *t);
        }
        i = i + 1;
    }
}

/// Records what `node` itself declares or calls, and gives the enclosing
/// class for its descendants.
fn walk_into(node: &SyntaxNode, t: &mut SymbolTable, class_name: &String) -> (r: String)
    requires
        old(t).wf(),
    ensures
        keeps(*old(t), *final(t)),
{
    proof { lemma_keeps_refl(*t); }
    if node.is_kind(IMPORT_STATEMENT) {
        add_import_statement(node, t);
    } else if node.is_kind(IMPORT_FROM_STATEMENT) {
        add_import_from_statement(node, t);
    } else if node.is_kind(CLASS_DEFINITION) {
        return add_class_definition(node, t, class_name);
    } else if node.is_kind(PARAMETERS) {
        add_parameters(node, t);
    } else if node.is_kind(CALL) {
        add_function_call(node, t, class_name);
    }
    class_name.clone()
}

/// Records each module of `import a.b` and `import a.b as c`.
fn add_import_statement(node: &SyntaxNode, t: &mut SymbolTable)
    requires
        old(t).wf(),
    ensures
        keeps(*old(t), *final(t)),
{
    proof { lemma_keeps_refl(*t); }
    let mut i: usize = 0;
    while i < node.children.len()
        invariant
            i <= node.children@.len(),
            keeps(*old(t), *t),
        decreases node.children@.len() - i,
    {
        if node.children[i].named {
            let ghost before = *t;
            add_import_from_import_statement(&node.children[i], t);
            proof { lemma_keeps_trans(*old(t), before, *t); }
        }
        i = i + 1;
    }
}

/// Records `from m import x, y as z`: module `m` with the names imported
/// from it; `from m import *` imports the module with no names.
fn add_import_from_statement(node: &SyntaxNode, t: &mut SymbolTable)
    requires
        old(t).wf(),
    ensures
        keeps(*old(t), *final(t)),
        (forall|j: int| 0 <= j < node.children@.len() ==> !(#[trigger] node.children@[j]).named)
            ==> final(t).imports() == old(t).imports(),
        forall|m: int| #[trigger] is_first_named(node.children@, m) ==> final(t).imports() == merge_all(
            merged_imports(old(t).imports(), text_or_empty(node.children@[m]), None),
            text_or_empty(node.children@[m]),
            from_names(node.children@.subrange(m + 1, node.children@.len() as int)),
        ),
{
    proof { lemma_keeps_refl(*t); }
    let mut module_index: usize = 0;
    while module_index < node.children.len() && !node.children[module_index].named
        invariant
            module_index <= node.children@.len(),
            forall|j: int| 0 <= j < module_index ==> !(#[trigger] node.children@[j]).named,
        decreases node.children@.len() - module_index,
    {
        module_index = module_index + 1;
    }
    if module_index >= node.children.len() {
        return;
    }
    let ghost m = module_index as int;
    assert(is_first_named(node.children@, m));
    assert forall|k: int| #[trigger] is_first_named(node.children@, k) implies k == m by {
        if k < m {
            assert(!node.children@[k].named);
        }
        if m < k {
            assert(!node.children@[m].named);
        }
    }
    let package_name = node.children[module_index].value_or_empty();
    let ghost t0 = *t;
    t.add_import(package_name.clone(), None);
    proof { lemma_keeps_trans(*old(t), t0, *t); }
    let ghost start = t.imports();
    let mut i: usize = module_index + 1;
    assert(node.children@.subrange(m + 1, m + 1) =~= Seq::<SyntaxNode>::empty());
    while i < node.children.len()
        invariant
            module_index < i <= node.children@.len(),
            m == module_index as int,
            keeps(*old(t), *t),
            package_name@ == text_or_empty(node.children@[m]),
            start == merged_imports(old(t).imports(), package_name@, None),
            t.imports() == merge_all(start, package_name@, from_names(node.children@.subrange(m + 1, i as int))),
        decreases node.children@.len() - i,
    {
        let ghost seen = node.children@.subrange(m + 1, i + 1);
        assert(seen.drop_last() =~= node.children@.subrange(m + 1, i as int));
        assert(seen.last() == node.children@[i as int]);
        let class_node = &node.children[i];
        if class_node.named {
            let class_name = get_class_name_from_import_node(class_node);
            let ghost before = *t;
            t.add_package_description(PackageDescription::new(
                package_name.clone(), class_name.clone(), class_node.line, class_node.column, Vec::new()));
            let ghost mid = *t;
            if !class_name.as_str().is_empty() {
                t.add_import(package_name.clone(), Some(class_name));
            }
            proof {
                lemma_keeps_refl(*t);
                lemma_keeps_trans(before, mid, *t);
                lemma_keeps_trans(*old(t), before, *t);
                let names = from_names(seen);
                if class_name@.len() > 0 {
                    assert(names == from_names(seen.drop_last()).push(class_name@));
                    assert(names.drop_last() =~= from_names(seen.drop_last()));
                    assert(names.last() == class_name@);
                } else {
                    assert(names == from_names(seen.drop_last()));
                }
            }
        } else {
            assert(from_names(seen) == from_names(seen.drop_last()));
        }
        i = i + 1;
    }
}

/// Records one module of an `import` statement, under its alias if it has
/// one.
fn add_import_from_import_statement(node: &SyntaxNode, t: &mut SymbolTable)
    requires
        old(t).wf(),
    ensures
        keeps(*old(t), *final(t)),
        match imported_module(*node) {
            Some((class, package)) => final(t).imports() == merged_imports(old(t).imports(), package, Some(class)),
            None => final(t).imports() == old(t).imports(),
        },
{
    proof { lemma_keeps_refl(*t); }
    let (class_name, package_name) = if node.is_kind(DOTTED_NAME) {
        let name = node.value_or_empty();
        (name.clone(), name)
    } else if node.is_kind(ALIASED_IMPORT) {
        let alias = match node.child_by_field_name(ALIAS) {
            Some(a) => a.value_or_empty(),
            None => return,
        };
        let name = match node.child_by_field_name(NAME) {
            Some(n) => n.value_or_empty(),
            None => return,
        };
        (alias, name)
    } else {
        (String::new(), String::new())
    };
    let ghost t0 = *t;
    t.add_import(package_name.clone(), Some(class_name.clone()));
    let ghost t1 = *t;
    t.add_package_description(PackageDescription::new(package_name, class_name, node.line, node.column, Vec::new()));
    proof { lemma_keeps_trans(t0, t1, *t); }
}

/// Records a class, its base classes as its parents, and the binding of
/// `self` to it; gives the class's name for its body.
fn add_class_definition(node: &SyntaxNode, t: &mut SymbolTable, enclosing: &String) -> (r: String)
    requires
        old(t).wf(),
    ensures
        keeps(*old(t), *final(t)),
{
    proof { lemma_keeps_refl(*t); }
    let name_node = match node.child_by_field_name(NAME) {
        Some(n) => n,
        None => return enclosing.clone(),
    };
    let class_name = name_node.value_or_empty();
    let current_package = t.get_current_package();
    let mut package_description = PackageDescription::new(
        current_package.clone(), class_name.clone(), name_node.line, name_node.column, Vec::new());
    match node.child_by_field_name(SUPERCLASSES) {
        Some(superclasses) => {
            let mut i: usize = 0;
            while i < superclasses.children.len()
                invariant
                    i <= superclasses.children@.len(),
                decreases superclasses.children@.len() - i,
            {
                let c = &superclasses.children[i];
                if c.named && (c.is_kind(IDENTIFIER) || c.is_kind(ATTRIBUTE)) {
                    package_description.add_parent(c.value_or_empty());
                }
                i = i + 1;
            }
        },
        None => {},
    }
    let ghost t0 = *t;
    t.add_package_description(package_description);
    let ghost t1 = *t;
    t.add_var_description_entry(VarDescription::new(
        current_package, class_name.clone(), name_node.line, name_node.column, SELF_SPECIFIER.to_owned()));
    proof { lemma_keeps_trans(t0, t1, *t); }
    class_name
}

/// Binds each annotated parameter to its annotation.
fn add_parameters(node: &SyntaxNode, t: &mut SymbolTable)
    requires
        old(t).wf(),
    ensures
        keeps(*old(t), *final(t)),
{
    proof { lemma_keeps_refl(*t); }
    let mut i: usize = 0;
    while i < node.children.len()
        invariant
            i <= node.children@.len(),
            keeps(*old(t), *t),
        decreases node.children@.len() - i,
    {
        if node.children[i].named {
            let ghost before = *t;
            add_parameter(&node.children[i], t);
            proof { lemma_keeps_trans(*old(t), before, *t); }
        }
        i = i + 1;
    }
}

/// Binds an annotated parameter, with or without a default, to its type.
fn add_parameter(node: &SyntaxNode, t: &mut SymbolTable)
    requires
        old(t).wf(),
    ensures
        keeps(*old(t), *final(t)),
{
    proof { lemma_keeps_refl(*t); }
    let param_name = if node.is_kind(TYPED_DEFAULT_PARAMETER) {
        match node.child_by_field_name(NAME) {
            Some(n) => n.value_or_empty(),
            None => String::new(),
        }
    } else if node.is_kind(TYPED_PARAMETER) {
        match node.child_by_kind(IDENTIFIER) {
            Some(n) => n.value_or_empty(),
            None => String::new(),
        }
    } else {
        return;
    };
    let owner_type = match node.child_by_field_name(TYPE) {
        Some(n) => n.value_or_empty(),
        None => String::new(),
    };
    if !owner_type.as_str().is_empty() && !param_name.as_str().is_empty() {
        t.add_var_description(owner_type, param_name, node.line, node.column);
    }
}

/// Resolves a call `f(..)` or `x.f(..)`, inside class `class_name`.
fn add_function_call(node: &SyntaxNode, t: &mut SymbolTable, class_name: &String)
    requires
        old(t).wf(),
    ensures
        keeps(*old(t), *final(t)),
        match (node.child_by_field_name_spec("function"@), node.child_by_field_name_spec("arguments"@)) {
            (Some(f), Some(a)) => links_of(final(t).links@) == links_of(old(t).links@) + resolve(
                old(t).var_descriptions@,
                old(t).package_descriptions@,
                old(t).current_package@,
                old(t).self_word@,
                old(t).scope_mark,
                call_target(f).1,
                call_target(f).0,
                class_name@,
                named_count(a) as usize,
                f.line,
                f.column,
            ),
            _ => final(t).links == old(t).links,
        },
{
    proof { lemma_keeps_refl(*t); }
    let function_node = match node.child_by_field_name(FUNCTION) {
        Some(n) => n,
        None => return,
    };
    let arguments = match node.child_by_field_name(ARGUMENTS) {
        Some(n) => n,
        None => return,
    };
    let (method_name, var_name) = function_name_var_name_from_function(function_node);
    let count = arguments.named_child_count();
    t.add_navigation_link(&var_name, &method_name, class_name, count, function_node.line, function_node.column);
}

/// The called name and the receiver of a call: `self` for a plain name,
/// the object's identifier for an attribute, empty for any other object.
fn function_name_var_name_from_function(node: &SyntaxNode) -> (r: (String, String))
    ensures
        (r.0@, r.1@) == call_target(*node),
{
    if node.is_kind(ATTRIBUTE) {
        let function_name = match node.child_by_field_name(ATTRIBUTE) {
            Some(a) => a.value_or_empty(),
            None => String::new(),
        };
        let var_name = match node.child_by_field_name(OBJECT) {
            Some(object_node) => if object_node.is_kind(IDENTIFIER) {
                object_node.value_or_empty()
            } else {
                String::new()
            },
            None => SELF_SPECIFIER.to_owned(),
        };
        (function_name, var_name)
    } else if node.is_kind(IDENTIFIER) {
        (node.value_or_empty(), SELF_SPECIFIER.to_owned())
    } else {
        (String::new(), SELF_SPECIFIER.to_owned())
    }
}

/// The name an imported type is known by: its dotted name or its alias.
fn get_class_name_from_import_node(node: &SyntaxNode) -> (r: String)
    ensures
        r@ == import_name(*node),
{
    if node.is_kind(DOTTED_NAME) {
        node.value_or_empty()
    } else if node.is_kind(ALIASED_IMPORT) {
        match node.child_by_field_name(ALIAS) {
            Some(alias) => alias.value_or_empty(),
            None => String::new(),
        }
    } else {
        String::new()
    }
}

} // verus!
