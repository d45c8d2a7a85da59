//! The invocation pass for C++: namespaces, types and their base classes,
//! fields, parameters and local variables, and calls and constructions.
use vstd::prelude::*;
use crate::dto::invocation_structure::{texts, InvocationStructure};
use crate::dto::object_description::{PackageDescription, VarDescription};
use crate::model::cpp_object::CodeType;
use crate::syntax::{has_field, lemma_child_smaller, lemma_first_of_smaller, named_count, text_or_empty, SyntaxNode};
use crate::visitor::symbols::{
    keeps, lemma_keeps_refl, lemma_keeps_trans, lemma_super_entries_refl, lemma_super_entries_trans, links_of,
    resolve, super_entries, SymbolTable,
};

verus! {

const NAMESPACE_DEFINITION: &'static str = "namespace_definition";
const CLASS_SPECIFIER: &'static str = "class_specifier";
const STRUCT_SPECIFIER: &'static str = "struct_specifier";
const UNION_SPECIFIER: &'static str = "union_specifier";
const PARAMETER_LIST: &'static str = "parameter_list";
const FIELD_DECLARATION: &'static str = "field_declaration";
const BASE_CLASS_CLAUSE: &'static str = "base_class_clause";
const DECLARATION: &'static str = "declaration";
const INIT_DECLARATOR: &'static str = "init_declarator";
const CALL_EXPRESSION: &'static str = "call_expression";
const PARAMETER_DECLARATION: &'static str = "parameter_declaration";
const OPTIONAL_PARAMETER_DECLARATION: &'static str = "optional_parameter_declaration";
const INITIALIZER_LIST: &'static str = "initializer_list";
const ARGUMENT_LIST: &'static str = "argument_list";
const PRIMITIVE_TYPE: &'static str = "primitive_type";
const TYPE_IDENTIFIER: &'static str = "type_identifier";
const SIZED_TYPE_SPECIFIER: &'static str = "sized_type_specifier";
const SCOPED_TYPE_IDENTIFIER: &'static str = "scoped_type_identifier";
const TEMPLATE_TYPE: &'static str = "template_type";
const FIELD_IDENTIFIER: &'static str = "field_identifier";
const IDENTIFIER: &'static str = "identifier";
const DESTRUCTOR_NAME: &'static str = "destructor_name";
const SCOPED_IDENTIFIER: &'static str = "scoped_identifier";
const QUALIFIED_IDENTIFIER: &'static str = "qualified_identifier";
const TEMPLATE_FUNCTION: &'static str = "template_function";
const FIELD_EXPRESSION: &'static str = "field_expression";
const NAME: &'static str = "name";
const TYPE: &'static str = "type";
const DECLARATOR: &'static str = "declarator";
const VALUE: &'static str = "value";
const FUNCTION: &'static str = "function";
const ARGUMENTS: &'static str = "arguments";
const FIELD: &'static str = "field";
const ARGUMENT: &'static str = "argument";
const THIS: &'static str = "this";
const SUPER_CLASS: &'static str = "super";

/// The text of a scoped name's `name` field, or the empty text.
pub open spec fn scoped_text(n: SyntaxNode) -> Seq<char> {
    match n.child_by_field_name_spec("name"@) {
        Some(c) => text_or_empty(c),
        None => Seq::empty(),
    }
}

/// The name of a type from its name node: plain, scoped or templated;
/// empty for anything else.
pub open spec fn class_name_text(n: SyntaxNode) -> Seq<char>
    decreases n,
{
    proof { lemma_first_of_smaller(n, |c: SyntaxNode| has_field(c, "name"@)); }
    if n.kind@ == "type_identifier"@ {
        text_or_empty(n)
    } else if n.kind@ == "scoped_type_identifier"@ || n.kind@ == "qualified_identifier"@ {
        scoped_text(n)
    } else if n.kind@ == "template_type"@ {
        match n.child_by_field_name_spec("name"@) {
            Some(c) => class_name_text(c),
            None => Seq::empty(),
        }
    } else {
        Seq::empty()
    }
}

/// The non-empty type names of the named nodes of a base-class clause.
pub open spec fn base_names(s: Seq<SyntaxNode>) -> Seq<Seq<char>>
    decreases s.len(),
{
    if s.len() == 0 {
        Seq::empty()
    } else if s.last().named && class_name_text(s.last()).len() > 0 {
        base_names(s.drop_last()).push(class_name_text(s.last()))
    } else {
        base_names(s.drop_last())
    }
}

/// The imports and navigation links of a parsed C++ file at `path`, which
/// is the file's package and its one import.
pub fn get_file_structure(root: &SyntaxNode, path: &String) -> (r: InvocationStructure)
    ensures
        texts(r.type_codes@) == CodeType::type_codes_spec(),
        r.repository_import_declarations@.len() >= 1,
        r.repository_import_declarations@[0].package_name@ == path@,
{
    let mut table = SymbolTable::new(THIS.to_owned(), ':');
    add_package_declaration(&mut table, path);
    let no_class = String::new();
    visit_node(root, &mut table, &no_class);
    assert(table.imports()[0].0 == path@);
    let (imports, links) = table.take();
    InvocationStructure::new(imports, links, CodeType::type_codes())
}

/// Lists the file's path as its import and makes it the current package.
fn add_package_declaration(t: &mut SymbolTable, path: &String)
    requires
        old(t).wf(),
        old(t).imports().len() == 0,
    ensures
        keeps(*old(t), *final(t)),
        final(t).imports().len() == 1,
        final(t).imports()[0].0 == path@,
{
    let ghost t0 = *t;
    t.add_import(path.clone(), None);
    let ghost t1 = *t;
    t.set_current_package(path.clone());
    proof { lemma_keeps_trans(t0, t1, *t); }
}

/// Walks the named descendants of `node` in pre-order; `class_name` is the
/// innermost enclosing type or namespace.
fn visit_node(node: &SyntaxNode, t: &mut SymbolTable, class_name: &String)
    requires
        old(t).wf(),
    ensures
        keeps(*old(t), *final(t)),
    decreases node,
{
    proof { lemma_keeps_refl(*t); }
    let mut i: usize = 0;
    while i < node.children.len()
        invariant
            i <= node.children@.len(),
            keeps(*old(t), *t),
        decreases node.children@.len() - i,
    {
        let ghost before = *t;
        let child = &node.children[i];
        proof {
            assert(decreases_to!(node => node.children));
            assert(decreases_to!(node.children => node.children@));
            assert(decreases_to!(node.children@ => node.children@[i as int]));
            lemma_keeps_refl(*t);
        }
        if child.named {
            let mut inner = class_name.clone();
            if child.is_kind(NAMESPACE_DEFINITION) {
                inner = visit_namespace_definition_get_name(child, t);
            } else if child.is_kind(CLASS_SPECIFIER) || child.is_kind(STRUCT_SPECIFIER) || child.is_kind(UNION_SPECIFIER) {
                inner = visit_struct_spec_get_name(child, t);
            } else if child.is_kind(PARAMETER_LIST) {
                visit_parameter_list(child, t);
            } else if child.is_kind(FIELD_DECLARATION) {
                visit_field_declaration(child, t);
            } else if child.is_kind(DECLARATION) {
                visit_declaration(child, t, class_name);
            } else if child.is_kind(INIT_DECLARATOR) {
                visit_init_declaration(child, node, t, class_name);
            } else if child.is_kind(CALL_EXPRESSION) {
                visit_call_expression(child, t, class_name);
            }
            let ghost mid = *t;
            visit_node(child, t, &inner);
            proof { lemma_keeps_trans(before, mid, *t); }
        }
        proof { lemma_keeps_trans(*old(t), before, *t); }
        i = i + 1;
    }
}

/// Records a named namespace as a type, with `this` bound to it; gives its
/// name as the scope of its body.
fn visit_namespace_definition_get_name(node: &SyntaxNode, t: &mut SymbolTable) -> (r: String)
    requires
        old(t).wf(),
    ensures
        keeps(*old(t), *final(t)),
{
    proof { lemma_keeps_refl(*t); }
    let name_node = match node.child_by_field_name(NAME) {
        Some(n) => n,
        None => return String::new(),
    };
    let namespace_name = name_node.value_or_empty();
    record_type(t, &namespace_name, name_node.line, name_node.column);
    namespace_name
}

/// Records a type entry for `name` in the current package, and binds
/// `this` to it.
fn record_type(t: &mut SymbolTable, name: &String, line: usize, position: usize)
    requires
        old(t).wf(),
    ensures
        keeps(*old(t), *final(t)),
{
    let package_name = t.get_current_package();
    let ghost t0 = *t;
    t.add_package_description(PackageDescription::new(package_name.clone(), name.clone(), line, position, Vec::new()));
    let ghost t1 = *t;
    t.add_var_description_entry(VarDescription::new(package_name, name.clone(), line, position, THIS.to_owned()));
    proof { lemma_keeps_trans(t0, t1, *t); }
}

/// Binds a field or parameter to its written type, when both are read.
fn visit_field_declaration(node: &SyntaxNode, t: &mut SymbolTable)
    requires
        old(t).wf(),
    ensures
        keeps(*old(t), *final(t)),
{
    proof { lemma_keeps_refl(*t); }
    let type_node = match node.child_by_field_name(TYPE) {
        Some(n) => n,
        None => return,
    };
    let declarator = match node.child_by_field_name(DECLARATOR) {
        Some(n) => n,
        None => return,
    };
    let identifier = match get_identifier_from_declarator(declarator, FIELD_IDENTIFIER) {
        Some(n) => n,
        None => match get_identifier_from_declarator(declarator, IDENTIFIER) {
            Some(n) => n,
            None => return,
        },
    };
    let field_name = identifier.value_or_empty();
    let field_type = type_node.value_or_empty();
    if field_name.as_str().is_empty() || field_type.as_str().is_empty() {
        return;
    }
    t.add_var_description(field_type, field_name, node.line, node.column);
}

/// Binds each parameter of a list to its type.
fn visit_parameter_list(node: &SyntaxNode, t: &mut SymbolTable)
    requires
        old(t).wf(),
    ensures
        keeps(*old(t), *final(t)),
{
    proof { lemma_keeps_refl(*t); }
    let mut i: usize = 0;
    while i < node.children.len()
        invariant
            i <= node.children@.len(),
            keeps(*old(t), *t),
        decreases node.children@.len() - i,
    {
        let child = &node.children[i];
        if child.named && (child.is_kind(PARAMETER_DECLARATION) || child.is_kind(OPTIONAL_PARAMETER_DECLARATION)) {
            let ghost before = *t;
            visit_field_declaration(child, t);
            proof { lemma_keeps_trans(*old(t), before, *t); }
        }
        i = i + 1;
    }
}

/// Binds a declared variable to its type and resolves its construction
/// without arguments; an initialized variable of a primitive type is not
/// a construction.
fn visit_declaration(node: &SyntaxNode, t: &mut SymbolTable, class_name: &String)
    requires
        old(t).wf(),
    ensures
        keeps(*old(t), *final(t)),
{
    proof { lemma_keeps_refl(*t); }
    let declarator = match node.child_by_field_name(DECLARATOR) {
        Some(n) => n,
        None => return,
    };
    let type_node = match node.child_by_field_name(TYPE) {
        Some(n) => n,
        None => return,
    };
    let identifier = match get_identifier_from_declarator(declarator, IDENTIFIER) {
        Some(n) => n,
        None => return,
    };
    let method_name = get_var_from_type_specifier_or_this(type_node);
    let var_name = identifier.value_or_empty();
    let ghost t0 = *t;
    t.add_var_description(method_name.clone(), var_name.clone(), node.line, node.column);
    if declarator.is_kind(INIT_DECLARATOR) && type_node.is_kind(PRIMITIVE_TYPE) {
        return;
    }
    let ghost t1 = *t;
    t.add_navigation_link(&var_name, &method_name, class_name, 0, node.line, node.column);
    proof { lemma_keeps_trans(t0, t1, *t); }
}

/// Resolves a construction with arguments or an initializer list, as a
/// call of the declared type's constructor; `parent` is the declaration
/// that holds `node`.
fn visit_init_declaration(node: &SyntaxNode, parent: &SyntaxNode, t: &mut SymbolTable, class_name: &String)
    requires
        old(t).wf(),
    ensures
        keeps(*old(t), *final(t)),
{
    proof { lemma_keeps_refl(*t); }
    let declarator = match node.child_by_field_name(DECLARATOR) {
        Some(n) => n,
        None => return,
    };
    let value = match node.child_by_field_name(VALUE) {
        Some(n) => n,
        None => return,
    };
    if !value.is_kind(INITIALIZER_LIST) && !value.is_kind(ARGUMENT_LIST) {
        return;
    }
    let var_name = get_var_from_declarator(declarator);
    let method_name = if parent.is_kind(DECLARATION) {
        match parent.child_by_field_name(TYPE) {
            Some(type_node) => get_var_from_type_specifier_or_this(type_node),
            None => THIS.to_owned(),
        }
    } else {
        THIS.to_owned()
    };
    let count = value.named_child_count();
    t.add_navigation_link(&var_name, &method_name, class_name, count, node.line, node.column);
}

/// Resolves a call `f(..)`, `x.f(..)`, `p->f(..)` or `ns::f(..)`.
fn visit_call_expression(node: &SyntaxNode, t: &mut SymbolTable, class_name: &String)
    requires
        old(t).wf(),
    ensures
        keeps(*old(t), *final(t)),
        match (node.child_by_field_name_spec("function"@), node.child_by_field_name_spec("arguments"@)) {
            (Some(f), Some(a)) => exists|method: Seq<char>, var: Seq<char>|
                links_of(final(t).links@) == links_of(old(t).links@) + #[trigger] resolve(
                    old(t).var_descriptions@,
                    old(t).package_descriptions@,
                    old(t).current_package@,
                    old(t).self_word@,
                    old(t).scope_mark,
                    var,
                    method,
                    class_name@,
                    named_count(a) as usize,
                    node.line,
                    node.column,
                ),
            _ => final(t).links == old(t).links,
        },
{
    proof { lemma_keeps_refl(*t); }
    let function_node = match node.child_by_field_name(FUNCTION) {
        Some(n) => n,
        None => return,
    };
    let arguments = match node.child_by_field_name(ARGUMENTS) {
        Some(n) => n,
        None => return,
    };
    let (method_name, var_name) = get_method_and_var_from_expression(function_node);
    let count = arguments.named_child_count();
    t.add_navigation_link(&var_name, &method_name, class_name, count, node.line, node.column);
    assert(links_of(t.links@) == links_of(old(t).links@) + resolve(
        old(t).var_descriptions@, old(t).package_descriptions@, old(t).current_package@, old(t).self_word@,
        old(t).scope_mark, var_name@, method_name@, class_name@, named_count(*arguments) as usize, node.line, node.column));
}

/// Records a named class, struct or union with `this` bound to it; gives
/// its name as the scope of its body, or the empty name for an anonymous
/// one.
fn visit_struct_spec_get_name(node: &SyntaxNode, t: &mut SymbolTable) -> (r: String)
    requires
        old(t).wf(),
    ensures
        keeps(*old(t), *final(t)),
        node.child_by_field_name_spec("name"@) matches Some(n) ==> {
            let bases = match node.child_by_kind_spec("base_class_clause"@) {
                Some(b) => base_names(b.children@),
                None => Seq::empty(),
            };
            let k = old(t).package_descriptions@.len() + bases.len();
            let e = final(t).package_descriptions@[k as int];
            &&& k < final(t).package_descriptions@.len()
            &&& e.description_data.class_name@ == class_name_text(n)
            &&& e.description_data.package_name@ == old(t).current_package@
            &&& e.description_data.line == n.line
            &&& e.description_data.position == n.column
            &&& texts(e.parents@) == bases
            &&& final(t).var_descriptions@[(old(t).var_descriptions@.len() + bases.len()) as int].var_name@ == "this"@
        },
{
    proof { lemma_keeps_refl(*t); }
    let name_node = match node.child_by_field_name(NAME) {
        Some(n) => n,
        None => return String::new(),
    };
    let class_name = get_name_from_class_name_node(name_node);
    let package_name = t.get_current_package();
    let mut description = PackageDescription::new(
        package_name.clone(), class_name.clone(), name_node.line, name_node.column, Vec::new());
    let ghost t0 = *t;
    match node.child_by_kind(BASE_CLASS_CLAUSE) {
        Some(clause) => visit_super_class(clause, t, &mut description),
        None => {
            proof {
                lemma_keeps_refl(*t);
                lemma_super_entries_refl(*t, t.current_package@);
                assert(texts(description.parents@) =~= Seq::<Seq<char>>::empty());
            }
        },
    }
    let ghost t1 = *t;
    t.add_package_description(description);
    let ghost t2 = *t;
    t.add_var_description_entry(VarDescription::new(package_name, class_name.clone(), name_node.line, name_node.column, THIS.to_owned()));
    proof {
        lemma_keeps_trans(t0, t1, t2);
        lemma_keeps_trans(t0, t2, *t);
        assert(t1.package_descriptions@.len() == t0.package_descriptions@.len() + (match node.child_by_kind_spec("base_class_clause"@) {
            Some(b) => base_names(b.children@),
            None => Seq::<Seq<char>>::empty(),
        }).len());
    }
    class_name
}

/// Records the base classes in a base-class clause: an entry and a `super`
/// binding for each, and each among the parents of `child`.
fn visit_super_class(node: &SyntaxNode, t: &mut SymbolTable, child: &mut PackageDescription)
    requires
        old(t).wf(),
    ensures
        keeps(*old(t), *final(t)),
        final(child).description_data == old(child).description_data,
        texts(final(child).parents@) == texts(old(child).parents@) + base_names(node.children@),
        super_entries(*old(t), *final(t), old(t).current_package@, base_names(node.children@)),
{
    proof {
        lemma_keeps_refl(*t);
        lemma_super_entries_refl(*t, t.current_package@);
        assert(texts(child.parents@) =~= texts(child.parents@) + Seq::<Seq<char>>::empty());
    }
    let ghost package = old(t).current_package@;
    let mut i: usize = 0;
    assert(node.children@.subrange(0, 0) =~= Seq::<SyntaxNode>::empty());
    while i < node.children.len()
        invariant
            i <= node.children@.len(),
            keeps(*old(t), *t),
            package == old(t).current_package@,
            child.description_data == old(child).description_data,
            texts(child.parents@) == texts(old(child).parents@) + base_names(node.children@.subrange(0, i as int)),
            super_entries(*old(t), *t, package, base_names(node.children@.subrange(0, i as int))),
        decreases node.children@.len() - i,
    {
        let ghost seen = node.children@.subrange(0, i + 1);
        assert(seen.drop_last() =~= node.children@.subrange(0, i as int));
        let ghost names = base_names(node.children@.subrange(0, i as int));
        let c = &node.children[i];
        if c.named {
            let class_name = get_name_from_class_name_node(c);
            if !class_name.as_str().is_empty() {
                let package_name = t.get_current_package();
                let ghost t0 = *t;
                t.add_package_description(PackageDescription::new(
                    package_name.clone(), class_name.clone(), c.line, c.column, Vec::new()));
                let ghost t1 = *t;
                t.add_var_description_entry(VarDescription::new(
                    package_name, class_name.clone(), c.line, c.column, SUPER_CLASS.to_owned()));
                let ghost before_parents = child.parents@;
                child.add_parent(class_name);
                proof {
                    lemma_keeps_trans(t0, t1, *t);
                    lemma_keeps_trans(*old(t), t0, *t);
                    assert(t.package_descriptions@.subrange(0, t0.package_descriptions@.len() as int) =~= t0.package_descriptions@);
                    assert(t.var_descriptions@.subrange(0, t0.var_descriptions@.len() as int) =~= t0.var_descriptions@);
                    assert(t.package_descriptions@[t0.package_descriptions@.len() as int] == t.package_descriptions@.last());
                    assert(super_entries(t0, *t, package, seq![class_name_text(*c)]));
                    lemma_super_entries_trans(*old(t), t0, *t, package, names, seq![class_name_text(*c)]);
                    assert(names + seq![class_name_text(*c)] =~= base_names(seen));
                    assert(texts(child.parents@) =~= texts(before_parents).push(class_name_text(*c)));
                    assert(texts(child.parents@) =~= texts(old(child).parents@) + base_names(seen));
                }
            }
        }
        i = i + 1;
    }
    assert(node.children@.subrange(0, i as int) =~= node.children@);
}

/// The first node of kind `kind` along the first-named-child path of a
/// declarator.
fn get_identifier_from_declarator<'a>(node: &'a SyntaxNode, kind: &str) -> (r: Option<&'a SyntaxNode>)
    ensures
        r matches Some(n) ==> n.kind@ == kind@,
    decreases node,
{
    if node.is_kind(kind) {
        return Some(node);
    }
    match node.first_named_child() {
        Some(child) => {
            proof { lemma_child_smaller(node, |c: SyntaxNode| c.named, child); }
            get_identifier_from_declarator(child, kind)
        },
        None => None,
    }
}

/// The name a type specifier writes, or `this` when it writes none that
/// this pass reads.
fn get_var_from_type_specifier_or_this(node: &SyntaxNode) -> (r: String)
    decreases node,
{
    let written = if node.is_kind(TYPE_IDENTIFIER) || node.is_kind(PRIMITIVE_TYPE) || node.is_kind(SIZED_TYPE_SPECIFIER) {
        node.value_or_empty()
    } else if (node.is_kind(SCOPED_TYPE_IDENTIFIER) || node.is_kind(QUALIFIED_IDENTIFIER)) {
        get_name_from_scoped_type_identifier(node)
    } else if node.is_kind(TEMPLATE_TYPE) {
        match node.child_by_field_name(NAME) {
            Some(name_node) => {
                proof { lemma_child_smaller(node, |c: SyntaxNode| has_field(c, NAME@), name_node); }
                get_var_from_type_specifier_or_this(name_node)
            },
            None => String::new(),
        }
    } else {
        String::new()
    };
    if written.as_str().is_empty() { THIS.to_owned() } else { written }
}

/// The variable a declarator declares, without its scope.
fn get_var_from_declarator(node: &SyntaxNode) -> String
    decreases node,
{
    if node.is_kind(FIELD_IDENTIFIER) || node.is_kind(IDENTIFIER) || node.is_kind(DESTRUCTOR_NAME) {
        node.value_or_empty()
    } else if (node.is_kind(SCOPED_IDENTIFIER) || node.is_kind(QUALIFIED_IDENTIFIER)) {
        match node.child_by_field_name(NAME) {
            Some(name_node) => {
                proof { lemma_child_smaller(node, |c: SyntaxNode| has_field(c, NAME@), name_node); }
                get_var_from_declarator(name_node)
            },
            None => String::new(),
        }
    } else {
        String::new()
    }
}

/// The last part of a scoped type name.
fn get_name_from_scoped_type_identifier(node: &SyntaxNode) -> (r: String)
    ensures
        r@ == scoped_text(*node),
{
    match node.child_by_field_name(NAME) {
        Some(name_node) => name_node.value_or_empty(),
        None => String::new(),
    }
}

/// The name of a type from its name node: plain, scoped or templated.
fn get_name_from_class_name_node(node: &SyntaxNode) -> (r: String)
    ensures
        r@ == class_name_text(*node),
    decreases node,
{
    if node.is_kind(TYPE_IDENTIFIER) {
        node.value_or_empty()
    } else if (node.is_kind(SCOPED_TYPE_IDENTIFIER) || node.is_kind(QUALIFIED_IDENTIFIER)) {
        get_name_from_scoped_type_identifier(node)
    } else if node.is_kind(TEMPLATE_TYPE) {
        match node.child_by_field_name(NAME) {
            Some(name_node) => {
                proof { lemma_child_smaller(node, |c: SyntaxNode| has_field(c, NAME@), name_node); }
                get_name_from_class_name_node(name_node)
            },
            None => String::new(),
        }
    } else {
        String::new()
    }
}

/// The called name and the receiver of a call's function part; the
/// receiver is empty when there is none.
fn get_method_and_var_from_expression(node: &SyntaxNode) -> (r: (String, String)) {
    if node.is_kind(IDENTIFIER) {
        (node.value_or_empty(), String::new())
    } else if node.is_kind(TEMPLATE_FUNCTION) || (node.is_kind(SCOPED_IDENTIFIER) || node.is_kind(QUALIFIED_IDENTIFIER)) {
        (get_name_from_template_or_scoped_node(node), String::new())
    } else if node.is_kind(FIELD_EXPRESSION) {
        get_method_and_var_from_field_expression(node)
    } else {
        (String::new(), String::new())
    }
}

/// The member and the object of `x.f` or `p->f`.
fn get_method_and_var_from_field_expression(node: &SyntaxNode) -> (r: (String, String)) {
    let method_name = match node.child_by_field_name(FIELD) {
        Some(field) => field.value_or_empty(),
        None => String::new(),
    };
    let var_name = match node.child_by_field_name(ARGUMENT) {
        Some(argument) => if argument.is_kind(IDENTIFIER) {
            argument.value_or_empty()
        } else if argument.is_kind(TEMPLATE_FUNCTION) || (argument.is_kind(SCOPED_IDENTIFIER) || argument.is_kind(QUALIFIED_IDENTIFIER)) {
            get_name_from_template_or_scoped_node(argument)
        } else {
            String::new()
        },
        None => String::new(),
    };
    (method_name, var_name)
}

/// The last identifier of a scoped or templated name.
fn get_name_from_template_or_scoped_node(node: &SyntaxNode) -> String
    decreases node,
{
    match node.child_by_field_name(NAME) {
        Some(name_node) => if name_node.is_kind(IDENTIFIER) {
            name_node.value_or_empty()
        } else if (name_node.is_kind(SCOPED_IDENTIFIER) || name_node.is_kind(QUALIFIED_IDENTIFIER)) {
            proof { lemma_child_smaller(node, |c: SyntaxNode| has_field(c, NAME@), name_node); }
            get_name_from_template_or_scoped_node(name_node)
        } else {
            String::new()
        },
        None => String::new(),
    }
}

} // verus!
