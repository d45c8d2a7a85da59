//! The invocation pass for Java: imports, the symbol table, and the
//! resolution of method calls and object creations.
use vstd::prelude::*;
use crate::dto::invocation_structure::{texts, InvocationStructure};
use crate::dto::object_description::{PackageDescription, VarDescription};
use crate::model::java_object::CodeType;
use crate::visitor::java_declaration_visitor::java_package_of;
use crate::syntax::{first_such, has_field, lemma_child_smaller, lemma_first_of_smaller, named_count, text_or_empty, SyntaxNode};
use crate::visitor::symbols::{
    imports_of,
    lemma_super_entries_refl, lemma_super_entries_trans, super_entries, keeps, lemma_keeps_refl, lemma_keeps_trans, links_of, merged_imports, resolve, SymbolTable,
};

verus! {

const LOCAL_VARIABLE_DECLARATION: &'static str = "local_variable_declaration";
const SCOPED_TYPE_IDENTIFIER: &'static str = "scoped_type_identifier";
const METHOD_INVOCATION: &'static str = "method_invocation";
const OBJECT_CREATION_EXPRESSION: &'static str = "object_creation_expression";
const PACKAGE_DECLARATION: &'static str = "package_declaration";
const IMPORT_DECLARATION: &'static str = "import_declaration";
const INTERFACE_DECLARATION: &'static str = "interface_declaration";
const CLASS_DECLARATION: &'static str = "class_declaration";
const CONSTRUCTOR_DECLARATION: &'static str = "constructor_declaration";
const ENUM_DECLARATION: &'static str = "enum_declaration";
const METHOD_DECLARATION: &'static str = "method_declaration";
const SCOPED_IDENTIFIER: &'static str = "scoped_identifier";
const ENUM_BODY_DECLARATIONS: &'static str = "enum_body_declarations";
const FORMAL_PARAMETER: &'static str = "formal_parameter";
const VARIABLE_DECLARATOR: &'static str = "variable_declarator";
const IDENTIFIER: &'static str = "identifier";
const ASTERISK: &'static str = "asterisk";
const FIELD_DECLARATION: &'static str = "field_declaration";
const TYPE_IDENTIFIER: &'static str = "type_identifier";
const GENERIC_TYPE: &'static str = "generic_type";
const INTERFACE_TYPE_LIST: &'static str = "interface_type_list";
const TYPE_LIST: &'static str = "type_list";
const STATIC_INITIALIZER: &'static str = "static_initializer";
const BLOCK: &'static str = "block";
const ERROR: &'static str = "ERROR";
const THIS: &'static str = "this";
const SUPER_CLASS: &'static str = "super";
const OBJECT: &'static str = "object";
const NAME: &'static str = "name";
const SCOPE: &'static str = "scope";
const BODY: &'static str = "body";
const TYPE: &'static str = "type";
const ARGUMENTS: &'static str = "arguments";
const PARAMETERS: &'static str = "parameters";
const DECLARATOR: &'static str = "declarator";
const SUPERCLASS: &'static str = "superclass";
const INTERFACES: &'static str = "interfaces";

/// The receiver of a method call: the text of its `object` field, or
/// `this` when there is none or its text is absent.
pub open spec fn receiver_of(node: SyntaxNode) -> Seq<char> {
    match node.child_by_field_name_spec("object"@) {
        Some(o) => match o.text {
            Some(v) => v@,
            None => "this"@,
        },
        None => "this"@,
    }
}

/// How many arguments a call passes: the named children of its
/// `arguments` field.
pub open spec fn argument_count(node: SyntaxNode) -> nat {
    match node.child_by_field_name_spec("arguments"@) {
        Some(a) => named_count(a),
        None => 0,
    }
}

/// What an import declaration imports: a package and one type of it, or
/// (for `.*`) the package with no type; `None` when its parts cannot be
/// found.
pub open spec fn import_target(node: SyntaxNode) -> Option<(Seq<char>, Option<Seq<char>>)> {
    let all_classes = node.child_by_kind_spec("asterisk"@) is Some;
    let scoped = match node.child_by_kind_spec("scoped_identifier"@) {
        Some(n) => Some(n),
        None => if all_classes { node.child_by_kind_spec("identifier"@) } else { None },
    };
    match scoped {
        Some(n) => if !all_classes {
            match (n.child_by_field_name_spec("name"@), n.child_by_field_name_spec("scope"@)) {
                (Some(c), Some(p)) => Some((text_or_empty(p), Some(text_or_empty(c)))),
                _ => None,
            }
        } else {
            match n.text {
                Some(t) => Some((t@, None)),
                None => None,
            }
        },
        None => None,
    }
}

/// The name of a written type: the type identifier itself, or the first
/// one found through generic and scoped types; empty when there is none.
pub open spec fn type_name_text(n: SyntaxNode) -> Seq<char>
    decreases n,
{
    proof {
        lemma_first_of_smaller(n, |c: SyntaxNode| c.kind@ == "generic_type"@);
        lemma_first_of_smaller(n, |c: SyntaxNode| c.kind@ == "scoped_type_identifier"@);
    }
    if n.kind@ == "type_identifier"@ {
        text_or_empty(n)
    } else if n.child_by_kind_spec("type_identifier"@) is Some {
        text_or_empty(n.child_by_kind_spec("type_identifier"@)->0)
    } else if n.child_by_kind_spec("generic_type"@) is Some {
        type_name_text(n.child_by_kind_spec("generic_type"@)->0)
    } else if n.child_by_kind_spec("scoped_type_identifier"@) is Some {
        type_name_text(n.child_by_kind_spec("scoped_type_identifier"@)->0)
    } else {
        Seq::empty()
    }
}

/// The type names of the named nodes of `s`, in order.
pub open spec fn named_type_names(s: Seq<SyntaxNode>) -> Seq<Seq<char>>
    decreases s.len(),
{
    if s.len() == 0 {
        Seq::empty()
    } else if s.last().named {
        named_type_names(s.drop_last()).push(type_name_text(s.last()))
    } else {
        named_type_names(s.drop_last())
    }
}

/// The interface names of a type's `interfaces` field, in order.
pub open spec fn interface_names(i: SyntaxNode) -> Seq<Seq<char>> {
    match i.child_by_kind_spec("interface_type_list"@) {
        Some(l) => named_type_names(l.children@),
        None => match i.child_by_kind_spec("type_list"@) {
            Some(l) => named_type_names(l.children@),
            None => Seq::empty(),
        },
    }
}

/// The parents of a type declaration: its superclass, then its interfaces.
pub open spec fn parent_names(node: SyntaxNode) -> Seq<Seq<char>> {
    (match node.child_by_field_name_spec("superclass"@) {
        Some(s) => seq![type_name_text(s)],
        None => Seq::empty(),
    }) + match node.child_by_field_name_spec("interfaces"@) {
        Some(i) => interface_names(i),
        None => Seq::empty(),
    }
}

/// `after` holds, right after the entries that `before` had and those of
/// the type's `parents`, a type entry for `name` in `package` declared at
/// `line` and `column` with those parents in order, and, after the bindings
/// `before` had and those of the parents, a binding of `this` to the type.
pub open spec fn records_type(
    before: SymbolTable,
    after: SymbolTable,
    package: Seq<char>,
    name: Seq<char>,
    line: usize,
    column: usize,
    parents: Seq<Seq<char>>,
) -> bool {
    let k = before.package_descriptions@.len() + parents.len();
    let v = before.var_descriptions@.len() + parents.len();
    &&& k < after.package_descriptions@.len()
    &&& after.package_descriptions@[k as int].description_data.class_name@ == name
    &&& after.package_descriptions@[k as int].description_data.package_name@ == package
    &&& after.package_descriptions@[k as int].description_data.line == line
    &&& after.package_descriptions@[k as int].description_data.position == column
    &&& texts(after.package_descriptions@[k as int].parents@) == parents
    &&& forall|i: int| 0 <= i < parents.len() ==>
        (#[trigger] after.package_descriptions@[before.package_descriptions@.len() + i]).description_data.class_name@ == parents[i]
    &&& v < after.var_descriptions@.len()
    &&& after.var_descriptions@[v as int].var_name@ == "this"@
    &&& after.var_descriptions@[v as int].description_data.class_name@ == name
    &&& after.var_descriptions@[v as int].description_data.package_name@ == package
}

/// The imports after those that the top-level nodes of `s` make, in order,
/// starting from `acc`; error nodes are searched as if they were not there.
pub open spec fn imports_after(
    s: Seq<SyntaxNode>,
    acc: Seq<(Seq<char>, Seq<Seq<char>>)>,
) -> Seq<(Seq<char>, Seq<Seq<char>>)>
    decreases s, 1nat,
{
    if s.len() == 0 {
        acc
    } else {
        node_imports(s[s.len() - 1], imports_after(s.subrange(0, s.len() - 1), acc))
    }
}

/// The imports after the one top-level node `c` makes, from `acc`.
pub open spec fn node_imports(
    c: SyntaxNode,
    acc: Seq<(Seq<char>, Seq<Seq<char>>)>,
) -> Seq<(Seq<char>, Seq<Seq<char>>)>
    decreases c, 2nat,
{
    if !c.named {
        acc
    } else if c.kind@ == "import_declaration"@ {
        match import_target(c) {
            Some((package, class)) => merged_imports(acc, package, class),
            None => acc,
        }
    } else if c.kind@ == "ERROR"@ {
        imports_after(c.children@, acc)
    } else {
        acc
    }
}

/// Whether no call or object creation stands anywhere in `n`.
pub open spec fn call_free(n: SyntaxNode) -> bool
    decreases n,
{
    &&& n.kind@ != "method_invocation"@
    &&& n.kind@ != "object_creation_expression"@
    &&& forall|i: int| 0 <= i < n.children@.len() ==> call_free(#[trigger] n.children@[i])
}

proof fn lemma_free_index(n: SyntaxNode, i: int)
    requires
        0 <= i < n.children@.len(),
    ensures
        call_free(n) ==> call_free(n.children@[i]),
{
}

proof fn lemma_child_free(node: &SyntaxNode, p: spec_fn(SyntaxNode) -> bool, c: &SyntaxNode)
    requires
        first_such(node.children@, p, Some(c)),
    ensures
        call_free(*node) ==> call_free(*c),
{
    let i = choose|i: int|
        0 <= i < node.children@.len() && node.children@[i] == *c && p(node.children@[i])
        && forall|j: int| 0 <= j < i ==> !p(#[trigger] node.children@[j]);
    lemma_free_index(*node, i);
}

/// The lengths of the top-level kind names, which tell them apart.
proof fn lemma_root_kinds()
    ensures
        "import_declaration"@.len() == 18,
        "enum_declaration"@.len() == 16,
        "class_declaration"@.len() == 17,
        "interface_declaration"@.len() == 21,
        "ERROR"@.len() == 5,
{
    reveal_strlit("import_declaration");
    reveal_strlit("enum_declaration");
    reveal_strlit("class_declaration");
    reveal_strlit("interface_declaration");
    reveal_strlit("ERROR");
}

/// The name of a file's package, empty when it declares none.
pub open spec fn file_package(root: SyntaxNode) -> Seq<char> {
    match java_package_of(root) {
        Some((name, _)) => name,
        None => Seq::empty(),
    }
}

/// The imports and navigation links of a parsed Java file. The file's own
/// package comes first among the imports; the type codes are Java's.
pub fn get_file_structure(root: &SyntaxNode) -> (r: InvocationStructure)
    ensures
        texts(r.type_codes@) == CodeType::type_codes_spec(),
        imports_of(r.repository_import_declarations@)
            == imports_after(root.children@, seq![(file_package(*root), Seq::<Seq<char>>::empty())]),
        r.repository_import_declarations@.len() >= 1,
        r.repository_import_declarations@[0].package_name@ == file_package(*root),
        call_free(*root) ==> r.method_descriptions@.len() == 0,
{
    let mut table = SymbolTable::new(THIS.to_owned(), '.');
    add_package_declaration(&mut table, root);
    let ghost t0 = table;
    parse_root_node(root, &mut table);
    proof {
        assert(table.imports().len() >= 1);
        assert(table.imports()[0].0 == t0.imports()[0].0);
    }
    let (imports, links) = table.take();
    InvocationStructure::new(imports, links, CodeType::type_codes())
}

/// Walks the top-level declarations of the file.
fn parse_root_node(node: &SyntaxNode, t: &mut SymbolTable)
    requires
        old(t).wf(),
    ensures
        keeps(*old(t), *final(t)),
        call_free(*node) ==> final(t).links == old(t).links,
        final(t).imports() == imports_after(node.children@, old(t).imports()),
    decreases node, 3nat,
{
    proof { lemma_keeps_refl(*t); }
    let mut i: usize = 0;
    assert(node.children@.subrange(0, 0) =~= Seq::<SyntaxNode>::empty());
    while i < node.children.len()
        invariant
            i <= node.children@.len(),
            keeps(*old(t), *t),
            call_free(*node) ==> t.links == old(t).links,
            t.imports() == imports_after(node.children@.subrange(0, i as int), old(t).imports()),
        decreases node.children@.len() - i,
    {
        let ghost before = *t;
        let child = &node.children[i];
        proof {
            assert(decreases_to!(node => node.children));
            assert(decreases_to!(node.children => node.children@));
            assert(decreases_to!(node.children@ => node.children@[i as int]));
            lemma_free_index(*node, i as int);
            lemma_keeps_refl(*t);
        }
        proof { lemma_root_kinds(); }
        if child.named {
            if child.is_kind(IMPORT_DECLARATION) {
                add_import_declaration(child, t);
                assert(t.imports() == node_imports(*child, before.imports()));
            } else if child.is_kind(ENUM_DECLARATION) {
                add_enum_declaration(child, t);
                assert(child.kind@ != "import_declaration"@ && child.kind@ != "ERROR"@);
                assert(t.imports() == before.imports());
                assert(t.imports() == node_imports(*child, before.imports()));
            } else if child.is_kind(CLASS_DECLARATION) || child.is_kind(INTERFACE_DECLARATION) {
                add_class_or_interface_declaration(child, t);
                assert(child.kind@ != "import_declaration"@ && child.kind@ != "ERROR"@);
                assert(t.imports() == before.imports());
                assert(t.imports() == node_imports(*child, before.imports()));
            } else if child.is_kind(ERROR) {
                parse_root_node(child, t);
                assert(t.imports() == node_imports(*child, before.imports()));
            } else {
                assert(t.imports() == node_imports(*child, before.imports()));
            }
        }
        proof {
            lemma_keeps_trans(*old(t), before, *t);
            let seen = node.children@.subrange(0, i + 1);
            assert(seen.subrange(0, seen.len() - 1) =~= node.children@.subrange(0, i as int));
            assert(seen[seen.len() - 1] == *child);
            assert(t.imports() == node_imports(*child, before.imports()));
        }
        i = i + 1;
    }
    assert(node.children@.subrange(0, i as int) =~= node.children@);
}

/// Walks the members of a type body; `class_name` is the enclosing type.
fn parse_class_body(node: &SyntaxNode, t: &mut SymbolTable, class_name: &String)
    requires
        old(t).wf(),
    ensures
        keeps(*old(t), *final(t)),
        call_free(*node) ==> final(t).links == old(t).links,
        final(t).import_declarations == old(t).import_declarations,
    decreases node, 3nat,
{
    proof { lemma_keeps_refl(*t); }
    let mut i: usize = 0;
    while i < node.children.len()
        invariant
            i <= node.children@.len(),
            keeps(*old(t), *t),
            call_free(*node) ==> t.links == old(t).links,
            t.import_declarations == old(t).import_declarations,
        decreases node.children@.len() - i,
    {
        let ghost before = *t;
        let child = &node.children[i];
        proof {
            assert(decreases_to!(node => node.children));
            assert(decreases_to!(node.children => node.children@));
            assert(decreases_to!(node.children@ => node.children@[i as int]));
            lemma_free_index(*node, i as int);
            lemma_keeps_refl(*t);
        }
        if child.named {
            if child.is_kind(INTERFACE_DECLARATION) || child.is_kind(CLASS_DECLARATION) {
                add_class_or_interface_declaration(child, t);
            } else if child.is_kind(ENUM_DECLARATION) {
                add_enum_declaration(child, t);
            } else if child.is_kind(FIELD_DECLARATION) {
                add_field_declaration(child, t, class_name);
            } else if child.is_kind(METHOD_DECLARATION) || child.is_kind(CONSTRUCTOR_DECLARATION) {
                add_method_or_constr_declaration(child, t, class_name);
            } else if child.is_kind(STATIC_INITIALIZER) {
                add_static_initializer(child, t, class_name);
            } else if child.is_kind(ERROR) {
                parse_class_body(child, t, class_name);
            }
        }
        proof { lemma_keeps_trans(*old(t), before, *t); }
        i = i + 1;
    }
}

/// Walks statements and expressions below `node`, recording local
/// variables and resolving calls, inside type `class_name`.
fn parse_node(node: &SyntaxNode, t: &mut SymbolTable, class_name: &String)
    requires
        old(t).wf(),
    ensures
        keeps(*old(t), *final(t)),
        call_free(*node) ==> final(t).links == old(t).links,
        final(t).import_declarations == old(t).import_declarations,
    decreases node, 2nat,
{
    proof { lemma_keeps_refl(*t); }
    let mut i: usize = 0;
    while i < node.children.len()
        invariant
            i <= node.children@.len(),
            keeps(*old(t), *t),
            call_free(*node) ==> t.links == old(t).links,
            t.import_declarations == old(t).import_declarations,
        decreases node.children@.len() - i,
    {
        let ghost before = *t;
        let statement = &node.children[i];
        proof {
            assert(decreases_to!(node => node.children));
            assert(decreases_to!(node.children => node.children@));
            assert(decreases_to!(node.children@ => node.children@[i as int]));
            lemma_free_index(*node, i as int);
            lemma_keeps_refl(*t);
        }
        if statement.named {
            if statement.is_kind(LOCAL_VARIABLE_DECLARATION) {
                add_variable_declaration(statement, t);
            } else if statement.is_kind(METHOD_INVOCATION) {
                add_method_invocation(statement, t, class_name);
            } else if statement.is_kind(OBJECT_CREATION_EXPRESSION) {
                add_object_creation_expression(statement, node, t);
            }
            let ghost mid = *t;
            parse_node(statement, t, class_name);
            proof { lemma_keeps_trans(before, mid, *t); }
        }
        proof { lemma_keeps_trans(*old(t), before, *t); }
        i = i + 1;
    }
}

/// Walks the block of a static initializer.
fn add_static_initializer(node: &SyntaxNode, t: &mut SymbolTable, class_name: &String)
    requires
        old(t).wf(),
    ensures
        keeps(*old(t), *final(t)),
        call_free(*node) ==> final(t).links == old(t).links,
        final(t).import_declarations == old(t).import_declarations,
    decreases node, 1nat,
{
    match node.child_by_kind(BLOCK) {
        Some(block) => {
            proof { lemma_child_smaller(node, |c: SyntaxNode| c.kind@ == BLOCK@, block); lemma_child_free(node, |c: SyntaxNode| c.kind@ == BLOCK@, block); }
            parse_node(block, t, class_name);
        },
        None => {
            proof { lemma_keeps_refl(*t); }
        },
    }
}

/// Records an enum type and walks its members.
#[verifier::rlimit(60)]
fn add_enum_declaration(node: &SyntaxNode, t: &mut SymbolTable)
    requires
        old(t).wf(),
    ensures
        keeps(*old(t), *final(t)),
        call_free(*node) ==> final(t).links == old(t).links,
        final(t).import_declarations == old(t).import_declarations,
        node.child_by_field_name_spec("name"@) matches Some(n) ==> records_type(
            *old(t), *final(t), old(t).current_package@, text_or_empty(n), n.line, n.column, parent_names(*node)),
    decreases node, 1nat,
{
    let name_node = match node.child_by_field_name(NAME) {
        Some(n) => n,
        None => {
            proof { lemma_keeps_refl(*t); }
            return;
        },
    };
    let class_name = name_node.value_or_empty();
    let mut package_description = PackageDescription::new(
        t.get_current_package(), class_name.clone(), name_node.line, name_node.column, Vec::new());
    let var_description = VarDescription::new(
        t.get_current_package(), class_name.clone(), name_node.line, name_node.column, THIS.to_owned());
    let ghost t0 = *t;
    add_parents(node, t, &mut package_description);
    let ghost t1 = *t;
    let ghost k = t.package_descriptions@.len() as int;
    t.add_package_description(package_description);
    let ghost t2 = *t;
    let ghost v = t.var_descriptions@.len() as int;
    t.add_var_description_entry(var_description);
    proof {
        lemma_keeps_trans(t0, t1, t2);
        lemma_keeps_trans(t0, t2, *t);
    }
    let ghost t3 = *t;
    assert(records_type(*old(t), t3, old(t).current_package@, class_name@, name_node.line, name_node.column,
        parent_names(*node))) by {
        assert(t3.package_descriptions@[k].description_data.class_name@ == class_name@);
        assert(t3.var_descriptions@[v].var_name@ == "this"@);
        assert forall|i: int| 0 <= i < parent_names(*node).len() implies
            (#[trigger] t3.package_descriptions@[old(t).package_descriptions@.len() + i]).description_data.class_name@
                == parent_names(*node)[i] by {
            assert(t3.package_descriptions@[old(t).package_descriptions@.len() + i]
                == t1.package_descriptions@[old(t).package_descriptions@.len() + i]);
        }
    }
    let body = match node.child_by_field_name(BODY) {
        Some(b) => b,
        None => return,
    };
    proof { lemma_child_smaller(node, |c: SyntaxNode| has_field(c, BODY@), body); lemma_child_free(node, |c: SyntaxNode| has_field(c, BODY@), body); }
    match body.child_by_kind(ENUM_BODY_DECLARATIONS) {
        Some(declarations) => {
            proof { lemma_child_smaller(body, |c: SyntaxNode| c.kind@ == ENUM_BODY_DECLARATIONS@, declarations); lemma_child_free(body, |c: SyntaxNode| c.kind@ == ENUM_BODY_DECLARATIONS@, declarations); }
            parse_class_body(declarations, t, &class_name);
            proof { lemma_keeps_trans(t0, t3, *t); }
            assert(t.package_descriptions@[k] == t3.package_descriptions@[k]);
            assert(t.var_descriptions@[v] == t3.var_descriptions@[v]);
            assert forall|i: int| 0 <= i < parent_names(*node).len() implies
                (#[trigger] t.package_descriptions@[old(t).package_descriptions@.len() + i]).description_data.class_name@
                    == parent_names(*node)[i] by {
                assert(t.package_descriptions@[old(t).package_descriptions@.len() + i]
                    == t3.package_descriptions@[old(t).package_descriptions@.len() + i]);
            }
        },
        None => {},
    }
}

/// Records the superclass and the interfaces of a type declaration as the
/// parents of `child`.
fn add_parents(node: &SyntaxNode, t: &mut SymbolTable, child: &mut PackageDescription)
    requires
        old(t).wf(),
    ensures
        keeps(*old(t), *final(t)),
        final(t).links == old(t).links,
        final(t).import_declarations == old(t).import_declarations,
        final(child).description_data == old(child).description_data,
        texts(final(child).parents@) == texts(old(child).parents@) + parent_names(*node),
        super_entries(*old(t), *final(t), old(t).current_package@, parent_names(*node)),
{
    let ghost t0 = *t;
    let ghost package = t.current_package@;
    proof {
        lemma_keeps_refl(*t);
        lemma_super_entries_refl(*t, package);
        assert(texts(child.parents@) =~= texts(child.parents@) + Seq::<Seq<char>>::empty());
    }
    let ghost first = match node.child_by_field_name_spec(SUPERCLASS@) {
        Some(s) => seq![type_name_text(s)],
        None => Seq::<Seq<char>>::empty(),
    };
    let ghost second = match node.child_by_field_name_spec(INTERFACES@) {
        Some(i) => interface_names(i),
        None => Seq::<Seq<char>>::empty(),
    };
    match node.child_by_field_name(SUPERCLASS) {
        Some(super_node) => add_var_description_from_super_class(super_node, t, child),
        None => {},
    }
    let ghost t1 = *t;
    match node.child_by_field_name(INTERFACES) {
        Some(interfaces_node) => add_var_descriptions_from_interfaces(interfaces_node, t, child),
        None => {
            proof {
                lemma_keeps_refl(*t);
                lemma_super_entries_refl(*t, package);
                assert(texts(child.parents@) =~= texts(child.parents@) + Seq::<Seq<char>>::empty());
            }
        },
    }
    proof {
        lemma_keeps_trans(t0, t1, *t);
        lemma_super_entries_trans(t0, t1, *t, package, first, second);
        assert(parent_names(*node) == first + second);
        assert(texts(child.parents@) =~= texts(old(child).parents@) + (first + second));
    }
}


/// Records a field and walks its initializer.
fn add_field_declaration(node: &SyntaxNode, t: &mut SymbolTable, parent_class_name: &String)
    requires
        old(t).wf(),
    ensures
        keeps(*old(t), *final(t)),
        call_free(*node) ==> final(t).links == old(t).links,
        final(t).import_declarations == old(t).import_declarations,
    decreases node, 1nat,
{
    let ghost t0 = *t;
    add_variable_declaration(node, t);
    let ghost t1 = *t;
    parse_node(node, t, parent_class_name);
    proof { lemma_keeps_trans(t0, t1, *t); }
}

/// Records the parameters of a method or constructor and walks its body.
fn add_method_or_constr_declaration(node: &SyntaxNode, t: &mut SymbolTable, class_name: &String)
    requires
        old(t).wf(),
    ensures
        keeps(*old(t), *final(t)),
        call_free(*node) ==> final(t).links == old(t).links,
        final(t).import_declarations == old(t).import_declarations,
    decreases node, 1nat,
{
    let parameters = match node.child_by_field_name(PARAMETERS) {
        Some(p) => p,
        None => {
            proof { lemma_keeps_refl(*t); }
            return;
        },
    };
    let ghost t0 = *t;
    add_parameters(parameters, t);
    match node.child_by_field_name(BODY) {
        Some(body) => {
            proof { lemma_child_smaller(node, |c: SyntaxNode| has_field(c, BODY@), body); lemma_child_free(node, |c: SyntaxNode| has_field(c, BODY@), body); }
            let ghost t1 = *t;
            parse_node(body, t, class_name);
            proof { lemma_keeps_trans(t0, t1, *t); }
        },
        None => {},
    }
}

/// Resolves a method call: the receiver is the `object` field, or `this`
/// when there is none.
fn add_method_invocation(node: &SyntaxNode, t: &mut SymbolTable, class_name: &String)
    requires
        old(t).wf(),
    ensures
        keeps(*old(t), *final(t)),
        final(t).import_declarations == old(t).import_declarations,
        match node.child_by_field_name_spec("name"@) {
            Some(name_node) => links_of(final(t).links@) == links_of(old(t).links@) + resolve(
                old(t).var_descriptions@,
                old(t).package_descriptions@,
                old(t).current_package@,
                old(t).self_word@,
                old(t).scope_mark,
                receiver_of(*node),
                text_or_empty(name_node),
                class_name@,
                argument_count(*node) as usize,
                node.line,
                node.column,
            ),
            None => final(t).links == old(t).links,
        },
{
    let name_node = match node.child_by_field_name(NAME) {
        Some(n) => n,
        None => {
            proof { lemma_keeps_refl(*t); }
            return;
        },
    };
    let method_name = name_node.value_or_empty();
    let var_name = var_name_from_invocation_or_this(node);
    let count = count_params_from_node(node);
    t.add_navigation_link(&var_name, &method_name, class_name, count, node.line, node.column);
}

/// Resolves an object creation as a call of the created type's constructor.
fn add_object_creation_expression(node: &SyntaxNode, parent: &SyntaxNode, t: &mut SymbolTable)
    requires
        old(t).wf(),
    ensures
        keeps(*old(t), *final(t)),
        final(t).import_declarations == old(t).import_declarations,
{
    let type_node = match node.child_by_field_name(TYPE) {
        Some(n) => n,
        None => {
            proof { lemma_keeps_refl(*t); }
            return;
        },
    };
    let method_name = get_name_from_node(type_node);
    let var_name = var_name_from_obj_parent_or_this(parent);
    let count = count_params_from_node(node);
    t.add_navigation_link(&var_name, &method_name, &method_name, count, node.line, node.column);
}

/// Binds the declared variable to its written type.
fn add_variable_declaration(node: &SyntaxNode, t: &mut SymbolTable)
    requires
        old(t).wf(),
    ensures
        keeps(*old(t), *final(t)),
        final(t).links == old(t).links,
        final(t).import_declarations == old(t).import_declarations,
{
    proof { lemma_keeps_refl(*t); }
    let type_node = match node.child_by_field_name(TYPE) {
        Some(n) => n,
        None => return,
    };
    let declarator = match node.child_by_field_name(DECLARATOR) {
        Some(n) => n,
        None => return,
    };
    let name_node = match declarator.child_by_field_name(NAME) {
        Some(n) => n,
        None => return,
    };
    t.add_var_description(type_node.value_or_empty(), name_node.value_or_empty(), node.line, node.column);
}

/// Binds each formal parameter to its type.
fn add_parameters(node: &SyntaxNode, t: &mut SymbolTable)
    requires
        old(t).wf(),
    ensures
        keeps(*old(t), *final(t)),
        final(t).links == old(t).links,
        final(t).import_declarations == old(t).import_declarations,
{
    proof { lemma_keeps_refl(*t); }
    let mut i: usize = 0;
    while i < node.children.len()
        invariant
            i <= node.children@.len(),
            keeps(*old(t), *t),
            t.links == old(t).links,
            t.import_declarations == old(t).import_declarations,
        decreases node.children@.len() - i,
    {
        let child = &node.children[i];
        if child.named && child.is_kind(FORMAL_PARAMETER) {
            let ghost before = *t;
            add_formal_parameter(child, t);
            proof { lemma_keeps_trans(*old(t), before, *t); }
        }
        i = i + 1;
    }
}

/// Binds one formal parameter to its type.
fn add_formal_parameter(node: &SyntaxNode, t: &mut SymbolTable)
    requires
        old(t).wf(),
    ensures
        keeps(*old(t), *final(t)),
        final(t).links == old(t).links,
        final(t).import_declarations == old(t).import_declarations,
{
    proof { lemma_keeps_refl(*t); }
    let type_node = match node.child_by_field_name(TYPE) {
        Some(n) => n,
        None => return,
    };
    let name_node = match node.child_by_field_name(NAME) {
        Some(n) => n,
        None => return,
    };
    t.add_var_description(type_node.value_or_empty(), name_node.value_or_empty(), node.line, node.column);
}

/// Records a class or interface, with its parents and the binding of
/// `this` to it, and walks its body.
fn add_class_or_interface_declaration(node: &SyntaxNode, t: &mut SymbolTable)
    requires
        old(t).wf(),
    ensures
        keeps(*old(t), *final(t)),
        call_free(*node) ==> final(t).links == old(t).links,
        final(t).import_declarations == old(t).import_declarations,
        node.child_by_field_name_spec("name"@) matches Some(n) ==> records_type(
            *old(t), *final(t), old(t).current_package@, text_or_empty(n), n.line, n.column, parent_names(*node)),
    decreases node, 1nat,
{
    let name_node = match node.child_by_field_name(NAME) {
        Some(n) => n,
        None => {
            proof { lemma_keeps_refl(*t); }
            return;
        },
    };
    let class_name = name_node.value_or_empty();
    let package_name = t.get_current_package();
    let mut package_description = PackageDescription::new(
        package_name.clone(), class_name.clone(), name_node.line, name_node.column, Vec::new());
    let var_description = VarDescription::new(
        package_name, class_name.clone(), name_node.line, name_node.column, THIS.to_owned());
    let ghost t0 = *t;
    add_parents(node, t, &mut package_description);
    let ghost t1 = *t;
    let ghost v = t.var_descriptions@.len() as int;
    t.add_var_description_entry(var_description);
    let ghost t2 = *t;
    let ghost k = t.package_descriptions@.len() as int;
    t.add_package_description(package_description);
    proof {
        lemma_keeps_trans(t0, t1, t2);
        lemma_keeps_trans(t0, t2, *t);
    }
    let ghost t3 = *t;
    assert(records_type(*old(t), t3, old(t).current_package@, class_name@, name_node.line, name_node.column,
        parent_names(*node))) by {
        assert(t3.package_descriptions@[k].description_data.class_name@ == class_name@);
        assert(t3.var_descriptions@[v].var_name@ == "this"@);
        assert forall|i: int| 0 <= i < parent_names(*node).len() implies
            (#[trigger] t3.package_descriptions@[old(t).package_descriptions@.len() + i]).description_data.class_name@
                == parent_names(*node)[i] by {
            assert(t3.package_descriptions@[old(t).package_descriptions@.len() + i]
                == t1.package_descriptions@[old(t).package_descriptions@.len() + i]);
        }
    }
    match node.child_by_field_name(BODY) {
        Some(body) => {
            proof { lemma_child_smaller(node, |c: SyntaxNode| has_field(c, BODY@), body); lemma_child_free(node, |c: SyntaxNode| has_field(c, BODY@), body); }
            parse_class_body(body, t, &class_name);
            proof { lemma_keeps_trans(t0, t3, *t); }
            assert(t.package_descriptions@[k] == t3.package_descriptions@[k]);
            assert(t.var_descriptions@[v] == t3.var_descriptions@[v]);
            assert forall|i: int| 0 <= i < parent_names(*node).len() implies
                (#[trigger] t.package_descriptions@[old(t).package_descriptions@.len() + i]).description_data.class_name@
                    == parent_names(*node)[i] by {
                assert(t.package_descriptions@[old(t).package_descriptions@.len() + i]
                    == t3.package_descriptions@[old(t).package_descriptions@.len() + i]);
            }
        },
        None => {},
    }
}

/// Sets the current package from the file's package declaration and lists
/// it first among the imports.
fn add_package_declaration(t: &mut SymbolTable, root: &SyntaxNode)
    requires
        old(t).wf(),
        old(t).imports().len() == 0,
    ensures
        keeps(*old(t), *final(t)),
        final(t).links == old(t).links,
        final(t).imports().len() == 1,
        final(t).imports()[0].0 == final(t).current_package@,
        final(t).current_package@ == file_package(*root),
        final(t).imports() == seq![(file_package(*root), Seq::<Seq<char>>::empty())],
{
    let mut current_package = String::new();
    match root.child_by_kind(PACKAGE_DECLARATION) {
        Some(declaration) => {
            let mut found = false;
            match declaration.child_by_kind(SCOPED_IDENTIFIER) {
                Some(name_node) => match name_node.value() {
                    Some(v) => {
                        current_package = v;
                        found = true;
                    },
                    None => {},
                },
                None => {},
            }
            if !found {
                match declaration.child_by_kind(IDENTIFIER) {
                    Some(name_node) => match name_node.value() {
                        Some(v) => current_package = v,
                        None => {},
                    },
                    None => {},
                }
            }
        },
        None => {},
    }
    proof {
        if java_package_of(*root) is None {
            assert(current_package@ =~= Seq::<char>::empty());
        }
    }
    let ghost t0 = *t;
    t.add_import(current_package.clone(), None);
    let ghost t1 = *t;
    t.set_current_package(current_package);
    proof { lemma_keeps_trans(t0, t1, *t); }
}

/// Records an import: a single type, or every type of a package (`*`).
fn add_import_declaration(node: &SyntaxNode, t: &mut SymbolTable)
    requires
        old(t).wf(),
    ensures
        keeps(*old(t), *final(t)),
        final(t).links == old(t).links,
        match import_target(*node) {
            Some((package, class)) => final(t).imports() == merged_imports(old(t).imports(), package, class),
            None => final(t).imports() == old(t).imports(),
        },
{
    proof { lemma_keeps_refl(*t); }
    let all_classes = node.child_by_kind(ASTERISK).is_some();
    let scoped_node = match node.child_by_kind(SCOPED_IDENTIFIER) {
        Some(n) => n,
        None => if all_classes {
            match node.child_by_kind(IDENTIFIER) {
                Some(n) => n,
                None => return,
            }
        } else {
            return;
        },
    };
    let package_name;
    let class_name;
    if !all_classes {
        let class_node = match scoped_node.child_by_field_name(NAME) {
            Some(n) => n,
            None => return,
        };
        class_name = Some(class_node.value_or_empty());
        let package_node = match scoped_node.child_by_field_name(SCOPE) {
            Some(n) => n,
            None => return,
        };
        package_name = package_node.value_or_empty();
    } else {
        class_name = None;
        package_name = match scoped_node.value() {
            Some(v) => v,
            None => return,
        };
    }
    let described_class = match &class_name {
        Some(c) => c.clone(),
        None => String::new(),
    };
    let ghost t0 = *t;
    t.add_package_description(PackageDescription::new(package_name.clone(), described_class, node.line, node.column, Vec::new()));
    let ghost t1 = *t;
    t.add_import(package_name, class_name);
    proof { lemma_keeps_trans(t0, t1, *t); }
}

/// Records a parent type of `child`: its entry, the binding of `super` to
/// it, and its name among `child`'s parents.
fn add_var_description_from_super_class(node: &SyntaxNode, t: &mut SymbolTable, child: &mut PackageDescription)
    requires
        old(t).wf(),
    ensures
        keeps(*old(t), *final(t)),
        final(t).links == old(t).links,
        final(t).import_declarations == old(t).import_declarations,
        final(child).description_data == old(child).description_data,
        texts(final(child).parents@) == texts(old(child).parents@).push(type_name_text(*node)),
        super_entries(*old(t), *final(t), old(t).current_package@, seq![type_name_text(*node)]),
{
    let class_name = get_name_from_node(node);
    let package_name = t.get_current_package();
    let ghost t0 = *t;
    t.add_package_description(PackageDescription::new(package_name.clone(), class_name.clone(), node.line, node.column, Vec::new()));
    let ghost t1 = *t;
    t.add_var_description_entry(VarDescription::new(package_name, class_name.clone(), node.line, node.column, SUPER_CLASS.to_owned()));
    proof { lemma_keeps_trans(t0, t1, *t); }
    let ghost before_parents = child.parents@;
    child.add_parent(class_name);
    assert(texts(child.parents@) =~= texts(before_parents).push(type_name_text(*node)));
    assert(t.package_descriptions@.subrange(0, old(t).package_descriptions@.len() as int) =~= old(t).package_descriptions@);
    assert(t.var_descriptions@.subrange(0, old(t).var_descriptions@.len() as int) =~= old(t).var_descriptions@);
    assert(t.package_descriptions@[old(t).package_descriptions@.len() as int] == t.package_descriptions@.last());
}

/// Records each interface of a type declaration as a parent of `child`.
fn add_var_descriptions_from_interfaces(node: &SyntaxNode, t: &mut SymbolTable, child: &mut PackageDescription)
    requires
        old(t).wf(),
    ensures
        keeps(*old(t), *final(t)),
        final(t).links == old(t).links,
        final(t).import_declarations == old(t).import_declarations,
        final(child).description_data == old(child).description_data,
        texts(final(child).parents@) == texts(old(child).parents@) + interface_names(*node),
        super_entries(*old(t), *final(t), old(t).current_package@, interface_names(*node)),
{
    proof {
        lemma_keeps_refl(*t);
        lemma_super_entries_refl(*t, t.current_package@);
        assert(texts(child.parents@) =~= texts(child.parents@) + Seq::<Seq<char>>::empty());
    }
    let interface_list = match node.child_by_kind(INTERFACE_TYPE_LIST) {
        Some(n) => n,
        None => match node.child_by_kind(TYPE_LIST) {
            Some(n) => n,
            None => return,
        },
    };
    assert(interface_names(*node) == named_type_names(interface_list.children@));
    let ghost package = old(t).current_package@;
    let mut i: usize = 0;
    assert(interface_list.children@.subrange(0, 0) =~= Seq::<SyntaxNode>::empty());
    while i < interface_list.children.len()
        invariant
            i <= interface_list.children@.len(),
            keeps(*old(t), *t),
            t.links == old(t).links,
            t.import_declarations == old(t).import_declarations,
            package == old(t).current_package@,
            child.description_data == old(child).description_data,
            texts(child.parents@) == texts(old(child).parents@) + named_type_names(interface_list.children@.subrange(0, i as int)),
            super_entries(*old(t), *t, package, named_type_names(interface_list.children@.subrange(0, i as int))),
        decreases interface_list.children@.len() - i,
    {
        let ghost seen = interface_list.children@.subrange(0, i + 1);
        assert(seen.drop_last() =~= interface_list.children@.subrange(0, i as int));
        let ghost names = named_type_names(interface_list.children@.subrange(0, i as int));
        let c = &interface_list.children[i];
        if c.named {
            let ghost before = *t;
            let ghost before_parents = child.parents@;
            add_var_description_from_super_class(c, t, child);
            proof {
                lemma_keeps_trans(*old(t), before, *t);
                lemma_super_entries_trans(*old(t), before, *t, package, names, seq![type_name_text(*c)]);
                assert(names + seq![type_name_text(*c)] =~= named_type_names(seen));
                assert(texts(child.parents@) =~= texts(old(child).parents@) + named_type_names(seen));
            }
        }
        i = i + 1;
    }
    assert(interface_list.children@.subrange(0, i as int) =~= interface_list.children@);
}

/// How many arguments a call passes.
fn count_params_from_node(node: &SyntaxNode) -> (r: usize)
    ensures
        r == argument_count(*node),
{
    match node.child_by_field_name(ARGUMENTS) {
        Some(arguments) => arguments.named_child_count(),
        None => 0,
    }
}

/// The receiver of a method call, or `this` when none is written or its
/// text is too long.
fn var_name_from_invocation_or_this(node: &SyntaxNode) -> (r: String)
    ensures
        r@ == receiver_of(*node),
{
    match node.child_by_field_name(OBJECT) {
        Some(object_node) => match object_node.value() {
            Some(v) => v,
            None => THIS.to_owned(),
        },
        None => THIS.to_owned(),
    }
}

/// The variable that an object creation initializes, when `parent` is its
/// declarator; else `this`.
fn var_name_from_obj_parent_or_this(parent: &SyntaxNode) -> (r: String)
    ensures
        parent.kind@ != VARIABLE_DECLARATOR@ ==> r@ == THIS@,
{
    if !parent.is_kind(VARIABLE_DECLARATOR) {
        return THIS.to_owned();
    }
    match parent.child_by_field_name(NAME) {
        Some(name_node) => name_node.value_or_empty(),
        None => THIS.to_owned(),
    }
}

/// The name of a written type: the type identifier itself or the first one
/// found through generic and scoped types.
fn get_name_from_node(node: &SyntaxNode) -> (r: String)
    ensures
        r@ == type_name_text(*node),
    decreases node,
{
    if node.is_kind(TYPE_IDENTIFIER) {
        return node.value_or_empty();
    }
    match node.child_by_kind(TYPE_IDENTIFIER) {
        Some(type_node) => return type_node.value_or_empty(),
        None => {},
    }
    match node.child_by_kind(GENERIC_TYPE) {
        Some(generic) => {
            proof { lemma_child_smaller(node, |c: SyntaxNode| c.kind@ == GENERIC_TYPE@, generic); }
            return get_name_from_node(generic);
        },
        None => {},
    }
    match node.child_by_kind(SCOPED_TYPE_IDENTIFIER) {
        Some(scoped) => {
            proof { lemma_child_smaller(node, |c: SyntaxNode| c.kind@ == SCOPED_TYPE_IDENTIFIER@, scoped); }
            get_name_from_node(scoped)
        },
        None => String::new(),
    }
}

} // verus!
