//! The invocation pass for JavaScript: classes and their parents, and
//! calls.
use vstd::prelude::*;
use crate::dto::invocation_structure::{texts, InvocationStructure};
use crate::dto::object_description::{PackageDescription, VarDescription};
use crate::model::js_object::CodeType;
use crate::syntax::{named_count, same_text, text_or_empty, SyntaxNode};
use crate::visitor::symbols::{keeps, lemma_keeps_refl, lemma_keeps_trans, links_of, resolve, SymbolTable};

verus! {

const CLASS_DECLARATION: &'static str = "class_declaration";
const CLASS_HERITAGE: &'static str = "class_heritage";
const CALL_EXPRESSION: &'static str = "call_expression";
const MEMBER_EXPRESSION: &'static str = "member_expression";
const IDENTIFIER: &'static str = "identifier";
const SUPER: &'static str = "super";
const FUNCTION: &'static str = "function";
const PROPERTY: &'static str = "property";
const OBJECT: &'static str = "object";
const NAME: &'static str = "name";
const ARGUMENTS: &'static str = "arguments";
pub const JQUERY_SIGN: &'static str = "$";
pub const REQUIRE: &'static str = "require";
pub const DEFINE: &'static str = "define";
const THIS: &'static str = "this";

/// The enclosing class of a point of the walk, and the class it extends.
pub struct ClassData {
    pub current_class: String,
    pub current_parent_class: String,
}

impl ClassData {
    pub fn new(current_class: String, current_parent_class: String) -> (r: ClassData)
        ensures
            r.current_class@ == current_class@,
            r.current_parent_class@ == current_parent_class@,
    {
        ClassData { current_class, current_parent_class }
    }

    pub fn get_parent_class(&self) -> (r: String)
        ensures
            r@ == self.current_parent_class@,
    {
        self.current_parent_class.clone()
    }
}

/// What a call expression calls, as (member, receiver, line, column): a
/// plain name has no receiver; `x.f` has `x`; `super` calls the parent
/// class's constructor, named `parent_class`.
pub open spec fn call_target(node: SyntaxNode, parent_class: Seq<char>) -> Option<(Seq<char>, Seq<char>, usize, usize)> {
    match node.child_by_field_name_spec("function"@) {
        Some(f) => if f.kind@ == "identifier"@ {
            Some((text_or_empty(f), Seq::empty(), f.line, f.column))
        } else if f.kind@ == "member_expression"@ {
            match f.child_by_field_name_spec("property"@) {
                Some(p) => Some((
                    text_or_empty(p),
                    match f.child_by_field_name_spec("object"@) {
                        Some(o) => text_or_empty(o),
                        None => Seq::empty(),
                    },
                    p.line,
                    p.column,
                )),
                None => None,
            }
        } else if f.kind@ == "super"@ {
            Some((parent_class, Seq::empty(), f.line, f.column))
        } else {
            None
        },
        None => None,
    }
}

/// How many arguments a call passes.
pub open spec fn argument_count(node: SyntaxNode) -> nat {
    match node.child_by_field_name_spec("arguments"@) {
        Some(a) => named_count(a),
        None => 0,
    }
}

/// Whether a called name is worth a link: not empty, and not `$`,
/// `require` or `define`, which only load code.
pub fn is_name_valid(function_name: &String) -> (r: bool)
    ensures
        r == (function_name@.len() > 0 && function_name@ != JQUERY_SIGN@ && function_name@ != REQUIRE@
            && function_name@ != DEFINE@),
{
    !function_name.as_str().is_empty() && !same_text(function_name, JQUERY_SIGN)
        && !same_text(function_name, REQUIRE) && !same_text(function_name, DEFINE)
}

/// The navigation links of a parsed JavaScript file at `path`, which is
/// the package of everything in it; a JavaScript file lists no imports.
pub fn get_file_structure(root: &SyntaxNode, path: &String) -> (r: InvocationStructure)
    ensures
        r.repository_import_declarations@.len() == 0,
        texts(r.type_codes@) == CodeType::type_codes_spec(),
{
    let mut table = SymbolTable::new(THIS.to_owned(), '.');
    table.set_current_package(path.clone());
    let scope = ClassData::new(String::new(), String::new());
    traverse_tree(root, &mut table, &scope);
    let (_imports, links) = table.take();
    InvocationStructure::new(Vec::new(), links, CodeType::type_codes())
}

/// Visits every node below `node` in pre-order, within `scope`.
fn traverse_tree(node: &SyntaxNode, t: &mut SymbolTable, scope: &ClassData)
    requires
        old(t).wf(),
    ensures
        keeps(*old(t), *final(t)),
    decreases node,
{
    proof { lemma_keeps_refl(*t); }
    let mut i: usize = 0;
    while i < node.children.len()
        invariant
            i <= node.children@.len(),
            keeps(*old(t), *t),
        decreases node.children@.len() - i,
    {
        let ghost before = *t;
        let child = &node.children[i];
        proof {
            assert(decreases_to!(node => node.children));
            assert(decreases_to!(node.children => node.children@));
            assert(decreases_to!(node.children@ => node.children@[i as int]));
        }
        let inner = walk_into(child, t, scope);
        let ghost mid = *t;
        traverse_tree(child, t, &inner);
        proof {
            lemma_keeps_trans(before, mid, *t);
            lemma_keeps_trans(*old(t), before, *t);
        }
        i = i + 1;
    }
}

/// Records what `node` declares or calls; gives the scope of its
/// descendants.
fn walk_into(node: &SyntaxNode, t: &mut SymbolTable, scope: &ClassData) -> (r: ClassData)
    requires
        old(t).wf(),
    ensures
        keeps(*old(t), *final(t)),
{
    if node.is_kind(CLASS_DECLARATION) {
        add_class_declaration(node, t, scope)
    } else {
        if node.is_kind(CALL_EXPRESSION) {
            add_call_expression(node, t, scope);
        } else {
            proof { lemma_keeps_refl(*t); }
        }
        ClassData::new(scope.current_class.clone(), scope.current_parent_class.clone())
    }
}

/// Records a class, the class it extends, and the binding of `this` to it.
fn add_class_declaration(node: &SyntaxNode, t: &mut SymbolTable, scope: &ClassData) -> (r: ClassData)
    requires
        old(t).wf(),
    ensures
        keeps(*old(t), *final(t)),
{
    proof { lemma_keeps_refl(*t); }
    let name_node = match node.child_by_field_name(NAME) {
        Some(n) => n,
        None => return ClassData::new(scope.current_class.clone(), scope.current_parent_class.clone()),
    };
    let class_name = name_node.value_or_empty();
    let package_name = t.get_current_package();
    let mut description = PackageDescription::new(
        package_name.clone(), class_name.clone(), name_node.line, name_node.column, Vec::new());
    let mut parent_class = String::new();
    match node.child_by_kind(CLASS_HERITAGE) {
        Some(heritage) => match heritage.child_by_kind(IDENTIFIER) {
            Some(parent_node) => match parent_node.value() {
                Some(p) => {
                    parent_class = p.clone();
                    description.add_parent(p);
                },
                None => {},
            },
            None => {},
        },
        None => {},
    }
    let ghost t0 = *t;
    t.add_package_description(description);
    let ghost t1 = *t;
    t.add_var_description_entry(VarDescription::new(
        package_name, class_name.clone(), name_node.line, name_node.column, THIS.to_owned()));
    proof { lemma_keeps_trans(t0, t1, *t); }
    ClassData::new(class_name, parent_class)
}

/// Resolves a call: `f(..)` with no receiver, `x.f(..)` through `x`, and
/// `super(..)` as a call of the parent class's constructor.
fn add_call_expression(node: &SyntaxNode, t: &mut SymbolTable, scope: &ClassData)
    requires
        old(t).wf(),
    ensures
        keeps(*old(t), *final(t)),
        match call_target(*node, scope.current_parent_class@) {
            Some((method, var, line, column)) => if method.len() > 0 && method != JQUERY_SIGN@
                && method != REQUIRE@ && method != DEFINE@ {
                links_of(final(t).links@) == links_of(old(t).links@) + resolve(
                    old(t).var_descriptions@,
                    old(t).package_descriptions@,
                    old(t).current_package@,
                    old(t).self_word@,
                    old(t).scope_mark,
                    var,
                    method,
                    scope.current_class@,
                    argument_count(*node) as usize,
                    line,
                    column,
                )
            } else {
                final(t).links == old(t).links
            },
            None => final(t).links == old(t).links,
        },
{
    proof { lemma_keeps_refl(*t); }
    let function_node = match node.child_by_field_name(FUNCTION) {
        Some(n) => n,
        None => return,
    };
    let count = match node.child_by_field_name(ARGUMENTS) {
        Some(arguments) => arguments.named_child_count(),
        None => 0,
    };
    let (method_name, var_name, line, column) = if function_node.is_kind(IDENTIFIER) {
        (function_node.value_or_empty(), String::new(), function_node.line, function_node.column)
    } else if function_node.is_kind(MEMBER_EXPRESSION) {
        let property = match function_node.child_by_field_name(PROPERTY) {
            Some(p) => p,
            None => return,
        };
        let var_name = match function_node.child_by_field_name(OBJECT) {
            Some(o) => o.value_or_empty(),
            None => String::new(),
        };
        (property.value_or_empty(), var_name, property.line, property.column)
    } else if function_node.is_kind(SUPER) {
        (scope.get_parent_class(), String::new(), function_node.line, function_node.column)
    } else {
        return;
    };
    if is_name_valid(&method_name) {
        t.add_navigation_link(&var_name, &method_name, &scope.current_class, count, line, column);
    }
}

} // verus!
