//! The declaration pass for JavaScript.
use vstd::prelude::*;
use crate::dto::repository_method_dto::RepositoryMethodDto;
use crate::model::declaration::DeclarationNode;
use crate::model::js_object::CodeType;
use crate::syntax::{same_text, text_or_empty, SyntaxNode};
use crate::dto::invocation_structure::texts;
use crate::visitor::declarations::{
    attach, grows, is_method_node, lemma_grows_refl, lemma_grows_trans, method_node, package_node,
    type_node, type_with_constructor,
};
use crate::visitor::flatten::{extends_with, flatten, lemma_first_record, prepare_output_data, starts_with_package};

verus! {

const FUNCTION_DECLARATION: &'static str = "function_declaration";
const VARIABLE_DECLARATOR: &'static str = "variable_declarator";
const ASSIGNMENT_PATTERN: &'static str = "assignment_pattern";
const CLASS_DECLARATION: &'static str = "class_declaration";
const METHOD_DEFINITION: &'static str = "method_definition";
const ARROW_FUNCTION: &'static str = "arrow_function";
const IDENTIFIER: &'static str = "identifier";
const FUNCTION: &'static str = "function";
const FUNCTION_EXPRESSION: &'static str = "function_expression";
const PARAMETERS: &'static str = "parameters";
const PARAMETER: &'static str = "parameter";
const VALUE: &'static str = "value";
const LEFT: &'static str = "left";
const NAME: &'static str = "name";
const BODY: &'static str = "body";
const CONSTRUCTOR_IDENTIFIER: &'static str = "constructor";

/// Per-file data of the declaration pass: the file's path.
pub struct DeclarationData {
    pub path: String,
}

impl DeclarationData {
    pub fn new(path: String) -> (r: DeclarationData)
        ensures
            r.path@ == path@,
    {
        DeclarationData { path }
    }
}

/// The declaration records of a parsed JavaScript file: the file itself as
/// the package, then its classes with their methods, and its functions,
/// in source order.
pub fn get_repository_method_dto(root: &SyntaxNode, path: &String, rep_id: i32) -> (r: Vec<RepositoryMethodDto>)
    ensures
        exists|tree: DeclarationNode|
            tree is Package && tree.data().type_code@ == CodeType::JS_PACKAGE.spec_code()
                && tree.data().name@ == path@
                && extends_with(r@, Seq::empty(), rep_id, path@, flatten(tree, Seq::empty(), Seq::empty())),
        starts_with_package(r@, rep_id, path@, path@, 0, CodeType::JS_PACKAGE.spec_code()),
{
    let data = DeclarationData::new(path.clone());
    let mut package = package_node(data.path, CodeType::JS_PACKAGE.code(), 0);
    traverse_tree(&mut package, root);
    let mut method_dto_vec: Vec<RepositoryMethodDto> = Vec::new();
    let empty = String::new();
    prepare_output_data(&mut method_dto_vec, &package, rep_id, path, &empty, &empty);
    assert(method_dto_vec@.subrange(0, 0) =~= Seq::<RepositoryMethodDto>::empty());
    proof {
        reveal_strlit("JS_PACKAGE");
        lemma_first_record(package, method_dto_vec@, rep_id, path@);
    }
    method_dto_vec
}

/// Visits every node below `node` in pre-order, adding each declaration
/// found to `parent`.
fn traverse_tree(parent: &mut DeclarationNode, node: &SyntaxNode)
    ensures
        grows(*old(parent), *final(parent)),
    decreases node,
{
    proof { lemma_grows_refl(*parent); }
    let mut i: usize = 0;
    while i < node.children.len()
        invariant
            i <= node.children@.len(),
            grows(*old(parent), *parent),
        decreases node.children@.len() - i,
    {
        let ghost before = *parent;
        let child = &node.children[i];
        proof {
            assert(decreases_to!(node => node.children));
            assert(decreases_to!(node.children => node.children@));
            assert(decreases_to!(node.children@ => node.children@[i as int]));
        }
        walk_into(parent, child, node);
        let ghost mid = *parent;
        traverse_tree(parent, child);
        proof {
            lemma_grows_trans(before, mid, *parent);
            lemma_grows_trans(*old(parent), before, *parent);
        }
        i = i + 1;
    }
}

/// Adds the declaration that `node`, a child of `parent_node`, makes.
fn walk_into(data: &mut DeclarationNode, node: &SyntaxNode, parent_node: &SyntaxNode)
    ensures
        grows(*old(data), *final(data)),
{
    if node.is_kind(CLASS_DECLARATION) {
        add_class_declaration(data, node);
    } else if node.is_kind(FUNCTION_DECLARATION) {
        add_function_declaration(data, node);
    } else if node.is_kind(ARROW_FUNCTION) {
        add_arrow_function(data, node, parent_node);
    } else if node.is_kind(VARIABLE_DECLARATOR) {
        add_function_from_variable(data, node);
    } else {
        proof { lemma_grows_refl(*data); }
    }
}

/// Adds a class with its methods. Unless it defines a constructor without
/// parameters, its first child is the implicit constructor.
fn add_class_declaration(parent: &mut DeclarationNode, node: &SyntaxNode)
    ensures
        grows(*old(parent), *final(parent)),
        match node.child_by_field_name_spec("name"@) {
            Some(name_node) => match name_node.text {
                Some(name) => {
                    let class = final(parent).data().children@.last();
                    &&& final(parent).data().children@.len() == old(parent).data().children@.len() + 1
                    &&& class is Type
                    &&& class.data().name@ == name@
                    &&& (match node.child_by_field_name_spec("body"@) {
                        Some(b) => !defines_constructor(b),
                        None => true,
                    }) ==> class.data().children@.len() >= 1 && is_method_node(class.data().children@[0],
                        name@, CodeType::JS_CONSTRUCTOR.spec_code(), name_node.line, Seq::empty(),
                        texts(class.data().modifiers@))
                },
                None => *final(parent) == *old(parent),
            },
            None => *final(parent) == *old(parent),
        },
{
    proof { lemma_grows_refl(*parent); }
    let name_node = match node.child_by_field_name(NAME) {
        Some(n) => n,
        None => return,
    };
    let name = match name_node.value() {
        Some(v) => v,
        None => return,
    };
    let line = name_node.line;
    let body = node.child_by_field_name(BODY);
    let declares = match body {
        Some(b) => has_zero_arg_constructor(b),
        None => false,
    };
    let mut class_node = if declares {
        type_node(name, CodeType::JS_CLASS.code(), line, Vec::new())
    } else {
        type_with_constructor(name, CodeType::JS_CLASS.code(), CodeType::JS_CONSTRUCTOR.code(), line, Vec::new())
    };
    let ghost built = class_node;
    proof { lemma_grows_refl(class_node); }
    match body {
        Some(b) => {
            let mut i: usize = 0;
            while i < b.children.len()
                invariant
                    i <= b.children@.len(),
                    grows(built, class_node),
                decreases b.children@.len() - i,
            {
                let child = &b.children[i];
                if child.named && child.is_kind(METHOD_DEFINITION) {
                    let ghost before = class_node;
                    add_method_definition(&mut class_node, child);
                    proof { lemma_grows_trans(built, before, class_node); }
                }
                i = i + 1;
            }
        },
        None => {},
    }
    assert(!declares ==> class_node.data().children@[0] == built.data().children@[0]);
    attach(parent, class_node);
}

/// Whether a class body defines `constructor` without parameters.
fn has_zero_arg_constructor(body: &SyntaxNode) -> (r: bool)
    ensures
        r ==> defines_constructor(*body),
{
    let mut i: usize = 0;
    while i < body.children.len()
        invariant
            i <= body.children@.len(),
        decreases body.children@.len() - i,
    {
        let c = &body.children[i];
        if c.is_kind(METHOD_DEFINITION) {
            match (c.child_by_field_name(NAME), c.child_by_field_name(PARAMETERS)) {
                (Some(name_node), Some(params)) => {
                    if same_text(&name_node.value_or_empty(), CONSTRUCTOR_IDENTIFIER)
                        && params.named_child_count() == 0 {
                        assert(body.children@[i as int] == *c);
                        return true;
                    }
                },
                _ => {},
            }
        }
        i = i + 1;
    }
    false
}

/// Adds a function declaration.
fn add_function_declaration(parent: &mut DeclarationNode, node: &SyntaxNode)
    ensures
        grows(*old(parent), *final(parent)),
{
    proof { lemma_grows_refl(*parent); }
    let name_node = match node.child_by_field_name(NAME) {
        Some(n) => n,
        None => return,
    };
    let name = match name_node.value() {
        Some(v) => v,
        None => return,
    };
    let parameters = match node.child_by_field_name(PARAMETERS) {
        Some(params) => get_params_from_node(params),
        None => Vec::new(),
    };
    attach(parent, method_node(name, CodeType::JS_METHOD.code(), name_node.line, parameters, Vec::new(), String::new()));
}

/// Adds an arrow function assigned to a variable, named after the variable.
fn add_arrow_function(parent: &mut DeclarationNode, node: &SyntaxNode, parent_node: &SyntaxNode)
    ensures
        grows(*old(parent), *final(parent)),
{
    proof { lemma_grows_refl(*parent); }
    if !parent_node.is_kind(VARIABLE_DECLARATOR) {
        return;
    }
    let function_node = match parent_node.child_by_field_name(NAME) {
        Some(n) => n,
        None => return,
    };
    let name = match function_node.value() {
        Some(v) => v,
        None => return,
    };
    let parameters = match node.child_by_field_name(PARAMETERS) {
        Some(params) => get_params_from_node(params),
        None => match node.child_by_field_name(PARAMETER) {
            Some(single) => {
                let mut v: Vec<String> = Vec::new();
                v.push(single.value_or_empty());
                v
            },
            None => Vec::new(),
        },
    };
    attach(parent, method_node(name, CodeType::JS_METHOD.code(), function_node.line, parameters, Vec::new(), String::new()));
}

/// Whether a class body defines a method named `constructor` at all.
pub open spec fn defines_constructor(body: SyntaxNode) -> bool {
    exists|i: int|
        0 <= i < body.children@.len() && (#[trigger] body.children@[i]).kind@ == "method_definition"@
            && (body.children@[i].child_by_field_name_spec("name"@) matches Some(n)
                && text_or_empty(n) == "constructor"@)
}

/// The parameter a node of a parameter list names: a plain identifier, or
/// the left side of one with a default; `None` for patterns and for text
/// that is absent.
pub open spec fn param_name(c: SyntaxNode) -> Option<Seq<char>> {
    if !c.named {
        None
    } else if c.kind@ == "identifier"@ {
        match c.text {
            Some(t) => Some(t@),
            None => None,
        }
    } else if c.kind@ == "assignment_pattern"@ {
        match c.child_by_field_name_spec("left"@) {
            Some(l) => match l.text {
                Some(t) => Some(t@),
                None => None,
            },
            None => None,
        }
    } else {
        None
    }
}

/// The parameter names of a parameter list's nodes, in order.
pub open spec fn param_names(s: Seq<SyntaxNode>) -> Seq<Seq<char>>
    decreases s.len(),
{
    if s.len() == 0 {
        Seq::empty()
    } else {
        match param_name(s.last()) {
            Some(p) => param_names(s.drop_last()).push(p),
            None => param_names(s.drop_last()),
        }
    }
}

/// The parameter names of a function node's `parameters` field.
pub open spec fn function_params(f: SyntaxNode) -> Seq<Seq<char>> {
    match f.child_by_field_name_spec("parameters"@) {
        Some(p) => param_names(p.children@),
        None => Seq::empty(),
    }
}

/// The text of the `field` child of `n`, or the empty text.
pub open spec fn field_text(n: SyntaxNode, field: Seq<char>) -> Seq<char> {
    match n.child_by_field_name_spec(field) {
        Some(c) => text_or_empty(c),
        None => Seq::empty(),
    }
}

/// Adds a function expression assigned to a variable: under the
/// variable's name, and under its own name if it has one.
fn add_function_from_variable(parent: &mut DeclarationNode, node: &SyntaxNode)
    ensures
        grows(*old(parent), *final(parent)),
        match node.child_by_field_name_spec("value"@) {
            Some(v) => if v.kind@ == "function"@ || v.kind@ == "function_expression"@ {
                let var_name = field_text(*node, "name"@);
                let function_name = field_text(v, "name"@);
                let before = old(parent).data().children@;
                let after = final(parent).data().children@;
                &&& after.len() == before.len() + (if var_name.len() > 0 { 1int } else { 0int })
                    + (if function_name.len() > 0 { 1int } else { 0int })
                &&& var_name.len() > 0 ==> after[before.len() as int] is Method
                    && after[before.len() as int].data().name@ == var_name
                    && texts(after[before.len() as int]->Method_0.parameters@) == function_params(v)
                    && after[before.len() as int].data().type_code@ == CodeType::JS_METHOD.spec_code()
                &&& function_name.len() > 0 ==> after.last() is Method && after.last().data().name@ == function_name
                    && texts(after.last()->Method_0.parameters@) == function_params(v)
                    && after.last().data().type_code@ == CodeType::JS_METHOD.spec_code()
            } else {
                *final(parent) == *old(parent)
            },
            None => *final(parent) == *old(parent),
        },
{
    proof { lemma_grows_refl(*parent); }
    let value_node = match node.child_by_field_name(VALUE) {
        Some(n) => n,
        None => return,
    };
    if !value_node.is_kind(FUNCTION) && !value_node.is_kind(FUNCTION_EXPRESSION) {
        return;
    }
    let (function_name, function_line) = match value_node.child_by_field_name(NAME) {
        Some(n) => (n.value_or_empty(), n.line),
        None => (String::new(), 0),
    };
    let (var_name, var_line) = match node.child_by_field_name(NAME) {
        Some(n) => (n.value_or_empty(), n.line),
        None => (String::new(), 0),
    };
    assert(function_name@ == field_text(*value_node, NAME@));
    assert(var_name@ == field_text(*node, NAME@));
    let parameters = match value_node.child_by_field_name(PARAMETERS) {
        Some(params) => get_params_from_node(params),
        None => Vec::new(),
    };
    if !var_name.as_str().is_empty() {
        let ghost before = *parent;
        attach(parent, method_node(var_name, CodeType::JS_METHOD.code(), var_line,
            crate::visitor::declarations::copy_texts(&parameters), Vec::new(), String::new()));
        proof { lemma_grows_trans(*old(parent), before, *parent); }
    }
    if !function_name.as_str().is_empty() {
        let ghost before = *parent;
        attach(parent, method_node(function_name, CodeType::JS_METHOD.code(), function_line, parameters, Vec::new(), String::new()));
        proof { lemma_grows_trans(*old(parent), before, *parent); }
    }
}

/// Adds a method of a class; `constructor` becomes the class's
/// constructor, named after the class.
fn add_method_definition(parent: &mut DeclarationNode, node: &SyntaxNode)
    ensures
        grows(*old(parent), *final(parent)),
{
    proof { lemma_grows_refl(*parent); }
    let name_node = match node.child_by_field_name(NAME) {
        Some(n) => n,
        None => return,
    };
    let written_name = match name_node.value() {
        Some(v) => v,
        None => return,
    };
    let parameters_node = match node.child_by_field_name(PARAMETERS) {
        Some(p) => p,
        None => return,
    };
    let parameters = get_params_from_node(parameters_node);
    let (name, code) = if same_text(&written_name, CONSTRUCTOR_IDENTIFIER) {
        (parent.get_name(), CodeType::JS_CONSTRUCTOR)
    } else {
        (written_name, CodeType::JS_METHOD)
    };
    attach(parent, method_node(name, code.code(), node.line, parameters, Vec::new(), String::new()));
}

/// The names of plain and defaulted parameters; patterns are left out.
fn get_params_from_node(node: &SyntaxNode) -> (r: Vec<String>)
    ensures
        texts(r@) == param_names(node.children@),
{
    let mut parameters: Vec<String> = Vec::new();
    let mut i: usize = 0;
    while i < node.children.len()
        invariant
            i <= node.children@.len(),
            texts(parameters@) == param_names(node.children@.subrange(0, i as int)),
        decreases node.children@.len() - i,
    {
        let ghost seen = node.children@.subrange(0, i + 1);
        assert(seen.drop_last() =~= node.children@.subrange(0, i as int));
        let ghost prev = parameters@;
        let child = &node.children[i];
        if child.named {
            if child.is_kind(IDENTIFIER) {
                match child.value() {
                    Some(p) => {
                        parameters.push(p);
                        assert(texts(parameters@) =~= texts(prev).push(p@));
                    },
                    None => {},
                }
            } else if child.is_kind(ASSIGNMENT_PATTERN) {
                match child.child_by_field_name(LEFT) {
                    Some(left) => match left.value() {
                        Some(p) => {
                            parameters.push(p);
                            assert(texts(parameters@) =~= texts(prev).push(p@));
                        },
                        None => {},
                    },
                    None => {},
                }
            }
        }
        i = i + 1;
    }
    assert(node.children@.subrange(0, i as int) =~= node.children@);
    parameters
}

} // verus!
