//! The declaration pass for C++.
use vstd::prelude::*;
use crate::dto::repository_method_dto::RepositoryMethodDto;
use crate::model::cpp_object::CodeType;
use crate::model::declaration::{DeclarationNode, MethodObject, ObjectData};
use crate::syntax::{has_field, lemma_child_smaller, lemma_first_of_smaller, same_text, text_or_empty, SyntaxNode};
use crate::dto::invocation_structure::texts;
use crate::visitor::symbols::opt_text;
use crate::visitor::declarations::{
    attach, grows, is_method_node, lemma_grows_refl, lemma_grows_trans, package_node, type_node,
    type_with_constructor,
};
use crate::visitor::flatten::{extends_with, flatten, lemma_first_record, prepare_output_data, starts_with_package};

verus! {

const ERROR: &'static str = "ERROR";
const CLASS_SPECIFIER: &'static str = "class_specifier";
const STRUCT_SPECIFIER: &'static str = "struct_specifier";
const ENUM_SPECIFIER: &'static str = "enum_specifier";
const UNION_SPECIFIER: &'static str = "union_specifier";
const FUNCTION_DEFINITION: &'static str = "function_definition";
const FRIEND_DECLARATION: &'static str = "friend_declaration";
const NAMESPACE_DEFINITION: &'static str = "namespace_definition";
const TEMPLATE_DECLARATION: &'static str = "template_declaration";
const DECLARATION_LIST: &'static str = "declaration_list";
const LINKAGE_SPECIFICATION: &'static str = "linkage_specification";
const DECLARATION: &'static str = "declaration";
const PREPROC_IF: &'static str = "preproc_if";
const PREPROC_IFDEF: &'static str = "preproc_ifdef";
const PREPROC_ELSE: &'static str = "preproc_else";
const PREPROC_ELIF: &'static str = "preproc_elif";
const PREPROC_FUNCTION_DEF: &'static str = "preproc_function_def";
const FIELD_DECLARATION: &'static str = "field_declaration";
const IDENTIFIER: &'static str = "identifier";
const PARAMETER_DECLARATION: &'static str = "parameter_declaration";
const OPTIONAL_PARAMETER_DECLARATION: &'static str = "optional_parameter_declaration";
const FIELD_IDENTIFIER: &'static str = "field_identifier";
const DESTRUCTOR_NAME: &'static str = "destructor_name";
const SCOPED_IDENTIFIER: &'static str = "scoped_identifier";
const QUALIFIED_IDENTIFIER: &'static str = "qualified_identifier";
const SCOPE: &'static str = "scope";
const NAMESPACE_IDENTIFIER: &'static str = "namespace_identifier";
const TEMPLATE_TYPE: &'static str = "template_type";
const FUNCTION_DECLARATOR: &'static str = "function_declarator";
const TYPE_IDENTIFIER: &'static str = "type_identifier";
const SCOPED_TYPE_IDENTIFIER: &'static str = "scoped_type_identifier";
const SCOPED_NAMESPACE_IDENTIFIER: &'static str = "scoped_namespace_identifier";
const PRIMITIVE_TYPE: &'static str = "primitive_type";
const SIZED_TYPE_SPECIFIER: &'static str = "sized_type_specifier";
const BODY: &'static str = "body";
const NAME: &'static str = "name";
const DECLARATOR: &'static str = "declarator";
const PARAMETERS: &'static str = "parameters";
const NAMESPACE: &'static str = "namespace";
const TYPE: &'static str = "type";
const VOID: &'static str = "void";

/// Whether a type body has a member shaped like a constructor: a
/// declaration or definition without a return type.
pub open spec fn declares_constructor(body: SyntaxNode) -> bool {
    exists|i: int|
        0 <= i < body.children@.len() && ((#[trigger] body.children@[i]).kind@ == "field_declaration"@
            || body.children@[i].kind@ == "declaration"@ || body.children@[i].kind@ == "function_definition"@)
            && body.children@[i].child_by_field_name_spec("type"@) is None
}

/// The declaration records of a parsed C++ file: the file itself as the
/// package, then namespaces, types and functions in source order. Every
/// branch of a conditional is searched.
pub fn get_repository_method_dto(root: &SyntaxNode, path: &String, rep_id: i32) -> (r: Vec<RepositoryMethodDto>)
    ensures
        exists|tree: DeclarationNode|
            tree is Package && tree.data().type_code@ == CodeType::CPP_PACKAGE.spec_code()
                && tree.data().name@ == path@
                && extends_with(r@, Seq::empty(), rep_id, path@, flatten(tree, Seq::empty(), Seq::empty())),
        starts_with_package(r@, rep_id, path@, path@, 0, CodeType::CPP_PACKAGE.spec_code()),
{
    let mut package = package_node(path.clone(), CodeType::CPP_PACKAGE.code(), 0);
    parse_top_level_node(root, &mut package);
    let mut method_dto_vec: Vec<RepositoryMethodDto> = Vec::new();
    let empty = String::new();
    prepare_output_data(&mut method_dto_vec, &package, rep_id, path, &empty, &empty);
    assert(method_dto_vec@.subrange(0, 0) =~= Seq::<RepositoryMethodDto>::empty());
    proof {
        reveal_strlit("CPP_PACKAGE");
        lemma_first_record(package, method_dto_vec@, rep_id, path@);
    }
    method_dto_vec
}

/// Adds the declarations among the named children of `node`.
fn parse_top_level_node(node: &SyntaxNode, parent: &mut DeclarationNode)
    ensures
        grows(*old(parent), *final(parent)),
    decreases node, 1nat,
{
    proof { lemma_grows_refl(*parent); }
    let mut i: usize = 0;
    while i < node.children.len()
        invariant
            i <= node.children@.len(),
            grows(*old(parent), *parent),
        decreases node.children@.len() - i,
    {
        let ghost before = *parent;
        proof {
            assert(decreases_to!(node => node.children));
            assert(decreases_to!(node.children => node.children@));
            assert(decreases_to!(node.children@ => node.children@[i as int]));
        }
        if node.children[i].named {
            add_top_level_item(&node.children[i], parent);
        }
        proof {
            lemma_grows_refl(*parent);
            lemma_grows_trans(*old(parent), before, *parent);
        }
        i = i + 1;
    }
}

/// Adds what one top-level item declares. Conditional, error and template
/// wrappers are looked through.
fn add_top_level_item(node: &SyntaxNode, parent: &mut DeclarationNode)
    ensures
        grows(*old(parent), *final(parent)),
    decreases node, 2nat,
{
    if node.is_kind(NAMESPACE_DEFINITION) {
        add_name_space_definition(node, parent);
    } else if node.is_kind(ENUM_SPECIFIER) {
        add_enum_specifier(node, parent);
    } else if node.is_kind(CLASS_SPECIFIER) || node.is_kind(STRUCT_SPECIFIER) || node.is_kind(UNION_SPECIFIER) {
        add_struct_spec(node, parent);
    } else if node.is_kind(FUNCTION_DEFINITION) || node.is_kind(DECLARATION) {
        add_declared_type(node, parent);
    } else if node.is_kind(LINKAGE_SPECIFICATION) {
        add_linkage_specification(node, parent);
    } else if node.is_kind(PREPROC_IF) || node.is_kind(PREPROC_IFDEF) || node.is_kind(PREPROC_ELSE)
        || node.is_kind(PREPROC_ELIF) || node.is_kind(ERROR) {
        parse_top_level_node(node, parent);
    } else if node.is_kind(PREPROC_FUNCTION_DEF) {
        add_preproc_func_def(node, parent);
    } else if node.is_kind(TEMPLATE_DECLARATION) {
        add_template_declaration(node, parent);
    } else {
        proof { lemma_grows_refl(*parent); }
    }
}

/// Adds a named namespace as a package with its declarations.
fn add_name_space_definition(node: &SyntaxNode, parent: &mut DeclarationNode)
    ensures
        grows(*old(parent), *final(parent)),
    decreases node, 1nat,
{
    proof { lemma_grows_refl(*parent); }
    let body = match node.child_by_field_name(BODY) {
        Some(b) => b,
        None => return,
    };
    let name_node = match node.child_by_field_name(NAME) {
        Some(n) => n,
        None => return,
    };
    proof { lemma_child_smaller(node, |c: SyntaxNode| has_field(c, BODY@), body); }
    let mut namespace = package_node(name_node.value_or_empty(), CodeType::CPP_PACKAGE.code(), name_node.line);
    parse_top_level_node(body, &mut namespace);
    attach(parent, namespace);
}

/// Adds a class, struct or union with its members; the members of an
/// anonymous one go to `parent` itself. Unless the body declares a
/// constructor without parameters, the type's first child is the implicit
/// one.
fn add_struct_spec(node: &SyntaxNode, parent: &mut DeclarationNode)
    ensures
        grows(*old(parent), *final(parent)),
        node.child_by_field_name_spec("name"@) matches Some(name_node) ==> ({
            let class = final(parent).data().children@.last();
            &&& final(parent).data().children@.len() == old(parent).data().children@.len() + 1
            &&& class is Type
            &&& (match node.child_by_field_name_spec("body"@) {
                Some(b) => !declares_constructor(b),
                None => true,
            }) ==> class.data().children@.len() >= 1 && is_method_node(class.data().children@[0],
                class.data().name@, CodeType::CPP_CONSTRUCTOR.spec_code(), name_node.line, Seq::empty(),
                texts(class.data().modifiers@))
        }),
    decreases node, 1nat,
{
    proof { lemma_grows_refl(*parent); }
    let body = node.child_by_field_name(BODY);
    let name_node = match node.child_by_field_name(NAME) {
        Some(n) => n,
        None => {
            match body {
                Some(b) => {
                    proof { lemma_child_smaller(node, |c: SyntaxNode| has_field(c, BODY@), b); }
                    add_field_declaration_list(b, parent);
                },
                None => {},
            }
            return;
        },
    };
    let name = match get_name_from_class_name_node(name_node) {
        Some(n) => n,
        None => String::new(),
    };
    let line = name_node.line;
    let declares = match body {
        Some(b) => has_zero_arg_constructor(b),
        None => false,
    };
    let mut class_node = if declares {
        type_node(name, CodeType::CPP_CLASS.code(), line, Vec::new())
    } else {
        type_with_constructor(name, CodeType::CPP_CLASS.code(), CodeType::CPP_CONSTRUCTOR.code(), line, Vec::new())
    };
    let ghost built = class_node;
    match body {
        Some(b) => {
            proof { lemma_child_smaller(node, |c: SyntaxNode| has_field(c, BODY@), b); }
            add_field_declaration_list(b, &mut class_node);
        },
        None => {
            proof { lemma_grows_refl(class_node); }
        },
    }
    assert(!declares ==> class_node.data().children@[0] == built.data().children@[0]);
    attach(parent, class_node);
}

/// Whether a type body declares a constructor without parameters: a
/// function without a return type whose parameter list is empty.
fn has_zero_arg_constructor(body: &SyntaxNode) -> (r: bool)
    ensures
        r ==> declares_constructor(*body),
{
    let mut i: usize = 0;
    while i < body.children.len()
        invariant
            i <= body.children@.len(),
        decreases body.children@.len() - i,
    {
        let c = &body.children[i];
        if (c.is_kind(FIELD_DECLARATION) || c.is_kind(DECLARATION) || c.is_kind(FUNCTION_DEFINITION))
            && c.child_by_field_name(TYPE).is_none() {
            match c.child_by_field_name(DECLARATOR) {
                Some(declarator) => match get_function_declarator(declarator) {
                    Some(function) => match function.child_by_field_name(PARAMETERS) {
                        Some(params) => if params.named_child_count() == 0 {
                            assert(body.children@[i as int] == *c);
                            return true;
                        },
                        None => {},
                    },
                    None => {},
                },
                None => {},
            }
        }
        i = i + 1;
    }
    false
}

/// Adds a named enum.
fn add_enum_specifier(node: &SyntaxNode, parent: &mut DeclarationNode)
    ensures
        grows(*old(parent), *final(parent)),
{
    proof { lemma_grows_refl(*parent); }
    let name_node = match node.child_by_field_name(NAME) {
        Some(n) => n,
        None => return,
    };
    let name = match get_name_from_class_name_node(name_node) {
        Some(n) => n,
        None => String::new(),
    };
    attach(parent, type_node(name, CodeType::CPP_ENUM.code(), node.line, Vec::new()));
}

/// Adds the members declared in a type body.
fn add_field_declaration_list(node: &SyntaxNode, parent: &mut DeclarationNode)
    ensures
        grows(*old(parent), *final(parent)),
    decreases node, 0nat,
{
    proof { lemma_grows_refl(*parent); }
    let mut i: usize = 0;
    while i < node.children.len()
        invariant
            i <= node.children@.len(),
            grows(*old(parent), *parent),
        decreases node.children@.len() - i,
    {
        let ghost before = *parent;
        let child = &node.children[i];
        proof {
            assert(decreases_to!(node => node.children));
            assert(decreases_to!(node.children => node.children@));
            assert(decreases_to!(node.children@ => node.children@[i as int]));
            lemma_grows_refl(*parent);
        }
        if child.named {
            if child.is_kind(FIELD_DECLARATION) || child.is_kind(DECLARATION) || child.is_kind(FUNCTION_DEFINITION) {
                add_declared_type(child, parent);
            } else if child.is_kind(FRIEND_DECLARATION) {
                add_friend_declaration(child, parent);
            } else if child.is_kind(PREPROC_IF) || child.is_kind(PREPROC_IFDEF) || child.is_kind(PREPROC_ELSE)
                || child.is_kind(PREPROC_ELIF) {
                add_field_declaration_list(child, parent);
            } else if child.is_kind(PREPROC_FUNCTION_DEF) {
                add_preproc_func_def(child, parent);
            } else if child.is_kind(TEMPLATE_DECLARATION) {
                add_template_declaration(child, parent);
            }
        }
        proof { lemma_grows_trans(*old(parent), before, *parent); }
        i = i + 1;
    }
}

/// Adds the type that a declaration writes out in full (an anonymous one's
/// members go to `parent` itself), then the function it declares.
fn add_declared_type(node: &SyntaxNode, parent: &mut DeclarationNode)
    ensures
        grows(*old(parent), *final(parent)),
    decreases node, 1nat,
{
    proof { lemma_grows_refl(*parent); }
    match node.child_by_field_name(TYPE) {
        Some(type_node) => {
            if type_node.is_kind(CLASS_SPECIFIER) || type_node.is_kind(STRUCT_SPECIFIER) || type_node.is_kind(UNION_SPECIFIER) {
                proof { lemma_child_smaller(node, |c: SyntaxNode| has_field(c, TYPE@), type_node); }
                add_struct_spec(type_node, parent);
            } else if type_node.is_kind(ENUM_SPECIFIER) {
                add_enum_specifier(type_node, parent);
            }
        },
        None => {},
    }
    let ghost before = *parent;
    add_function(node, parent);
    proof { lemma_grows_trans(*old(parent), before, *parent); }
}

/// Adds the functions that a friend declaration declares.
fn add_friend_declaration(node: &SyntaxNode, parent: &mut DeclarationNode)
    ensures
        grows(*old(parent), *final(parent)),
{
    proof { lemma_grows_refl(*parent); }
    let mut i: usize = 0;
    while i < node.children.len()
        invariant
            i <= node.children@.len(),
            grows(*old(parent), *parent),
        decreases node.children@.len() - i,
    {
        let child = &node.children[i];
        if child.named && (child.is_kind(FUNCTION_DEFINITION) || child.is_kind(DECLARATION)) {
            let ghost before = *parent;
            add_function(child, parent);
            proof { lemma_grows_trans(*old(parent), before, *parent); }
        }
        i = i + 1;
    }
}

/// Adds a function, method or constructor declared or defined in `node`;
/// nothing when it declares no function or its name cannot be read. One
/// without a return type is a constructor.
fn add_function(node: &SyntaxNode, parent: &mut DeclarationNode)
    ensures
        grows(*old(parent), *final(parent)),
{
    proof { lemma_grows_refl(*parent); }
    let declarator = match node.child_by_field_name(DECLARATOR) {
        Some(d) => d,
        None => return,
    };
    let function = match get_function_declarator(declarator) {
        Some(f) => f,
        None => return,
    };
    let identifier = match function.child_by_field_name(DECLARATOR) {
        Some(d) => d,
        None => return,
    };
    let name = get_name_from_declarator(identifier);
    let namespace = get_namespace_from_declarator(identifier);
    if name.as_str().is_empty() {
        return;
    }
    let (output_parameter, code) = match node.child_by_field_name(TYPE) {
        Some(type_node) => (get_output_param_from_type_specifier(type_node), CodeType::CPP_METHOD),
        None => (String::new(), CodeType::CPP_CONSTRUCTOR),
    };
    let params = match function.child_by_field_name(PARAMETERS) {
        Some(p) => p,
        None => return,
    };
    let parameters = get_parameters_from_list_node(params);
    let mut object_data = ObjectData::new(name, code.code());
    object_data.set_line_code(node.line);
    attach(parent, DeclarationNode::Method(MethodObject { object_data, parameters, output_parameter, namespace }));
}

/// Adds what a template declares, as if the template were not there.
fn add_template_declaration(node: &SyntaxNode, parent: &mut DeclarationNode)
    ensures
        grows(*old(parent), *final(parent)),
    decreases node, 1nat,
{
    proof { lemma_grows_refl(*parent); }
    let mut i: usize = 0;
    while i < node.children.len()
        invariant
            i <= node.children@.len(),
            grows(*old(parent), *parent),
        decreases node.children@.len() - i,
    {
        let ghost before = *parent;
        let child = &node.children[i];
        proof {
            assert(decreases_to!(node => node.children));
            assert(decreases_to!(node.children => node.children@));
            assert(decreases_to!(node.children@ => node.children@[i as int]));
            lemma_grows_refl(*parent);
        }
        if child.named {
            if child.is_kind(ENUM_SPECIFIER) {
                add_enum_specifier(child, parent);
            } else if child.is_kind(CLASS_SPECIFIER) || child.is_kind(STRUCT_SPECIFIER) || child.is_kind(UNION_SPECIFIER) {
                add_struct_spec(child, parent);
            } else if child.is_kind(TEMPLATE_DECLARATION) {
                add_template_declaration(child, parent);
            } else if child.is_kind(FUNCTION_DEFINITION) || child.is_kind(DECLARATION) {
                add_function(child, parent);
            }
        }
        proof { lemma_grows_trans(*old(parent), before, *parent); }
        i = i + 1;
    }
}

/// Adds what an `extern "C"` block or declaration declares.
fn add_linkage_specification(node: &SyntaxNode, parent: &mut DeclarationNode)
    ensures
        grows(*old(parent), *final(parent)),
    decreases node, 1nat,
{
    proof { lemma_grows_refl(*parent); }
    let body = match node.child_by_field_name(BODY) {
        Some(b) => b,
        None => return,
    };
    proof { lemma_child_smaller(node, |c: SyntaxNode| has_field(c, BODY@), body); }
    if body.is_kind(FUNCTION_DEFINITION) || body.is_kind(DECLARATION) {
        add_function(body, parent);
    } else if body.is_kind(DECLARATION_LIST) {
        parse_top_level_node(body, parent);
    }
}

/// Adds a function-like macro as a method.
fn add_preproc_func_def(node: &SyntaxNode, parent: &mut DeclarationNode)
    ensures
        grows(*old(parent), *final(parent)),
{
    proof { lemma_grows_refl(*parent); }
    let name_node = match node.child_by_field_name(NAME) {
        Some(n) => n,
        None => return,
    };
    let params = match node.child_by_field_name(PARAMETERS) {
        Some(p) => p,
        None => return,
    };
    let mut parameters: Vec<String> = Vec::new();
    let mut i: usize = 0;
    while i < params.children.len()
        invariant
            i <= params.children@.len(),
        decreases params.children@.len() - i,
    {
        if params.children[i].is_kind(IDENTIFIER) {
            parameters.push(params.children[i].value_or_empty());
        }
        i = i + 1;
    }
    let mut object_data = ObjectData::new(name_node.value_or_empty(), CodeType::CPP_METHOD.code());
    object_data.set_line_code(node.line);
    attach(parent, DeclarationNode::Method(MethodObject {
        object_data,
        parameters,
        output_parameter: String::new(),
        namespace: String::new(),
    }));
}

/// The names of the parameters in a parameter list.
fn get_parameters_from_list_node(node: &SyntaxNode) -> Vec<String> {
    let mut parameters: Vec<String> = Vec::new();
    let mut i: usize = 0;
    while i < node.children.len()
        invariant
            i <= node.children@.len(),
        decreases node.children@.len() - i,
    {
        let child = &node.children[i];
        if child.named && (child.is_kind(PARAMETER_DECLARATION) || child.is_kind(OPTIONAL_PARAMETER_DECLARATION)) {
            match child.child_by_field_name(DECLARATOR) {
                Some(declarator) => match get_identifier_from_declarator(declarator) {
                    Some(identifier) => parameters.push(identifier.value_or_empty()),
                    None => {},
                },
                None => {},
            }
        }
        i = i + 1;
    }
    parameters
}

/// The identifier at the end of the first-named-child path of a declarator.
fn get_identifier_from_declarator(node: &SyntaxNode) -> (r: Option<&SyntaxNode>)
    ensures
        r matches Some(n) ==> n.kind@ == IDENTIFIER@,
    decreases node,
{
    if node.is_kind(IDENTIFIER) {
        return Some(node);
    }
    match node.first_named_child() {
        Some(child) => {
            proof { lemma_child_smaller(node, |c: SyntaxNode| c.named, child); }
            get_identifier_from_declarator(child)
        },
        None => None,
    }
}

/// The function declarator at the end of the first-named-child path of a
/// declarator.
fn get_function_declarator(node: &SyntaxNode) -> (r: Option<&SyntaxNode>)
    ensures
        r matches Some(n) ==> n.kind@ == FUNCTION_DECLARATOR@,
    decreases node,
{
    if node.is_kind(FUNCTION_DECLARATOR) {
        return Some(node);
    }
    match node.first_named_child() {
        Some(child) => {
            proof { lemma_child_smaller(node, |c: SyntaxNode| c.named, child); }
            get_function_declarator(child)
        },
        None => None,
    }
}

/// The name a function declarator declares, without its scope.
fn get_name_from_declarator(node: &SyntaxNode) -> String
    decreases node,
{
    if node.is_kind(FIELD_IDENTIFIER) || node.is_kind(IDENTIFIER) || node.is_kind(DESTRUCTOR_NAME) {
        node.value_or_empty()
    } else if node.is_kind(SCOPED_IDENTIFIER) || node.is_kind(QUALIFIED_IDENTIFIER) {
        match node.child_by_field_name(NAME) {
            Some(name_node) => {
                proof { lemma_child_smaller(node, |c: SyntaxNode| has_field(c, NAME@), name_node); }
                get_name_from_declarator(name_node)
            },
            None => String::new(),
        }
    } else {
        String::new()
    }
}

/// The text of the `field` child of `n`, or the empty text.
pub open spec fn field_text(n: SyntaxNode, field: Seq<char>) -> Seq<char> {
    match n.child_by_field_name_spec(field) {
        Some(c) => text_or_empty(c),
        None => Seq::empty(),
    }
}

/// The last part of a scoped type name, as text.
pub open spec fn scoped_name_text(n: SyntaxNode) -> Option<Seq<char>> {
    match n.child_by_field_name_spec("name"@) {
        Some(c) => match c.text {
            Some(t) => Some(t@),
            None => None,
        },
        None => None,
    }
}

/// The scope written just before the name of a qualified declarator
/// (`Owner` in `ns::Owner::run`); empty when there is none this pass reads.
pub open spec fn namespace_text(n: SyntaxNode) -> Seq<char>
    decreases n,
{
    proof { lemma_first_of_smaller(n, |c: SyntaxNode| has_field(c, "name"@)); }
    match n.child_by_field_name_spec("name"@) {
        Some(q) if q.kind@ == "qualified_identifier"@ || q.kind@ == "scoped_identifier"@ => namespace_text(q),
        _ => {
            let scope = match n.child_by_field_name_spec("scope"@) {
                Some(c) => Some(c),
                None => n.child_by_field_name_spec("namespace"@),
            };
            match scope {
                Some(ns) => if ns.kind@ == "namespace_identifier"@ || ns.kind@ == "type_identifier"@ {
                    text_or_empty(ns)
                } else if ns.kind@ == "template_type"@ {
                    match ns.child_by_field_name_spec("name"@) {
                        Some(nm) => if nm.kind@ == "type_identifier"@ {
                            text_or_empty(nm)
                        } else if nm.kind@ == "scoped_type_identifier"@ || nm.kind@ == "qualified_identifier"@ {
                            match scoped_name_text(nm) {
                                Some(t) => t,
                                None => Seq::empty(),
                            }
                        } else {
                            Seq::empty()
                        },
                        None => Seq::empty(),
                    }
                } else if ns.kind@ == "scoped_namespace_identifier"@ {
                    field_text(ns, "name"@)
                } else {
                    Seq::empty()
                },
                None => Seq::empty(),
            }
        },
    }
}

/// The scope written just before a function's name (`Owner` in
/// `ns::Owner::run`).
fn get_namespace_from_declarator(node: &SyntaxNode) -> (r: String)
    ensures
        r@ == namespace_text(*node),
    decreases node,
{
    match node.child_by_field_name(NAME) {
        Some(name_node) => if name_node.is_kind(QUALIFIED_IDENTIFIER) || name_node.is_kind(SCOPED_IDENTIFIER) {
            proof { lemma_child_smaller(node, |c: SyntaxNode| has_field(c, NAME@), name_node); }
            return get_namespace_from_declarator(name_node);
        },
        None => {},
    }
    let namespace_node = match node.child_by_field_name(SCOPE) {
        Some(n) => n,
        None => match node.child_by_field_name(NAMESPACE) {
            Some(n) => n,
            None => return String::new(),
        },
    };
    if namespace_node.is_kind(NAMESPACE_IDENTIFIER) || namespace_node.is_kind(TYPE_IDENTIFIER) {
        namespace_node.value_or_empty()
    } else if namespace_node.is_kind(TEMPLATE_TYPE) {
        match namespace_node.child_by_field_name(NAME) {
            Some(name_node) => if name_node.is_kind(TYPE_IDENTIFIER) {
                name_node.value_or_empty()
            } else if name_node.is_kind(SCOPED_TYPE_IDENTIFIER) || name_node.is_kind(QUALIFIED_IDENTIFIER) {
                match get_name_from_scoped_type_identifier(name_node) {
                    Some(n) => n,
                    None => String::new(),
                }
            } else {
                String::new()
            },
            None => String::new(),
        }
    } else if namespace_node.is_kind(SCOPED_NAMESPACE_IDENTIFIER) {
        match namespace_node.child_by_field_name(NAME) {
            Some(name_node) => name_node.value_or_empty(),
            None => String::new(),
        }
    } else {
        String::new()
    }
}

/// The written return type of a function, empty for `void` or a type this
/// pass does not read.
fn get_output_param_from_type_specifier(node: &SyntaxNode) -> (r: String)
    ensures
        r@ != VOID@,
{
    let parameter = if node.is_kind(TYPE_IDENTIFIER) || node.is_kind(PRIMITIVE_TYPE) || node.is_kind(SIZED_TYPE_SPECIFIER) {
        node.value_or_empty()
    } else if node.is_kind(SCOPED_TYPE_IDENTIFIER) || node.is_kind(QUALIFIED_IDENTIFIER) {
        match get_name_from_scoped_type_identifier(node) {
            Some(n) => n,
            None => String::new(),
        }
    } else if node.is_kind(TEMPLATE_TYPE) {
        match node.child_by_field_name(NAME) {
            Some(name_node) => if name_node.is_kind(SCOPED_TYPE_IDENTIFIER) || name_node.is_kind(QUALIFIED_IDENTIFIER) {
                match get_name_from_scoped_type_identifier(name_node) {
                    Some(n) => n,
                    None => String::new(),
                }
            } else {
                name_node.value_or_empty()
            },
            None => String::new(),
        }
    } else {
        String::new()
    };
    if same_text(&parameter, VOID) {
        proof {
            reveal_strlit("void");
            assert(VOID@.len() == 4);
        }
        String::new()
    } else {
        parameter
    }
}

/// The name of a type from its name node: plain, scoped or templated.
fn get_name_from_class_name_node(node: &SyntaxNode) -> Option<String> {
    if node.is_kind(TYPE_IDENTIFIER) {
        node.value()
    } else if node.is_kind(SCOPED_TYPE_IDENTIFIER) || node.is_kind(QUALIFIED_IDENTIFIER) {
        get_name_from_scoped_type_identifier(node)
    } else if node.is_kind(TEMPLATE_TYPE) {
        match node.child_by_field_name(NAME) {
            Some(name_node) => if name_node.is_kind(TYPE_IDENTIFIER) {
                name_node.value()
            } else if name_node.is_kind(SCOPED_TYPE_IDENTIFIER) || name_node.is_kind(QUALIFIED_IDENTIFIER) {
                get_name_from_scoped_type_identifier(name_node)
            } else {
                None
            },
            None => None,
        }
    } else {
        None
    }
}

/// The last part of a scoped type name.
fn get_name_from_scoped_type_identifier(node: &SyntaxNode) -> (r: Option<String>)
    ensures
        opt_text(r) == scoped_name_text(*node),
{
    match node.child_by_field_name(NAME) {
        Some(name_node) => name_node.value(),
        None => None,
    }
}

} // verus!
