//! The declaration pass for Python.
use vstd::prelude::*;
use crate::dto::repository_method_dto::RepositoryMethodDto;
use crate::model::declaration::DeclarationNode;
use crate::model::python_object::CodeType;
use crate::syntax::{has_field, lemma_child_smaller, same_text, text_or_empty, SyntaxNode};
use crate::dto::invocation_structure::texts;
use crate::visitor::declarations::{
    attach, grows, is_method_node, lemma_grows_refl, lemma_grows_trans, method_node, package_node,
    type_node, type_with_constructor,
};
use crate::visitor::flatten::{extends_with, flatten, lemma_first_record, prepare_output_data, starts_with_package};

verus! {

const CLASS_DEFINITION: &'static str = "class_definition";
const FUNCTION_DEFINITION: &'static str = "function_definition";
const IDENTIFIER: &'static str = "identifier";
const TYPED_PARAMETER: &'static str = "typed_parameter";
const DEFAULT_PARAMETER: &'static str = "default_parameter";
const TYPED_DEFAULT_PARAMETER: &'static str = "typed_default_parameter";
const ERROR: &'static str = "ERROR";
const NAME: &'static str = "name";
const BODY: &'static str = "body";
const PARAMETERS: &'static str = "parameters";
const RETURN_TYPE: &'static str = "return_type";
const SUPERCLASSES: &'static str = "superclasses";
const CONSTRUCTOR_NAME: &'static str = "__init__";
const SELF_SPECIFIER: &'static str = "self";
const CLS_SPECIFIER: &'static str = "cls";
const ENUM: &'static str = "Enum";
const INT_ENUM: &'static str = "IntEnum";
const FLAG: &'static str = "Flag";
const INT_FLAG: &'static str = "IntFlag";

/// `s` with every non-overlapping occurrence of the non-empty `from`,
/// from left to right, replaced by `to`.
pub open spec fn replaced(s: Seq<char>, from: Seq<char>, to: Seq<char>) -> Seq<char>
    decreases s.len(),
{
    if from.len() == 0 || s.len() < from.len() {
        s
    } else if s.subrange(0, from.len() as int) == from {
        to + replaced(s.subrange(from.len() as int, s.len() as int), from, to)
    } else {
        seq![s[0]] + replaced(s.subrange(1, s.len() as int), from, to)
    }
}

/// Relies on str::replace, which replaces the non-overlapping matches of
/// `from` found from left to right.
#[verifier::external_body]
fn replace_text(s: &str, from: &str, to: &str) -> (r: String)
    requires
        from@.len() > 0,
    ensures
        r@ == replaced(s@, from@, to@),
{
    s.replace(from, to)
}

/// Whether a class body defines `__init__` at all.
pub open spec fn defines_init(body: SyntaxNode) -> bool {
    exists|i: int|
        0 <= i < body.children@.len() && (#[trigger] body.children@[i]).kind@ == "function_definition"@
            && (body.children@[i].child_by_field_name_spec("name"@) matches Some(n)
                && text_or_empty(n) == "__init__"@)
}

/// The module name of a file path: without `.py`, with dots for slashes.
pub fn convert_path_to_package(path: &String) -> (r: String)
    ensures
        r@ == replaced(replaced(path@, ".py"@, ""@), "/"@, "."@),
{
    proof {
        reveal_strlit(".py");
        reveal_strlit("/");
    }
    let without_extension = replace_text(path.as_str(), ".py", "");
    replace_text(without_extension.as_str(), "/", ".")
}

/// The declaration records of a parsed Python file: its module, named
/// after the path, then every class, constructor and function in source
/// order.
pub fn get_repository_method_dto(root: &SyntaxNode, path: &String, rep_id: i32) -> (r: Vec<RepositoryMethodDto>)
    ensures
        exists|tree: DeclarationNode|
            tree is Package && tree.data().type_code@ == CodeType::PYTHON_PACKAGE.spec_code()
                && tree.data().name@ == replaced(replaced(path@, ".py"@, ""@), "/"@, "."@)
                && extends_with(r@, Seq::empty(), rep_id, path@, flatten(tree, Seq::empty(), Seq::empty())),
        starts_with_package(r@, rep_id, path@, replaced(replaced(path@, ".py"@, ""@), "/"@, "."@), 0, CodeType::PYTHON_PACKAGE.spec_code()),
{
    let package_name = convert_path_to_package(path);
    let mut data = package_node(package_name, CodeType::PYTHON_PACKAGE.code(), 0);
    parse_root_node(root, &mut data);
    let mut method_dto_vec: Vec<RepositoryMethodDto> = Vec::new();
    let empty = String::new();
    prepare_output_data(&mut method_dto_vec, &data, rep_id, path, &empty, &empty);
    assert(method_dto_vec@.subrange(0, 0) =~= Seq::<RepositoryMethodDto>::empty());
    proof {
        reveal_strlit("PYTHON_PACKAGE");
        lemma_first_record(data, method_dto_vec@, rep_id, path@);
    }
    method_dto_vec
}

/// Adds the declarations among the named children of `node` to `parent`.
fn parse_root_node(node: &SyntaxNode, parent: &mut DeclarationNode)
    ensures
        grows(*old(parent), *final(parent)),
    decreases node, 0nat,
{
    proof { lemma_grows_refl(*parent); }
    let mut i: usize = 0;
    while i < node.children.len()
        invariant
            i <= node.children@.len(),
            grows(*old(parent), *parent),
        decreases node.children@.len() - i,
    {
        let ghost before = *parent;
        proof {
            assert(decreases_to!(node => node.children));
            assert(decreases_to!(node.children => node.children@));
            assert(decreases_to!(node.children@ => node.children@[i as int]));
        }
        if node.children[i].named {
            add_statement(&node.children[i], parent);
        }
        proof {
            lemma_grows_refl(*parent);
            lemma_grows_trans(*old(parent), before, *parent);
        }
        i = i + 1;
    }
}

/// Adds the class or function that `node` defines; error nodes are
/// searched as if they were not there.
fn add_statement(node: &SyntaxNode, parent: &mut DeclarationNode)
    ensures
        grows(*old(parent), *final(parent)),
    decreases node, 1nat,
{
    if node.is_kind(CLASS_DEFINITION) {
        add_class_definition(node, parent);
    } else if node.is_kind(FUNCTION_DEFINITION) {
        add_function_definition(node, parent);
    } else if node.is_kind(ERROR) {
        parse_root_node(node, parent);
    } else {
        proof { lemma_grows_refl(*parent); }
    }
}

/// Adds a class with its members. Unless its body defines `__init__`
/// without parameters, the class's first child is the implicit constructor.
fn add_class_definition(node: &SyntaxNode, parent: &mut DeclarationNode)
    ensures
        grows(*old(parent), *final(parent)),
        match (node.child_by_field_name_spec("name"@), node.child_by_field_name_spec("body"@)) {
            (Some(name_node), Some(body)) => {
                let class = final(parent).data().children@.last();
                &&& final(parent).data().children@.len() == old(parent).data().children@.len() + 1
                &&& class is Type
                &&& class.data().name@ == text_or_empty(name_node)
                &&& !defines_init(body) ==> class.data().children@.len() >= 1 && is_method_node(
                    class.data().children@[0], class.data().name@, CodeType::PYTHON_CONSTRUCTOR.spec_code(),
                    name_node.line, Seq::empty(), texts(class.data().modifiers@))
            },
            _ => *final(parent) == *old(parent),
        },
    decreases node, 0nat,
{
    proof { lemma_grows_refl(*parent); }
    let name_node = match node.child_by_field_name(NAME) {
        Some(n) => n,
        None => return,
    };
    let body = match node.child_by_field_name(BODY) {
        Some(b) => b,
        None => return,
    };
    proof { lemma_child_smaller(node, |c: SyntaxNode| has_field(c, BODY@), body); }
    let name = name_node.value_or_empty();
    let line = name_node.line;
    let code = get_type_code_from_class_node(node);
    let synthesize = !has_zero_arg_init(body);
    let mut class_node = if !synthesize {
        type_node(name, code.code(), line, Vec::new())
    } else {
        type_with_constructor(name, code.code(), CodeType::PYTHON_CONSTRUCTOR.code(), line, Vec::new())
    };
    let ghost built = class_node;
    parse_root_node(body, &mut class_node);
    assert(synthesize ==> class_node.data().children@[0] == built.data().children@[0]);
    attach(parent, class_node);
}

/// Adds a function, or a constructor for `__init__`, with the functions
/// nested in it.
fn add_function_definition(node: &SyntaxNode, parent: &mut DeclarationNode)
    ensures
        grows(*old(parent), *final(parent)),
    decreases node, 0nat,
{
    proof { lemma_grows_refl(*parent); }
    let name_node = match node.child_by_field_name(NAME) {
        Some(n) => n,
        None => return,
    };
    let params_node = match node.child_by_field_name(PARAMETERS) {
        Some(p) => p,
        None => return,
    };
    let body = match node.child_by_field_name(BODY) {
        Some(b) => b,
        None => return,
    };
    proof { lemma_child_smaller(node, |c: SyntaxNode| has_field(c, BODY@), body); }
    let written_name = name_node.value_or_empty();
    let (name, code) = if same_text(&written_name, CONSTRUCTOR_NAME) {
        (parent.get_name(), CodeType::PYTHON_CONSTRUCTOR)
    } else {
        (written_name, CodeType::PYTHON_METHOD)
    };
    let output = match node.child_by_field_name(RETURN_TYPE) {
        Some(return_node) => return_node.value_or_empty(),
        None => String::new(),
    };
    let mut function = method_node(name, code.code(), node.line, get_params_from_param_node(params_node), Vec::new(), output);
    parse_root_node(body, &mut function);
    attach(parent, function);
}

/// Whether a class body defines `__init__` with no parameter besides
/// `self` or `cls`.
fn has_zero_arg_init(body: &SyntaxNode) -> (r: bool)
    ensures
        r ==> defines_init(*body),
{
    let mut i: usize = 0;
    while i < body.children.len()
        invariant
            i <= body.children@.len(),
        decreases body.children@.len() - i,
    {
        let c = &body.children[i];
        if c.is_kind(FUNCTION_DEFINITION) {
            match (c.child_by_field_name(NAME), c.child_by_field_name(PARAMETERS)) {
                (Some(name_node), Some(params)) => {
                    if same_text(&name_node.value_or_empty(), CONSTRUCTOR_NAME)
                        && get_params_from_param_node(params).len() == 0 {
                        assert(body.children@[i as int] == *c);
                        return true;
                    }
                },
                _ => {},
            }
        }
        i = i + 1;
    }
    false
}

/// `PYTHON_ENUM` for a class that derives from `Enum`, `IntEnum`, `Flag`
/// or `IntFlag`; else `PYTHON_CLASS`.
fn get_type_code_from_class_node(node: &SyntaxNode) -> (r: CodeType)
    ensures
        r == CodeType::PYTHON_ENUM || r == CodeType::PYTHON_CLASS,
{
    let superclasses = match node.child_by_field_name(SUPERCLASSES) {
        Some(s) => s,
        None => return CodeType::PYTHON_CLASS,
    };
    let mut i: usize = 0;
    while i < superclasses.children.len()
        invariant
            i <= superclasses.children@.len(),
        decreases superclasses.children@.len() - i,
    {
        let c = &superclasses.children[i];
        if c.named {
            let value = c.value_or_empty();
            if same_text(&value, ENUM) || same_text(&value, INT_ENUM) || same_text(&value, FLAG)
                || same_text(&value, INT_FLAG) {
                return CodeType::PYTHON_ENUM;
            }
        }
        i = i + 1;
    }
    CodeType::PYTHON_CLASS
}

/// The parameter names of a function, without `self` and `cls`.
fn get_params_from_param_node(node: &SyntaxNode) -> (r: Vec<String>)
    ensures
        forall|k: int| 0 <= k < r@.len() ==> (#[trigger] r@[k])@ != SELF_SPECIFIER@ && r@[k]@ != CLS_SPECIFIER@
            && r@[k]@.len() > 0,
{
    let mut parameters: Vec<String> = Vec::new();
    let mut i: usize = 0;
    while i < node.children.len()
        invariant
            i <= node.children@.len(),
            forall|k: int| 0 <= k < parameters@.len() ==> (#[trigger] parameters@[k])@ != SELF_SPECIFIER@
                && parameters@[k]@ != CLS_SPECIFIER@ && parameters@[k]@.len() > 0,
        decreases node.children@.len() - i,
    {
        let child = &node.children[i];
        if child.named {
            let parameter = if child.is_kind(IDENTIFIER) {
                child.value_or_empty()
            } else if child.is_kind(DEFAULT_PARAMETER) || child.is_kind(TYPED_DEFAULT_PARAMETER) {
                match child.child_by_field_name(NAME) {
                    Some(n) => n.value_or_empty(),
                    None => String::new(),
                }
            } else if child.is_kind(TYPED_PARAMETER) {
                match child.child_by_kind(IDENTIFIER) {
                    Some(n) => n.value_or_empty(),
                    None => String::new(),
                }
            } else {
                String::new()
            };
            if !parameter.as_str().is_empty() && !same_text(&parameter, CLS_SPECIFIER) && !same_text(&parameter, SELF_SPECIFIER) {
                parameters.push(parameter);
            }
        }
        i = i + 1;
    }
    parameters
}

} // verus!
