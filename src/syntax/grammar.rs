//! Parsing with tree-sitter, and conversion of its trees into `SyntaxNode`s.
use vstd::prelude::*;
use vstd::slice::slice_subrange;
use crate::syntax::{SyntaxNode, MAX_TOKEN_LENGTH};

verus! {

#[verifier::external_type_specification]
#[verifier::external_body]
pub struct ExLanguage(tree_sitter::Language);

#[verifier::external_type_specification]
#[verifier::external_body]
pub struct ExParser(tree_sitter::Parser);

#[verifier::external_type_specification]
#[verifier::external_body]
pub struct ExTree(tree_sitter::Tree);

#[verifier::external_type_specification]
#[verifier::external_body]
pub struct ExNode<'tree>(tree_sitter::Node<'tree>);

#[verifier::external_type_specification]
#[verifier::external_body]
pub struct ExTreeCursor<'tree>(tree_sitter::TreeCursor<'tree>);

/// A parser whose grammar is set. Only the `*_parser` functions below make
/// one, and nothing sets a timeout or a cancellation flag on it.
struct ReadyParser {
    parser: tree_sitter::Parser,
}

/// Relies on tree_sitter::Parser::new: a parser without a grammar, timeout
/// or cancellation flag.
#[verifier::external_body]
fn new_parser() -> tree_sitter::Parser {
    tree_sitter::Parser::new()
}

/// Relies on tree_sitter::Parser::set_language with tree_sitter_java's
/// grammar. It fails only for a grammar version outside 13..=14
/// (tree-sitter's include/tree_sitter/api.h); the grammar's src/parser.c
/// has version 14, so it succeeds.
#[verifier::external_body]
fn java_parser(parser: tree_sitter::Parser) -> (r: Option<ReadyParser>)
    ensures
        r is Some,
{
    let mut parser = parser;
    parser.set_language(tree_sitter_java::language()).ok().map(|_| ReadyParser { parser })
}

/// Relies on tree_sitter::Parser::set_language with tree_sitter_javascript's
/// grammar, of version 14 (src/parser.c), which tree-sitter accepts.
#[verifier::external_body]
fn javascript_parser(parser: tree_sitter::Parser) -> (r: Option<ReadyParser>)
    ensures
        r is Some,
{
    let mut parser = parser;
    parser.set_language(tree_sitter_javascript::language()).ok().map(|_| ReadyParser { parser })
}

/// Relies on tree_sitter::Parser::set_language with tree_sitter_python's
/// grammar, of version 14 (src/parser.c), which tree-sitter accepts.
#[verifier::external_body]
fn python_parser(parser: tree_sitter::Parser) -> (r: Option<ReadyParser>)
    ensures
        r is Some,
{
    let mut parser = parser;
    parser.set_language(tree_sitter_python::language()).ok().map(|_| ReadyParser { parser })
}

/// Relies on tree_sitter::Parser::set_language with tree_sitter_cpp's
/// grammar, of version 14 (src/parser.c), which tree-sitter accepts.
#[verifier::external_body]
fn cpp_parser(parser: tree_sitter::Parser) -> (r: Option<ReadyParser>)
    ensures
        r is Some,
{
    let mut parser = parser;
    parser.set_language(tree_sitter_cpp::language()).ok().map(|_| ReadyParser { parser })
}

/// Relies on tree_sitter::Parser::parse: the syntax tree of `source`, with
/// error nodes where it does not follow the grammar. Its documentation
/// gives `None` only without a grammar, or after a timeout or cancellation,
/// none of which a `ReadyParser` has.
#[verifier::external_body]
fn parse_text(parser: &mut ReadyParser, source: &str) -> (r: Option<tree_sitter::Tree>)
    ensures
        r is Some,
{
    parser.parser.parse(source, None)
}

/// Relies on tree_sitter::Tree::root_node.
#[verifier::external_body]
fn root_node<'tree>(tree: &'tree tree_sitter::Tree) -> tree_sitter::Node<'tree> {
    tree.root_node()
}

/// Relies on tree_sitter::Node::kind: the grammar's name for the node.
#[verifier::external_body]
fn node_kind(node: &tree_sitter::Node) -> String {
    node.kind().to_string()
}

/// Relies on tree_sitter::Node::is_named.
#[verifier::external_body]
fn node_is_named(node: &tree_sitter::Node) -> bool {
    node.is_named()
}

/// Relies on tree_sitter::Node::start_position: the 0-based row.
#[verifier::external_body]
fn node_row(node: &tree_sitter::Node) -> usize {
    node.start_position().row
}

/// Relies on tree_sitter::Node::start_position: the 0-based column.
#[verifier::external_body]
fn node_column(node: &tree_sitter::Node) -> usize {
    node.start_position().column
}

/// Relies on tree_sitter::Node::start_byte.
#[verifier::external_body]
fn node_start_byte(node: &tree_sitter::Node) -> usize {
    node.start_byte()
}

/// Relies on tree_sitter::Node::end_byte.
#[verifier::external_body]
fn node_end_byte(node: &tree_sitter::Node) -> usize {
    node.end_byte()
}

/// Relies on tree_sitter::Node::child_count.
#[verifier::external_body]
fn node_child_count(node: &tree_sitter::Node) -> usize {
    node.child_count()
}

/// Relies on tree_sitter::Node::walk: a cursor on `node`.
#[verifier::external_body]
fn node_walk<'tree>(node: &tree_sitter::Node<'tree>) -> tree_sitter::TreeCursor<'tree> {
    node.walk()
}

/// Relies on tree_sitter::TreeCursor::goto_first_child: moves to the first
/// child, telling whether there was one.
#[verifier::external_body]
fn cursor_first_child(cursor: &mut tree_sitter::TreeCursor) -> bool {
    cursor.goto_first_child()
}

/// Relies on tree_sitter::TreeCursor::goto_next_sibling: moves to the next
/// sibling, telling whether there was one.
#[verifier::external_body]
fn cursor_next_sibling(cursor: &mut tree_sitter::TreeCursor) -> bool {
    cursor.goto_next_sibling()
}

/// Relies on tree_sitter::TreeCursor::goto_parent: moves to the parent,
/// telling whether there was one.
#[verifier::external_body]
fn cursor_parent(cursor: &mut tree_sitter::TreeCursor) -> bool {
    cursor.goto_parent()
}

/// Relies on tree_sitter::TreeCursor::node: the node under the cursor.
#[verifier::external_body]
fn cursor_node<'tree>(cursor: &tree_sitter::TreeCursor<'tree>) -> tree_sitter::Node<'tree> {
    cursor.node()
}

/// Relies on tree_sitter::TreeCursor::field_name: the field under which the
/// node under the cursor hangs from its parent, if any.
#[verifier::external_body]
fn cursor_field_name(cursor: &tree_sitter::TreeCursor) -> Option<String> {
    cursor.field_name().map(|f| f.to_string())
}

/// Relies on std::str::from_utf8: the text that `bytes` encode, when they
/// are valid UTF-8.
#[verifier::external_body]
fn utf8_text(bytes: &[u8]) -> (r: Option<String>)
    ensures
        r is Some <==> vstd::utf8::valid_utf8(bytes@),
        r matches Some(s) ==> s@ == vstd::utf8::decode_utf8(bytes@),
{
    match std::str::from_utf8(bytes) {
        Ok(s) => Some(s.to_string()),
        Err(_) => None,
    }
}

/// The text between two byte offsets of `source`, when the range lies in it,
/// is at most `MAX_TOKEN_LENGTH` bytes long and is valid UTF-8.
pub fn token_text(source: &[u8], start: usize, end: usize) -> (r: Option<String>)
    ensures
        r is Some <==> (start <= end <= source@.len() && end - start <= MAX_TOKEN_LENGTH
            && vstd::utf8::valid_utf8(source@.subrange(start as int, end as int))),
        r matches Some(t) ==> t@ == vstd::utf8::decode_utf8(source@.subrange(start as int, end as int)),
{
    if start <= end && end <= source.len() && end - start <= MAX_TOKEN_LENGTH {
        let part = slice_subrange(source, start, end);
        utf8_text(part)
    } else {
        None
    }
}

/// The converted node under the cursor, without its children yet.
fn convert_one(cursor: &tree_sitter::TreeCursor, source: &[u8]) -> (r: SyntaxNode)
    ensures
        r.children@.len() == 0,
{
    let node = cursor_node(cursor);
    let field = cursor_field_name(cursor);
    let kind = node_kind(&node);
    let named = node_is_named(&node);
    let row = node_row(&node);
    let line = if row < usize::MAX { row + 1 } else { row };
    let column = node_column(&node);
    let text = token_text(source, node_start_byte(&node), node_end_byte(&node));
    SyntaxNode { kind, field, named, line, column, text, children: Vec::new() }
}

/// Moves the last node of `stack` into the children of the one before it.
fn close_top(stack: &mut Vec<SyntaxNode>)
    requires
        old(stack)@.len() >= 2,
    ensures
        final(stack)@.len() == old(stack)@.len() - 1,
{
    let done = stack.pop().unwrap();
    let mut parent = stack.pop().unwrap();
    parent.children.push(done);
    stack.push(parent);
}

/// Converts the tree below `root` in pre-order with a cursor, keeping the
/// open ancestors on a stack, so that deep nesting costs no recursion. The
/// walk takes at most `usize::MAX` steps, which no file reaches.
fn convert_tree(root: &tree_sitter::Node, source: &[u8]) -> (r: SyntaxNode)
    ensures
        r.field is None,
{
    let mut cursor = node_walk(root);
    let mut stack: Vec<SyntaxNode> = Vec::new();
    stack.push(convert_one(&cursor, source));
    let mut budget: usize = usize::MAX;
    let mut finished = false;
    while !finished && budget > 0
        invariant
            stack@.len() >= 1,
        decreases budget,
    {
        budget = budget - 1;
        if cursor_first_child(&mut cursor) {
            stack.push(convert_one(&cursor, source));
        } else {
            let mut climbing = true;
            while climbing && stack.len() >= 2
                invariant
                    stack@.len() >= 1,
                decreases stack@.len() + if climbing { 1nat } else { 0nat },
            {
                close_top(&mut stack);
                if cursor_next_sibling(&mut cursor) {
                    stack.push(convert_one(&cursor, source));
                    climbing = false;
                } else if !cursor_parent(&mut cursor) {
                    climbing = false;
                    finished = true;
                }
            }
            if climbing {
                finished = true;
            }
        }
    }
    while stack.len() >= 2
        invariant
            stack@.len() >= 1,
        decreases stack@.len(),
    {
        close_top(&mut stack);
    }
    let mut root_node = stack.pop().unwrap();
    root_node.field = None;
    root_node
}

/// The grammars this library can parse.
#[derive(Debug, Clone, Copy, PartialEq, Eq, Structural)]
pub enum Grammar {
    Java,
    JavaScript,
    Python,
    Cpp,
}

/// Parses `source` with `grammar`; a syntax tree is always had.
pub fn parse_source(source: &String, grammar: Grammar) -> (r: Option<SyntaxNode>)
    ensures
        r is Some,
        r matches Some(root) ==> root.field is None,
{
    let parser = new_parser();
    let ready = match grammar {
        Grammar::Java => java_parser(parser),
        Grammar::JavaScript => javascript_parser(parser),
        Grammar::Python => python_parser(parser),
        Grammar::Cpp => cpp_parser(parser),
    };
    let mut ready = match ready {
        Some(p) => p,
        None => return None,
    };
    let tree = match parse_text(&mut ready, source.as_str()) {
        Some(t) => t,
        None => return None,
    };
    let root = root_node(&tree);
    Some(convert_tree(&root, source.as_str().as_bytes()))
}

} // verus!
