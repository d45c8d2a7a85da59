//! The library's own syntax tree: what the passes read of a parsed file,
//! as plain values.
use vstd::prelude::*;

pub mod grammar;

verus! {

/// Token text longer than this many bytes is treated as absent.
pub const MAX_TOKEN_LENGTH: usize = 250;

/// A node of a parsed file.
#[derive(Debug)]
pub struct SyntaxNode {
    /// The grammar's name for the node.
    pub kind: String,
    /// The field name under which the node hangs from its parent.
    pub field: Option<String>,
    /// Whether the grammar names this node (punctuation is unnamed).
    pub named: bool,
    /// 1-based line of the node's first character.
    pub line: usize,
    /// 0-based column of the node's first character.
    pub column: usize,
    /// The node's source text, absent when it is longer than
    /// `MAX_TOKEN_LENGTH` bytes.
    pub text: Option<String>,
    pub children: Vec<SyntaxNode>,
}

/// Whether a node hangs from its parent under field `name`.
pub open spec fn has_field(n: SyntaxNode, name: Seq<char>) -> bool {
    n.field is Some && n.field->0@ == name
}

/// `r` is the first node of `s` that satisfies `p`, or there is none and `r`
/// is `None`.
pub open spec fn first_such(s: Seq<SyntaxNode>, p: spec_fn(SyntaxNode) -> bool, r: Option<&SyntaxNode>) -> bool {
    match r {
        Some(c) => exists|i: int|
            0 <= i < s.len() && s[i] == *c && p(s[i]) && forall|j: int| 0 <= j < i ==> !p(#[trigger] s[j]),
        None => forall|i: int| 0 <= i < s.len() ==> !p(#[trigger] s[i]),
    }
}

/// A node's text, or the empty text when it is absent.
pub open spec fn text_or_empty(n: SyntaxNode) -> Seq<char> {
    match n.text {
        Some(t) => t@,
        None => Seq::<char>::empty(),
    }
}

/// How many of a node's children the grammar names.
pub open spec fn named_count(n: SyntaxNode) -> nat {
    n.children@.filter(|c: SyntaxNode| c.named).len()
}

/// Whether two texts are the same.
pub fn same_text(a: &String, b: &str) -> (r: bool)
    ensures
        r == (a@ == b@),
{
    *a == b.to_owned()
}

/// Whether `s` holds the character `c`.
pub fn has_char(s: &String, c: char) -> (r: bool)
    ensures
        r == s@.contains(c),
{
    let t = s.as_str();
    let n = t.unicode_len();
    let mut i: usize = 0;
    while i < n
        invariant
            n == s@.len(),
            t@ == s@,
            0 <= i <= n,
            forall|k: int| 0 <= k < i ==> s@[k] != c,
        decreases n - i,
    {
        if t.get_char(i) == c {
            return true;
        }
        i = i + 1;
    }
    false
}

/// A node handed out by `child_by_field_name` or `child_by_kind` is smaller
/// than its parent, so walks that descend into it end.
pub proof fn lemma_child_smaller(node: &SyntaxNode, p: spec_fn(SyntaxNode) -> bool, c: &SyntaxNode)
    requires
        first_such(node.children@, p, Some(c)),
    ensures
        decreases_to!(node => *c),
{
    let i = choose|i: int|
        0 <= i < node.children@.len() && node.children@[i] == *c && p(node.children@[i])
        && forall|j: int| 0 <= j < i ==> !p(#[trigger] node.children@[j]);
    assert(decreases_to!(node => node.children));
    assert(decreases_to!(node.children => node.children@));
    assert(decreases_to!(node.children@ => node.children@[i]));
}

/// The first node of `s` that satisfies `p`.
pub open spec fn first_of(s: Seq<SyntaxNode>, p: spec_fn(SyntaxNode) -> bool) -> Option<SyntaxNode> {
    if exists|i: int| 0 <= i < s.len() && p(s[i]) {
        let i = choose|i: int| 0 <= i < s.len() && p(s[i]) && forall|j: int| 0 <= j < i ==> !p(#[trigger] s[j]);
        Some(s[i])
    } else {
        None
    }
}

/// `first_such` names the node that `first_of` gives.
pub proof fn lemma_first_such_is_first_of(s: Seq<SyntaxNode>, p: spec_fn(SyntaxNode) -> bool, r: Option<&SyntaxNode>)
    requires
        first_such(s, p, r),
    ensures
        match r {
            Some(c) => first_of(s, p) == Some(*c),
            None => first_of(s, p) is None,
        },
{
    match r {
        Some(c) => {
            let i = choose|i: int|
                0 <= i < s.len() && s[i] == *c && p(s[i]) && forall|j: int| 0 <= j < i ==> !p(#[trigger] s[j]);
            assert(exists|i: int| 0 <= i < s.len() && p(s[i]));
            let k = choose|k: int| 0 <= k < s.len() && p(s[k]) && forall|j: int| 0 <= j < k ==> !p(#[trigger] s[j]);
            if k < i {
                assert(!p(s[k]));
            }
            if i < k {
                assert(!p(s[i]));
            }
            assert(k == i);
        },
        None => {},
    }
}

/// What `first_of` finds among a node's children is smaller than the node.
pub proof fn lemma_first_of_smaller(node: SyntaxNode, p: spec_fn(SyntaxNode) -> bool)
    ensures
        first_of(node.children@, p) matches Some(c) ==> decreases_to!(node => c),
{
    let s = node.children@;
    if exists|i: int| 0 <= i < s.len() && p(s[i]) {
        let i = choose|i: int| 0 <= i < s.len() && p(s[i]) && forall|j: int| 0 <= j < i ==> !p(#[trigger] s[j]);
        assert(exists|i: int| 0 <= i < s.len() && p(s[i]) && forall|j: int| 0 <= j < i ==> !p(#[trigger] s[j])) by {
            let k = choose|k: int| 0 <= k < s.len() && p(s[k]);
            lemma_least_index(s, p, k);
        }
        assert(decreases_to!(node => node.children));
        assert(decreases_to!(node.children => node.children@));
        assert(decreases_to!(node.children@ => node.children@[i]));
    }
}

/// If some node of `s` at or before `k` satisfies `p`, there is a first one.
proof fn lemma_least_index(s: Seq<SyntaxNode>, p: spec_fn(SyntaxNode) -> bool, k: int)
    requires
        0 <= k < s.len(),
        p(s[k]),
    ensures
        exists|i: int| 0 <= i < s.len() && p(s[i]) && forall|j: int| 0 <= j < i ==> !p(#[trigger] s[j]),
    decreases k,
{
    if exists|j: int| 0 <= j < k && p(s[j]) {
        let j = choose|j: int| 0 <= j < k && p(s[j]);
        lemma_least_index(s, p, j);
    } else {
        assert(forall|j: int| 0 <= j < k ==> !p(#[trigger] s[j]));
    }
}

impl SyntaxNode {
    /// The first child under field `name`.
    pub open spec fn child_by_field_name_spec(&self, name: Seq<char>) -> Option<SyntaxNode> {
        first_of(self.children@, |c: SyntaxNode| has_field(c, name))
    }

    /// The first child of kind `kind`.
    pub open spec fn child_by_kind_spec(&self, kind: Seq<char>) -> Option<SyntaxNode> {
        first_of(self.children@, |c: SyntaxNode| c.kind@ == kind)
    }

    /// Whether the node is of kind `kind`.
    pub fn is_kind(&self, kind: &str) -> (r: bool)
        ensures
            r == (self.kind@ == kind@),
    {
        same_text(&self.kind, kind)
    }

    /// The node's text, when it is not longer than the token limit.
    pub fn value(&self) -> (r: Option<String>)
        ensures
            r == self.text,
    {
        match &self.text {
            Some(t) => Some(t.clone()),
            None => None,
        }
    }

    /// The node's text, or the empty string when it is absent.
    pub fn value_or_empty(&self) -> (r: String)
        ensures
            r@ == text_or_empty(*self),
    {
        match &self.text {
            Some(t) => t.clone(),
            None => String::new(),
        }
    }

    /// The first child under field `name`.
    pub fn child_by_field_name(&self, name: &str) -> (r: Option<&SyntaxNode>)
        ensures
            first_such(self.children@, |c: SyntaxNode| has_field(c, name@), r),
            match r {
                Some(c) => self.child_by_field_name_spec(name@) == Some(*c),
                None => self.child_by_field_name_spec(name@) is None,
            },
    {
        let mut i: usize = 0;
        while i < self.children.len()
            invariant
                0 <= i <= self.children@.len(),
                forall|j: int| 0 <= j < i ==> !has_field(#[trigger] self.children@[j], name@),
            decreases self.children@.len() - i,
        {
            let c = &self.children[i];
            match &c.field {
                Some(f) => {
                    if same_text(f, name) {
                        proof {
                            lemma_first_such_is_first_of(self.children@, |c: SyntaxNode| has_field(c, name@), Some(c));
                        }
                        return Some(c);
                    }
                },
                None => {},
            }
            i = i + 1;
        }
        None
    }

    /// The first child of kind `kind`.
    pub fn child_by_kind(&self, kind: &str) -> (r: Option<&SyntaxNode>)
        ensures
            first_such(self.children@, |c: SyntaxNode| c.kind@ == kind@, r),
            match r {
                Some(c) => self.child_by_kind_spec(kind@) == Some(*c),
                None => self.child_by_kind_spec(kind@) is None,
            },
    {
        let mut i: usize = 0;
        while i < self.children.len()
            invariant
                0 <= i <= self.children@.len(),
                forall|j: int| 0 <= j < i ==> (#[trigger] self.children@[j]).kind@ != kind@,
            decreases self.children@.len() - i,
        {
            if self.children[i].is_kind(kind) {
                proof {
                    lemma_first_such_is_first_of(self.children@, |c: SyntaxNode| c.kind@ == kind@, Some(&self.children@[i as int]));
                }
                return Some(&self.children[i]);
            }
            i = i + 1;
        }
        None
    }

    /// The first child that the grammar names.
    pub fn first_named_child(&self) -> (r: Option<&SyntaxNode>)
        ensures
            first_such(self.children@, |c: SyntaxNode| c.named, r),
    {
        let mut i: usize = 0;
        while i < self.children.len()
            invariant
                0 <= i <= self.children@.len(),
                forall|j: int| 0 <= j < i ==> !(#[trigger] self.children@[j]).named,
            decreases self.children@.len() - i,
        {
            if self.children[i].named {
                return Some(&self.children[i]);
            }
            i = i + 1;
        }
        None
    }

    /// How many children the grammar names.
    pub fn named_child_count(&self) -> (r: usize)
        ensures
            r == named_count(*self),
    {
        let mut count: usize = 0;
        let mut i: usize = 0;
        while i < self.children.len()
            invariant
                0 <= i <= self.children@.len(),
                count == self.children@.subrange(0, i as int).filter(|c: SyntaxNode| c.named).len(),
                count <= i,
            decreases self.children@.len() - i,
        {
            proof {
                reveal_with_fuel(Seq::filter, 1);
                assert(self.children@.subrange(0, i + 1).drop_last() =~= self.children@.subrange(0, i as int));
            }
            if self.children[i].named {
                count = count + 1;
            }
            i = i + 1;
        }
        assert(self.children@.subrange(0, i as int) =~= self.children@);
        count
    }
}

} // verus!
