//! The parse tree handed in by the surrounding parser: every node carries a
//! syntactic tag, the source text it spans, and its ordered children.
//!
//! The grammar's tag set is open; only the tags named by `Tag` are meaningful
//! to the builder, and every other tag travels through `Tag::Other` with its
//! name, so that a mismatch between grammar and builder is reported rather
//! than silently ignored.

use vstd::prelude::*;
use vstd::string::StringExecFns;

verus! {

/// The syntactic tags the builder knows, plus a fallthrough variant carrying
/// the name of any tag outside that set.
#[derive(Debug, PartialEq)]
pub enum Tag {
    Program,
    Application,
    Abstraction,
    Ident,
    Arithmetic,
    ZeroCheck,
    IfThen,
    TypeNat,
    TypeBool,
    OpSucc,
    OpPred,
    ValZero,
    ValTrue,
    ValFalse,
    Other(String),
}

/// The mathematical model of a tag: identical to `Tag`, with the unknown
/// tag's name as a sequence of characters.
pub enum TagView {
    Program,
    Application,
    Abstraction,
    Ident,
    Arithmetic,
    ZeroCheck,
    IfThen,
    TypeNat,
    TypeBool,
    OpSucc,
    OpPred,
    ValZero,
    ValTrue,
    ValFalse,
    Other(Seq<char>),
}

/// One node of the concrete parse tree.
#[derive(Debug, PartialEq)]
pub struct ParseNode {
    /// The syntactic category the grammar assigned to this node.
    pub tag: Tag,
    /// The exact source text this node spans; the builder reads it only on
    /// identifier leaves.
    pub text: String,
    /// The ordered child nodes.
    pub children: Vec<ParseNode>,
}

/// The mathematical model of a parse node.
pub struct ParseNodeView {
    pub tag: TagView,
    pub text: Seq<char>,
    pub children: Seq<ParseNodeView>,
}

pub open spec fn tag_view(t: Tag) -> TagView {
    match t {
        Tag::Program => TagView::Program,
        Tag::Application => TagView::Application,
        Tag::Abstraction => TagView::Abstraction,
        Tag::Ident => TagView::Ident,
        Tag::Arithmetic => TagView::Arithmetic,
        Tag::ZeroCheck => TagView::ZeroCheck,
        Tag::IfThen => TagView::IfThen,
        Tag::TypeNat => TagView::TypeNat,
        Tag::TypeBool => TagView::TypeBool,
        Tag::OpSucc => TagView::OpSucc,
        Tag::OpPred => TagView::OpPred,
        Tag::ValZero => TagView::ValZero,
        Tag::ValTrue => TagView::ValTrue,
        Tag::ValFalse => TagView::ValFalse,
        Tag::Other(name) => TagView::Other(name@),
    }
}

/// The tag a grammar rule name denotes; a name outside the recognized set
/// stays what it was, carried through `Other`.
pub open spec fn spec_tag_of_name(s: Seq<char>) -> TagView {
    if s == "program"@ {
        TagView::Program
    } else if s == "application"@ {
        TagView::Application
    } else if s == "abstraction"@ {
        TagView::Abstraction
    } else if s == "ident"@ {
        TagView::Ident
    } else if s == "arithmetic"@ {
        TagView::Arithmetic
    } else if s == "zero_check"@ {
        TagView::ZeroCheck
    } else if s == "if_then"@ {
        TagView::IfThen
    } else if s == "type_nat"@ {
        TagView::TypeNat
    } else if s == "type_bool"@ {
        TagView::TypeBool
    } else if s == "op_succ"@ {
        TagView::OpSucc
    } else if s == "op_pred"@ {
        TagView::OpPred
    } else if s == "val_zero"@ {
        TagView::ValZero
    } else if s == "val_true"@ {
        TagView::ValTrue
    } else if s == "val_false"@ {
        TagView::ValFalse
    } else {
        TagView::Other(s)
    }
}

impl Tag {
    /// Reads a grammar rule's name, as the parser spells it, into the tag it
    /// denotes; an unrecognized name is kept verbatim in `Other`.
    pub fn from_name(name: &str) -> (t: Tag)
        ensures
            tag_view(t) == spec_tag_of_name(name@),
    {
        let owned = name.to_owned();
        if owned == String::from_str("program") {
            Tag::Program
        } else if owned == String::from_str("application") {
            Tag::Application
        } else if owned == String::from_str("abstraction") {
            Tag::Abstraction
        } else if owned == String::from_str("ident") {
            Tag::Ident
        } else if owned == String::from_str("arithmetic") {
            Tag::Arithmetic
        } else if owned == String::from_str("zero_check") {
            Tag::ZeroCheck
        } else if owned == String::from_str("if_then") {
            Tag::IfThen
        } else if owned == String::from_str("type_nat") {
            Tag::TypeNat
        } else if owned == String::from_str("type_bool") {
            Tag::TypeBool
        } else if owned == String::from_str("op_succ") {
            Tag::OpSucc
        } else if owned == String::from_str("op_pred") {
            Tag::OpPred
        } else if owned == String::from_str("val_zero") {
            Tag::ValZero
        } else if owned == String::from_str("val_true") {
            Tag::ValTrue
        } else if owned == String::from_str("val_false") {
            Tag::ValFalse
        } else {
            Tag::Other(owned)
        }
    }
}

/// The model of a parse node, children modelled recursively in order. The
/// range guard keeps the recursion inside the node, which the termination
/// argument needs; the out-of-range branch is never read.
pub open spec fn node_view(p: ParseNode) -> ParseNodeView
    decreases p,
    via node_view_decreases
{
    ParseNodeView {
        tag: tag_view(p.tag),
        text: p.text@,
        children: Seq::new(
            p.children@.len(),
            |i: int|
                if 0 <= i < p.children@.len() {
                    node_view(p.children@[i])
                } else {
                    arbitrary()
                },
        ),
    }
}

#[via_fn]
proof fn node_view_decreases(p: ParseNode) {
    assert forall|i: int| 0 <= i < p.children@.len() implies decreases_to!(p => p.children@[i]) by {
        assert(decreases_to!(p => p.children));
        assert(decreases_to!(p.children => p.children@));
        assert(decreases_to!(p.children@ => p.children@[i]));
    }
}

/// The model of a whole sequence of parse nodes, as the parser hands them in.
pub open spec fn nodes_view(v: Seq<ParseNode>) -> Seq<ParseNodeView> {
    Seq::new(v.len(), |i: int| node_view(v[i]))
}

/// A node's model has one child model per child, in order.
pub proof fn lemma_node_view_children(p: &ParseNode, i: int)
    requires
        0 <= i < p.children@.len(),
    ensures
        node_view(*p).children.len() == p.children@.len(),
        node_view(*p).children[i] == node_view(p.children@[i]),
{
}

} // verus!
