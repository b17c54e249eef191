//! Construction of the abstract syntax tree from a parse tree.
//!
//! `spec_build_node` is the mathematical description of the whole layer: a
//! total function from a parse node to either the built tree or the exact
//! message of the first error. The executable dispatcher and builders are
//! proved to return precisely what it says, for every input.

use vstd::prelude::*;
use vstd::string::StringExecFns;

use crate::ast::{ASTError, ASTNode, AstView, Operator, Type, Value, ast_view};
use crate::parse_tree::{
    ParseNode, ParseNodeView, Tag, TagView, lemma_node_view_children, node_view, nodes_view,
    tag_view,
};

verus! {

/// The grammar-facing name of each recognized tag; an unknown tag is named by
/// the text it arrived with.
pub open spec fn spec_tag_name(t: TagView) -> Seq<char> {
    match t {
        TagView::Program => "program"@,
        TagView::Application => "application"@,
        TagView::Abstraction => "abstraction"@,
        TagView::Ident => "ident"@,
        TagView::Arithmetic => "arithmetic"@,
        TagView::ZeroCheck => "zero_check"@,
        TagView::IfThen => "if_then"@,
        TagView::TypeNat => "type_nat"@,
        TagView::TypeBool => "type_bool"@,
        TagView::OpSucc => "op_succ"@,
        TagView::OpPred => "op_pred"@,
        TagView::ValZero => "val_zero"@,
        TagView::ValTrue => "val_true"@,
        TagView::ValFalse => "val_false"@,
        TagView::Other(name) => name,
    }
}

pub open spec fn msg_invalid_program() -> Seq<char> {
    "Invalid program"@
}

pub open spec fn msg_empty_program() -> Seq<char> {
    "No application body in program"@
}

pub open spec fn msg_application_arity() -> Seq<char> {
    "Found application with incorrect number of arguments"@
}

pub open spec fn msg_abstraction_arity() -> Seq<char> {
    "Found abstraction with incorrect number of arguments"@
}

pub open spec fn msg_unknown_type() -> Seq<char> {
    "Incorrect type"@
}

pub open spec fn msg_unknown_operator() -> Seq<char> {
    "Incorrect operator"@
}

pub open spec fn msg_arithmetic_arity() -> Seq<char> {
    "Found arithmetic with incorrect number of arguments"@
}

pub open spec fn msg_zero_check_arity() -> Seq<char> {
    "Found zero check with incorrect number of arguments"@
}

pub open spec fn msg_if_then_arity() -> Seq<char> {
    "Found ifthenelse with incorrect number of arguments"@
}

/// The message reported for a tag the dispatcher does not handle.
pub open spec fn msg_unrecognized(t: TagView) -> Seq<char> {
    "Not implemented: "@ + spec_tag_name(t)
}

/// The declared type a type tag stands for, if it is one of the two
/// recognized type tags.
pub open spec fn spec_type_of_tag(t: TagView) -> Option<Type> {
    match t {
        TagView::TypeNat => Some(Type::Nat),
        TagView::TypeBool => Some(Type::Bool),
        _ => None,
    }
}

/// The operator an operator tag stands for, if it is one of the two
/// recognized operator tags.
pub open spec fn spec_op_of_tag(t: TagView) -> Option<Operator> {
    match t {
        TagView::OpSucc => Some(Operator::Succ),
        TagView::OpPred => Some(Operator::Pred),
        _ => None,
    }
}

/// What building one parse node returns: the finished subtree, or the first
/// error, found depth-first and fail-fast.
///
/// Per construct: a program recurses into its first child and fails only when
/// it has none; an application of one operand passes that operand through
/// unwrapped, one of two operands becomes an application node, and any other
/// count is an arity error; an abstraction demands three children and a
/// recognized type tag in the middle, the tag being checked before either
/// child is built; an identifier leaf captures its source text verbatim; an
/// arithmetic node demands an operator tag and one operand, the tag being
/// checked before the operand is built; a zero check wraps its single
/// operand; a conditional wraps its three children in order; the three value
/// tags become literal leaves; every other tag is an unrecognized rule.
pub open spec fn spec_build_node(p: ParseNodeView) -> Result<AstView, Seq<char>>
    decreases p,
    via spec_build_node_decreases
{
    match p.tag {
        TagView::Program => {
            if p.children.len() == 0 {
                Err(msg_empty_program())
            } else {
                spec_build_node(p.children[0])
            }
        },
        TagView::Application => {
            if p.children.len() == 1 {
                spec_build_node(p.children[0])
            } else if p.children.len() == 2 {
                match spec_build_node(p.children[0]) {
                    Err(e) => Err(e),
                    Ok(left) => match spec_build_node(p.children[1]) {
                        Err(e) => Err(e),
                        Ok(right) => Ok(
                            AstView::ApplicationNode {
                                left: Box::new(left),
                                right: Box::new(right),
                            },
                        ),
                    },
                }
            } else {
                Err(msg_application_arity())
            }
        },
        TagView::Abstraction => {
            if p.children.len() != 3 {
                Err(msg_abstraction_arity())
            } else {
                match spec_type_of_tag(p.children[1].tag) {
                    None => Err(msg_unknown_type()),
                    Some(data_type) => match spec_build_node(p.children[0]) {
                        Err(e) => Err(e),
                        Ok(ident) => match spec_build_node(p.children[2]) {
                            Err(e) => Err(e),
                            Ok(body) => Ok(
                                AstView::AbstractionNode {
                                    ident: Box::new(ident),
                                    data_type,
                                    body: Box::new(body),
                                },
                            ),
                        },
                    },
                }
            }
        },
        TagView::Ident => Ok(AstView::IdentifierNode { name: p.text }),
        TagView::Arithmetic => {
            if p.children.len() != 2 {
                Err(msg_arithmetic_arity())
            } else {
                match spec_op_of_tag(p.children[0].tag) {
                    None => Err(msg_unknown_operator()),
                    Some(op) => match spec_build_node(p.children[1]) {
                        Err(e) => Err(e),
                        Ok(expr) => Ok(AstView::ArithmeticNode { op, expr: Box::new(expr) }),
                    },
                }
            }
        },
        TagView::ZeroCheck => {
            if p.children.len() != 1 {
                Err(msg_zero_check_arity())
            } else {
                match spec_build_node(p.children[0]) {
                    Err(e) => Err(e),
                    Ok(expr) => Ok(AstView::IsZeroNode { expr: Box::new(expr) }),
                }
            }
        },
        TagView::IfThen => {
            if p.children.len() != 3 {
                Err(msg_if_then_arity())
            } else {
                match spec_build_node(p.children[0]) {
                    Err(e) => Err(e),
                    Ok(clause) => match spec_build_node(p.children[1]) {
                        Err(e) => Err(e),
                        Ok(then_arm) => match spec_build_node(p.children[2]) {
                            Err(e) => Err(e),
                            Ok(else_arm) => Ok(
                                AstView::ConditionNode {
                                    clause: Box::new(clause),
                                    then_arm: Box::new(then_arm),
                                    else_arm: Box::new(else_arm),
                                },
                            ),
                        },
                    },
                }
            }
        },
        TagView::ValZero => Ok(AstView::ValueNode { value: Value::Zero }),
        TagView::ValTrue => Ok(AstView::ValueNode { value: Value::True }),
        TagView::ValFalse => Ok(AstView::ValueNode { value: Value::False }),
        TagView::TypeNat => Err(msg_unrecognized(p.tag)),
        TagView::TypeBool => Err(msg_unrecognized(p.tag)),
        TagView::OpSucc => Err(msg_unrecognized(p.tag)),
        TagView::OpPred => Err(msg_unrecognized(p.tag)),
        TagView::Other(_) => Err(msg_unrecognized(p.tag)),
    }
}

#[via_fn]
proof fn spec_build_node_decreases(p: ParseNodeView) {
    assert forall|i: int| 0 <= i < p.children.len() implies #[trigger]
    decreases_to!(p => p.children[i]) by {
        assert(decreases_to!(p => p.children));
        assert(decreases_to!(p.children => p.children[i]));
    }
}

/// What building a whole parse result returns: the tree built from the first
/// node, or an error when the parser handed nothing in.
pub open spec fn spec_build_ast(nodes: Seq<ParseNodeView>) -> Result<AstView, Seq<char>> {
    if nodes.len() == 0 {
        Err(msg_invalid_program())
    } else {
        spec_build_node(nodes[0])
    }
}

/// The model of an executable build result: the tree's model on success, the
/// error's message on failure.
pub open spec fn build_result_view(r: Result<ASTNode, ASTError>) -> Result<AstView, Seq<char>> {
    match r {
        Ok(n) => Ok(ast_view(n)),
        Err(e) => Err(e@),
    }
}

/// Builds the abstract syntax tree from the ordered parse nodes the parser
/// produced. Only the first node is consumed: a whole program is expected to
/// parse to a single top-level node.
pub fn build_ast(parsed: &Vec<ParseNode>) -> (r: Result<ASTNode, ASTError>)
    ensures
        build_result_view(r) == spec_build_ast(nodes_view(parsed@)),
{
    if parsed.len() == 0 {
        Err(ASTError::new(String::from_str("Invalid program")))
    } else {
        proof {
            assert(nodes_view(parsed@)[0] == node_view(parsed@[0]));
        }
        build_node(&parsed[0])
    }
}

/// Dispatches one parse node to the builder its tag calls for.
pub fn build_node(pair: &ParseNode) -> (r: Result<ASTNode, ASTError>)
    ensures
        build_result_view(r) == spec_build_node(node_view(*pair)),
    decreases node_view(*pair), 1int,
{
    match &pair.tag {
        Tag::Program => build_program(pair),
        Tag::Application => build_application(pair),
        Tag::Abstraction => build_abstraction(pair),
        Tag::Ident => build_ident(pair),
        Tag::Arithmetic => build_arithmetic(pair),
        Tag::ZeroCheck => build_zero_check(pair),
        Tag::IfThen => build_if_then(pair),
        Tag::ValZero => Ok(ASTNode::ValueNode { value: Value::Zero }),
        Tag::ValTrue => Ok(ASTNode::ValueNode { value: Value::True }),
        Tag::ValFalse => Ok(ASTNode::ValueNode { value: Value::False }),
        Tag::TypeNat | Tag::TypeBool | Tag::OpSucc | Tag::OpPred | Tag::Other(_) => {
            let name = tag_name(&pair.tag);
            Err(ASTError::new(String::from_str("Not implemented: ").concat(name.as_str())))
        },
    }
}

/// The grammar-facing name of a tag, for the unrecognized-rule message.
fn tag_name(t: &Tag) -> (r: String)
    ensures
        r@ == spec_tag_name(tag_view(*t)),
{
    match t {
        Tag::Program => String::from_str("program"),
        Tag::Application => String::from_str("application"),
        Tag::Abstraction => String::from_str("abstraction"),
        Tag::Ident => String::from_str("ident"),
        Tag::Arithmetic => String::from_str("arithmetic"),
        Tag::ZeroCheck => String::from_str("zero_check"),
        Tag::IfThen => String::from_str("if_then"),
        Tag::TypeNat => String::from_str("type_nat"),
        Tag::TypeBool => String::from_str("type_bool"),
        Tag::OpSucc => String::from_str("op_succ"),
        Tag::OpPred => String::from_str("op_pred"),
        Tag::ValZero => String::from_str("val_zero"),
        Tag::ValTrue => String::from_str("val_true"),
        Tag::ValFalse => String::from_str("val_false"),
        Tag::Other(name) => name.clone(),
    }
}

/// A program node holds the one top-level expression; build that expression.
fn build_program(pair: &ParseNode) -> (r: Result<ASTNode, ASTError>)
    requires
        pair.tag == Tag::Program,
    ensures
        build_result_view(r) == spec_build_node(node_view(*pair)),
    decreases node_view(*pair), 0int,
{
    if pair.children.len() == 0 {
        Err(ASTError::new(String::from_str("No application body in program")))
    } else {
        proof {
            lemma_recurse(pair, 0);
        }
        build_node(&pair.children[0])
    }
}

/// A single operand passes through unwrapped — the grammar writes an
/// application as a non-empty operand list, and a singleton list is no
/// application at all; two operands become an application node.
fn build_application(pair: &ParseNode) -> (r: Result<ASTNode, ASTError>)
    requires
        pair.tag == Tag::Application,
    ensures
        build_result_view(r) == spec_build_node(node_view(*pair)),
    decreases node_view(*pair), 0int,
{
    if pair.children.len() == 1 {
        proof {
            lemma_recurse(pair, 0);
        }
        build_node(&pair.children[0])
    } else if pair.children.len() == 2 {
        proof {
            lemma_recurse(pair, 0);
            lemma_recurse(pair, 1);
        }
        let left = match build_node(&pair.children[0]) {
            Ok(node) => node,
            Err(e) => {
                return Err(e);
            },
        };
        let right = match build_node(&pair.children[1]) {
            Ok(node) => node,
            Err(e) => {
                return Err(e);
            },
        };
        Ok(ASTNode::ApplicationNode { left: Box::new(left), right: Box::new(right) })
    } else {
        Err(ASTError::new(String::from_str("Found application with incorrect number of arguments")))
    }
}

/// An abstraction holds its bound identifier, a type tag and a body; the
/// type tag is checked before either child is built.
fn build_abstraction(pair: &ParseNode) -> (r: Result<ASTNode, ASTError>)
    requires
        pair.tag == Tag::Abstraction,
    ensures
        build_result_view(r) == spec_build_node(node_view(*pair)),
    decreases node_view(*pair), 0int,
{
    if pair.children.len() == 3 {
        proof {
            lemma_recurse(pair, 0);
            lemma_recurse(pair, 1);
            lemma_recurse(pair, 2);
        }
        let data_type = match &pair.children[1].tag {
            Tag::TypeNat => Type::Nat,
            Tag::TypeBool => Type::Bool,
            _ => {
                return Err(ASTError::new(String::from_str("Incorrect type")));
            },
        };
        let ident = match build_node(&pair.children[0]) {
            Ok(node) => node,
            Err(e) => {
                return Err(e);
            },
        };
        let body = match build_node(&pair.children[2]) {
            Ok(node) => node,
            Err(e) => {
                return Err(e);
            },
        };
        Ok(ASTNode::AbstractionNode { ident: Box::new(ident), data_type, body: Box::new(body) })
    } else {
        Err(ASTError::new(String::from_str("Found abstraction with incorrect number of arguments")))
    }
}

/// An identifier leaf captures the source text it spans, verbatim.
fn build_ident(pair: &ParseNode) -> (r: Result<ASTNode, ASTError>)
    requires
        pair.tag == Tag::Ident,
    ensures
        build_result_view(r) == spec_build_node(node_view(*pair)),
{
    Ok(ASTNode::IdentifierNode { name: pair.text.clone() })
}

/// An arithmetic node holds an operator tag and one operand; the operator
/// tag is checked before the operand is built.
fn build_arithmetic(pair: &ParseNode) -> (r: Result<ASTNode, ASTError>)
    requires
        pair.tag == Tag::Arithmetic,
    ensures
        build_result_view(r) == spec_build_node(node_view(*pair)),
    decreases node_view(*pair), 0int,
{
    if pair.children.len() == 2 {
        proof {
            lemma_recurse(pair, 0);
            lemma_recurse(pair, 1);
        }
        let op = match &pair.children[0].tag {
            Tag::OpSucc => Operator::Succ,
            Tag::OpPred => Operator::Pred,
            _ => {
                return Err(ASTError::new(String::from_str("Incorrect operator")));
            },
        };
        let expr = match build_node(&pair.children[1]) {
            Ok(node) => node,
            Err(e) => {
                return Err(e);
            },
        };
        Ok(ASTNode::ArithmeticNode { op, expr: Box::new(expr) })
    } else {
        Err(ASTError::new(String::from_str("Found arithmetic with incorrect number of arguments")))
    }
}

/// A zero check wraps its single operand.
fn build_zero_check(pair: &ParseNode) -> (r: Result<ASTNode, ASTError>)
    requires
        pair.tag == Tag::ZeroCheck,
    ensures
        build_result_view(r) == spec_build_node(node_view(*pair)),
    decreases node_view(*pair), 0int,
{
    if pair.children.len() == 1 {
        proof {
            lemma_recurse(pair, 0);
        }
        let expr = match build_node(&pair.children[0]) {
            Ok(node) => node,
            Err(e) => {
                return Err(e);
            },
        };
        Ok(ASTNode::IsZeroNode { expr: Box::new(expr) })
    } else {
        Err(ASTError::new(String::from_str("Found zero check with incorrect number of arguments")))
    }
}

/// A conditional wraps its clause, then-branch and else-branch, in order.
fn build_if_then(pair: &ParseNode) -> (r: Result<ASTNode, ASTError>)
    requires
        pair.tag == Tag::IfThen,
    ensures
        build_result_view(r) == spec_build_node(node_view(*pair)),
    decreases node_view(*pair), 0int,
{
    if pair.children.len() == 3 {
        proof {
            lemma_recurse(pair, 0);
            lemma_recurse(pair, 1);
            lemma_recurse(pair, 2);
        }
        let clause = match build_node(&pair.children[0]) {
            Ok(node) => node,
            Err(e) => {
                return Err(e);
            },
        };
        let then_arm = match build_node(&pair.children[1]) {
            Ok(node) => node,
            Err(e) => {
                return Err(e);
            },
        };
        let else_arm = match build_node(&pair.children[2]) {
            Ok(node) => node,
            Err(e) => {
                return Err(e);
            },
        };
        Ok(ASTNode::ConditionNode {
            clause: Box::new(clause),
            then_arm: Box::new(then_arm),
            else_arm: Box::new(else_arm),
        })
    } else {
        Err(ASTError::new(String::from_str("Found ifthenelse with incorrect number of arguments")))
    }
}

/// Building is total and deterministic: on every parse node it yields either
/// a built tree or exactly one error — never both, never neither — and any
/// two builds of the same node agree.
pub proof fn lemma_build_total_deterministic(
    p: ParseNodeView,
    r1: Result<AstView, Seq<char>>,
    r2: Result<AstView, Seq<char>>,
)
    requires
        r1 == spec_build_node(p),
        r2 == spec_build_node(p),
    ensures
        r1 == r2,
        r1 is Ok <==> !(r1 is Err),
{
}

/// An application with no operand, or with three or more, is an arity error,
/// whatever its children hold.
pub proof fn lemma_application_arity(p: ParseNodeView)
    requires
        p.tag == TagView::Application,
        p.children.len() == 0 || p.children.len() >= 3,
    ensures
        spec_build_node(p) == Err::<AstView, Seq<char>>(msg_application_arity()),
{
}

/// An abstraction of three children whose middle child's tag is neither
/// recognized type tag fails with the unknown-type error, whatever its other
/// two children hold.
pub proof fn lemma_abstraction_unknown_type(p: ParseNodeView)
    requires
        p.tag == TagView::Abstraction,
        p.children.len() == 3,
        p.children[1].tag != TagView::TypeNat,
        p.children[1].tag != TagView::TypeBool,
    ensures
        spec_build_node(p) == Err::<AstView, Seq<char>>(msg_unknown_type()),
{
}

/// Recursing into a child stays within the parent's model: the child's model
/// is the matching element of the parent's, and the measure shrinks.
proof fn lemma_recurse(p: &ParseNode, i: int)
    requires
        0 <= i < p.children@.len(),
    ensures
        node_view(*p).children.len() == p.children@.len(),
        node_view(*p).children[i] == node_view(p.children@[i]),
        decreases_to!(node_view(*p) => node_view(p.children@[i])),
{
    lemma_node_view_children(p, i);
    let pv = node_view(*p);
    assert(decreases_to!(pv => pv.children));
    assert(decreases_to!(pv.children => pv.children[i]));
}

} // verus!
