//! The abstract syntax tree and its error carrier.

use vstd::prelude::*;
use vstd::string::StringExecFns;

verus! {

/// A literal value of the language.
#[derive(Debug, Clone, Copy, PartialEq, Eq, Structural)]
pub enum Value {
    True,
    False,
    Zero,
}

/// An arithmetic operator, attached only to `Arithmetic` nodes.
#[derive(Debug, Clone, Copy, PartialEq, Eq, Structural)]
pub enum Operator {
    Succ,
    Pred,
}

/// A declared parameter type, attached only to `Abstraction` nodes.
#[derive(Debug, Clone, Copy, PartialEq, Eq, Structural)]
pub enum Type {
    Bool,
    Nat,
}

/// One node of the abstract syntax tree. Each node exclusively owns its
/// children; the tree is never mutated after construction.
#[derive(Debug, PartialEq)]
pub enum ASTNode {
    AbstractionNode { ident: Box<ASTNode>, data_type: Type, body: Box<ASTNode> },
    ApplicationNode { left: Box<ASTNode>, right: Box<ASTNode> },
    IdentifierNode { name: String },
    ConditionNode { clause: Box<ASTNode>, then_arm: Box<ASTNode>, else_arm: Box<ASTNode> },
    ArithmeticNode { op: Operator, expr: Box<ASTNode> },
    IsZeroNode { expr: Box<ASTNode> },
    ValueNode { value: Value },
}

/// The mathematical model of an abstract syntax tree: the same shape as
/// `ASTNode`, with identifier names as sequences of characters.
pub enum AstView {
    AbstractionNode { ident: Box<AstView>, data_type: Type, body: Box<AstView> },
    ApplicationNode { left: Box<AstView>, right: Box<AstView> },
    IdentifierNode { name: Seq<char> },
    ConditionNode { clause: Box<AstView>, then_arm: Box<AstView>, else_arm: Box<AstView> },
    ArithmeticNode { op: Operator, expr: Box<AstView> },
    IsZeroNode { expr: Box<AstView> },
    ValueNode { value: Value },
}

pub open spec fn ast_view(n: ASTNode) -> AstView
    decreases n,
{
    match n {
        ASTNode::AbstractionNode { ident, data_type, body } => AstView::AbstractionNode {
            ident: Box::new(ast_view(*ident)),
            data_type,
            body: Box::new(ast_view(*body)),
        },
        ASTNode::ApplicationNode { left, right } => AstView::ApplicationNode {
            left: Box::new(ast_view(*left)),
            right: Box::new(ast_view(*right)),
        },
        ASTNode::IdentifierNode { name } => AstView::IdentifierNode { name: name@ },
        ASTNode::ConditionNode { clause, then_arm, else_arm } => AstView::ConditionNode {
            clause: Box::new(ast_view(*clause)),
            then_arm: Box::new(ast_view(*then_arm)),
            else_arm: Box::new(ast_view(*else_arm)),
        },
        ASTNode::ArithmeticNode { op, expr } => AstView::ArithmeticNode {
            op,
            expr: Box::new(ast_view(*expr)),
        },
        ASTNode::IsZeroNode { expr } => AstView::IsZeroNode { expr: Box::new(ast_view(*expr)) },
        ASTNode::ValueNode { value } => AstView::ValueNode { value },
    }
}

pub open spec fn spec_type_label(t: Type) -> Seq<char> {
    match t {
        Type::Bool => "Bool"@,
        Type::Nat => "Nat"@,
    }
}

pub open spec fn spec_op_label(o: Operator) -> Seq<char> {
    match o {
        Operator::Succ => "Succ"@,
        Operator::Pred => "Pred"@,
    }
}

pub open spec fn spec_value_label(v: Value) -> Seq<char> {
    match v {
        Value::True => "True"@,
        Value::False => "False"@,
        Value::Zero => "Zero"@,
    }
}

/// The text of the diagnostic dump of a tree: a pre-order walk that renders
/// one line per node — its kind and its scalar payload — each line opened by
/// the given indentation, which grows by one tab per nesting level.
pub open spec fn spec_print(n: AstView, indent: Seq<char>) -> Seq<char>
    decreases n,
{
    match n {
        AstView::AbstractionNode { ident, data_type, body } => indent + "Abstraction with type "@
            + spec_type_label(data_type) + "\n"@ + spec_print(*ident, indent + "\t"@) + spec_print(
            *body,
            indent + "\t"@,
        ),
        AstView::ApplicationNode { left, right } => indent + "Application\n"@ + spec_print(
            *left,
            indent + "\t"@,
        ) + spec_print(*right, indent + "\t"@),
        AstView::IdentifierNode { name } => indent + "Identifier with name "@ + name + "\n"@,
        AstView::ConditionNode { clause, then_arm, else_arm } => indent + "Condition\n"@
            + spec_print(*clause, indent + "\t"@) + spec_print(*then_arm, indent + "\t"@)
            + spec_print(*else_arm, indent + "\t"@),
        AstView::ArithmeticNode { op, expr } => indent + "Arithmetic with operator "@
            + spec_op_label(op) + "\n"@ + spec_print(*expr, indent + "\t"@),
        AstView::IsZeroNode { expr } => indent + "IsZero\n"@ + spec_print(*expr, indent + "\t"@),
        AstView::ValueNode { value } => indent + "Value "@ + spec_value_label(value) + "\n"@,
    }
}

fn type_label(t: Type) -> (r: String)
    ensures
        r@ == spec_type_label(t),
{
    match t {
        Type::Bool => String::from_str("Bool"),
        Type::Nat => String::from_str("Nat"),
    }
}

fn op_label(o: Operator) -> (r: String)
    ensures
        r@ == spec_op_label(o),
{
    match o {
        Operator::Succ => String::from_str("Succ"),
        Operator::Pred => String::from_str("Pred"),
    }
}

fn value_label(v: Value) -> (r: String)
    ensures
        r@ == spec_value_label(v),
{
    match v {
        Value::True => String::from_str("True"),
        Value::False => String::from_str("False"),
        Value::Zero => String::from_str("Zero"),
    }
}

impl ASTNode {
    /// Renders the diagnostic dump of this tree, one line per node, nested
    /// children indented by one tab per level. The tree is read, never
    /// changed; the text is a pure function of the tree, so printing twice
    /// yields the same text.
    pub fn print(&self) -> (r: String)
        ensures
            r@ == spec_print(ast_view(*self), Seq::<char>::empty()),
    {
        let indent = String::new();
        self.print_node(indent.as_str())
    }

    fn print_node(&self, indent: &str) -> (r: String)
        ensures
            r@ == spec_print(ast_view(*self), indent@),
        decreases *self,
    {
        match self {
            ASTNode::AbstractionNode { ident, data_type, body } => {
                let child_indent = indent.to_owned().concat("\t");
                let mut s = indent.to_owned();
                s.append("Abstraction with type ");
                s.append(type_label(*data_type).as_str());
                s.append("\n");
                s.append(ident.print_node(child_indent.as_str()).as_str());
                s.append(body.print_node(child_indent.as_str()).as_str());
                proof {
                    assert(s@ =~= spec_print(ast_view(*self), indent@));
                }
                s
            },
            ASTNode::ApplicationNode { left, right } => {
                let child_indent = indent.to_owned().concat("\t");
                let mut s = indent.to_owned();
                s.append("Application\n");
                s.append(left.print_node(child_indent.as_str()).as_str());
                s.append(right.print_node(child_indent.as_str()).as_str());
                proof {
                    assert(s@ =~= spec_print(ast_view(*self), indent@));
                }
                s
            },
            ASTNode::IdentifierNode { name } => {
                let mut s = indent.to_owned();
                s.append("Identifier with name ");
                s.append(name.as_str());
                s.append("\n");
                proof {
                    assert(s@ =~= spec_print(ast_view(*self), indent@));
                }
                s
            },
            ASTNode::ConditionNode { clause, then_arm, else_arm } => {
                let child_indent = indent.to_owned().concat("\t");
                let mut s = indent.to_owned();
                s.append("Condition\n");
                s.append(clause.print_node(child_indent.as_str()).as_str());
                s.append(then_arm.print_node(child_indent.as_str()).as_str());
                s.append(else_arm.print_node(child_indent.as_str()).as_str());
                proof {
                    assert(s@ =~= spec_print(ast_view(*self), indent@));
                }
                s
            },
            ASTNode::ArithmeticNode { op, expr } => {
                let child_indent = indent.to_owned().concat("\t");
                let mut s = indent.to_owned();
                s.append("Arithmetic with operator ");
                s.append(op_label(*op).as_str());
                s.append("\n");
                s.append(expr.print_node(child_indent.as_str()).as_str());
                proof {
                    assert(s@ =~= spec_print(ast_view(*self), indent@));
                }
                s
            },
            ASTNode::IsZeroNode { expr } => {
                let child_indent = indent.to_owned().concat("\t");
                let mut s = indent.to_owned();
                s.append("IsZero\n");
                s.append(expr.print_node(child_indent.as_str()).as_str());
                proof {
                    assert(s@ =~= spec_print(ast_view(*self), indent@));
                }
                s
            },
            ASTNode::ValueNode { value } => {
                let mut s = indent.to_owned();
                s.append("Value ");
                s.append(value_label(*value).as_str());
                s.append("\n");
                proof {
                    assert(s@ =~= spec_print(ast_view(*self), indent@));
                }
                s
            },
        }
    }
}

/// Printing is idempotent: any two renderings of the same tree are the same
/// text, because the rendering is a function of the tree alone.
pub proof fn lemma_print_idempotent(t: AstView, r1: Seq<char>, r2: Seq<char>)
    requires
        r1 == spec_print(t, Seq::<char>::empty()),
        r2 == spec_print(t, Seq::<char>::empty()),
    ensures
        r1 == r2,
{
}

/// The single message-bearing error used for every failure of the build.
#[derive(Debug)]
pub struct ASTError {
    message: String,
}

impl View for ASTError {
    type V = Seq<char>;

    closed spec fn view(&self) -> Seq<char> {
        self.message@
    }
}

impl ASTError {
    pub fn new(message: String) -> (e: ASTError)
        ensures
            e@ == message@,
    {
        ASTError { message }
    }

    /// The human-readable message this error carries.
    pub fn message(&self) -> (m: &str)
        ensures
            m@ == self@,
    {
        self.message.as_str()
    }
}

} // verus!
