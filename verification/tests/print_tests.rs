use lambda_ast::ast::{ASTNode, Operator, Type, Value};

fn boxed(n: ASTNode) -> Box<ASTNode> {
    Box::new(n)
}

fn sample_abstraction() -> ASTNode {
    ASTNode::AbstractionNode {
        ident: boxed(ASTNode::IdentifierNode { name: "x".to_string() }),
        data_type: Type::Nat,
        body: boxed(ASTNode::ArithmeticNode {
            op: Operator::Succ,
            expr: boxed(ASTNode::IdentifierNode { name: "x".to_string() }),
        }),
    }
}

#[test]
fn print_abstraction_tree() {
    let out = sample_abstraction().print();
    assert_eq!(
        out,
        "Abstraction with type Nat\n\
         \tIdentifier with name x\n\
         \tArithmetic with operator Succ\n\
         \t\tIdentifier with name x\n"
    );
}

#[test]
fn print_is_idempotent() {
    let tree = sample_abstraction();
    let first = tree.print();
    let second = tree.print();
    assert_eq!(first, second);
}

#[test]
fn print_literal_leaves() {
    assert_eq!(ASTNode::ValueNode { value: Value::True }.print(), "Value True\n");
    assert_eq!(ASTNode::ValueNode { value: Value::False }.print(), "Value False\n");
    assert_eq!(ASTNode::ValueNode { value: Value::Zero }.print(), "Value Zero\n");
}

#[test]
fn print_condition_walks_clause_then_else() {
    let tree = ASTNode::ConditionNode {
        clause: boxed(ASTNode::IsZeroNode {
            expr: boxed(ASTNode::IdentifierNode { name: "n".to_string() }),
        }),
        then_arm: boxed(ASTNode::ValueNode { value: Value::Zero }),
        else_arm: boxed(ASTNode::ValueNode { value: Value::True }),
    };
    assert_eq!(
        tree.print(),
        "Condition\n\
         \tIsZero\n\
         \t\tIdentifier with name n\n\
         \tValue Zero\n\
         \tValue True\n"
    );
}

#[test]
fn print_application_left_then_right() {
    let tree = ASTNode::ApplicationNode {
        left: boxed(ASTNode::IdentifierNode { name: "f".to_string() }),
        right: boxed(ASTNode::ValueNode { value: Value::Zero }),
    };
    assert_eq!(
        tree.print(),
        "Application\n\
         \tIdentifier with name f\n\
         \tValue Zero\n"
    );
}

#[test]
fn print_bool_abstraction_label() {
    let tree = ASTNode::AbstractionNode {
        ident: boxed(ASTNode::IdentifierNode { name: "b".to_string() }),
        data_type: Type::Bool,
        body: boxed(ASTNode::ArithmeticNode {
            op: Operator::Pred,
            expr: boxed(ASTNode::ValueNode { value: Value::Zero }),
        }),
    };
    assert_eq!(
        tree.print(),
        "Abstraction with type Bool\n\
         \tIdentifier with name b\n\
         \tArithmetic with operator Pred\n\
         \t\tValue Zero\n"
    );
}
