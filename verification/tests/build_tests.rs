use lambda_ast::ast::{ASTError, ASTNode, Operator, Type, Value};
use lambda_ast::builder::{build_ast, build_node};
use lambda_ast::parse_tree::{ParseNode, Tag};

fn leaf(tag: Tag) -> ParseNode {
    ParseNode { tag, text: String::new(), children: Vec::new() }
}

fn ident(name: &str) -> ParseNode {
    ParseNode { tag: Tag::Ident, text: name.to_string(), children: Vec::new() }
}

fn node(tag: Tag, children: Vec<ParseNode>) -> ParseNode {
    ParseNode { tag, text: String::new(), children }
}

fn boxed(n: ASTNode) -> Box<ASTNode> {
    Box::new(n)
}

#[test]
fn scenario_abstraction_succ() {
    let tree = node(
        Tag::Abstraction,
        vec![
            ident("x"),
            leaf(Tag::TypeNat),
            node(Tag::Arithmetic, vec![leaf(Tag::OpSucc), ident("x")]),
        ],
    );
    let built = build_node(&tree).unwrap();
    let expected = ASTNode::AbstractionNode {
        ident: boxed(ASTNode::IdentifierNode { name: "x".to_string() }),
        data_type: Type::Nat,
        body: boxed(ASTNode::ArithmeticNode {
            op: Operator::Succ,
            expr: boxed(ASTNode::IdentifierNode { name: "x".to_string() }),
        }),
    };
    assert_eq!(built, expected);
}

#[test]
fn scenario_empty_program() {
    let err = build_node(&node(Tag::Program, vec![])).unwrap_err();
    assert_eq!(err.message(), "No application body in program");
}

#[test]
fn scenario_if_then_two_children() {
    let err = build_node(&node(Tag::IfThen, vec![leaf(Tag::ValTrue), leaf(Tag::ValZero)]))
        .unwrap_err();
    assert_eq!(err.message(), "Found ifthenelse with incorrect number of arguments");
}

#[test]
fn scenario_singleton_application_passes_through() {
    let built = build_node(&node(Tag::Application, vec![ident("x")])).unwrap();
    assert_eq!(built, ASTNode::IdentifierNode { name: "x".to_string() });
}

#[test]
fn scenario_arithmetic_pred_zero() {
    let built = build_node(&node(Tag::Arithmetic, vec![leaf(Tag::OpPred), leaf(Tag::ValZero)]))
        .unwrap();
    let expected = ASTNode::ArithmeticNode {
        op: Operator::Pred,
        expr: boxed(ASTNode::ValueNode { value: Value::Zero }),
    };
    assert_eq!(built, expected);
}

#[test]
fn empty_input_is_invalid_program() {
    let err = build_ast(&Vec::new()).unwrap_err();
    assert_eq!(err.message(), "Invalid program");
}

#[test]
fn build_ast_consumes_first_node() {
    let built = build_ast(&vec![node(Tag::Program, vec![leaf(Tag::ValTrue)])]).unwrap();
    assert_eq!(built, ASTNode::ValueNode { value: Value::True });
}

#[test]
fn application_zero_children_is_arity_error() {
    let err = build_node(&node(Tag::Application, vec![])).unwrap_err();
    assert_eq!(err.message(), "Found application with incorrect number of arguments");
}

#[test]
fn application_three_children_is_arity_error() {
    let err = build_node(&node(
        Tag::Application,
        vec![ident("f"), ident("x"), ident("y")],
    ))
    .unwrap_err();
    assert_eq!(err.message(), "Found application with incorrect number of arguments");
}

#[test]
fn application_two_children_builds() {
    let built = build_node(&node(Tag::Application, vec![ident("f"), ident("x")])).unwrap();
    let expected = ASTNode::ApplicationNode {
        left: boxed(ASTNode::IdentifierNode { name: "f".to_string() }),
        right: boxed(ASTNode::IdentifierNode { name: "x".to_string() }),
    };
    assert_eq!(built, expected);
}

#[test]
fn abstraction_bad_type_tag_is_unknown_type() {
    let err = build_node(&node(
        Tag::Abstraction,
        vec![ident("x"), leaf(Tag::ValZero), ident("x")],
    ))
    .unwrap_err();
    assert_eq!(err.message(), "Incorrect type");
}

#[test]
fn abstraction_bad_type_tag_wins_over_bad_first_child() {
    let err = build_node(&node(
        Tag::Abstraction,
        vec![node(Tag::Program, vec![]), ident("notatype"), ident("x")],
    ))
    .unwrap_err();
    assert_eq!(err.message(), "Incorrect type");
}

#[test]
fn abstraction_two_children_is_arity_error() {
    let err = build_node(&node(Tag::Abstraction, vec![ident("x"), leaf(Tag::TypeBool)]))
        .unwrap_err();
    assert_eq!(err.message(), "Found abstraction with incorrect number of arguments");
}

#[test]
fn abstraction_bool_builds() {
    let built = build_node(&node(
        Tag::Abstraction,
        vec![ident("b"), leaf(Tag::TypeBool), leaf(Tag::ValFalse)],
    ))
    .unwrap();
    let expected = ASTNode::AbstractionNode {
        ident: boxed(ASTNode::IdentifierNode { name: "b".to_string() }),
        data_type: Type::Bool,
        body: boxed(ASTNode::ValueNode { value: Value::False }),
    };
    assert_eq!(built, expected);
}

#[test]
fn arithmetic_bad_operator_is_unknown_operator() {
    let err = build_node(&node(Tag::Arithmetic, vec![ident("x"), leaf(Tag::ValZero)]))
        .unwrap_err();
    assert_eq!(err.message(), "Incorrect operator");
}

#[test]
fn arithmetic_one_child_is_arity_error() {
    let err = build_node(&node(Tag::Arithmetic, vec![leaf(Tag::OpSucc)])).unwrap_err();
    assert_eq!(err.message(), "Found arithmetic with incorrect number of arguments");
}

#[test]
fn zero_check_builds() {
    let built = build_node(&node(Tag::ZeroCheck, vec![leaf(Tag::ValZero)])).unwrap();
    assert_eq!(
        built,
        ASTNode::IsZeroNode { expr: boxed(ASTNode::ValueNode { value: Value::Zero }) }
    );
}

#[test]
fn zero_check_two_children_is_arity_error() {
    let err = build_node(&node(Tag::ZeroCheck, vec![leaf(Tag::ValZero), leaf(Tag::ValZero)]))
        .unwrap_err();
    assert_eq!(err.message(), "Found zero check with incorrect number of arguments");
}

#[test]
fn if_then_builds_condition_node() {
    let built = build_node(&node(
        Tag::IfThen,
        vec![leaf(Tag::ValTrue), leaf(Tag::ValZero), leaf(Tag::ValFalse)],
    ))
    .unwrap();
    let expected = ASTNode::ConditionNode {
        clause: boxed(ASTNode::ValueNode { value: Value::True }),
        then_arm: boxed(ASTNode::ValueNode { value: Value::Zero }),
        else_arm: boxed(ASTNode::ValueNode { value: Value::False }),
    };
    assert_eq!(built, expected);
}

#[test]
fn value_tags_build_literals() {
    assert_eq!(
        build_node(&leaf(Tag::ValZero)).unwrap(),
        ASTNode::ValueNode { value: Value::Zero }
    );
    assert_eq!(
        build_node(&leaf(Tag::ValTrue)).unwrap(),
        ASTNode::ValueNode { value: Value::True }
    );
    assert_eq!(
        build_node(&leaf(Tag::ValFalse)).unwrap(),
        ASTNode::ValueNode { value: Value::False }
    );
}

#[test]
fn unknown_tag_is_unrecognized_rule() {
    let err = build_node(&leaf(Tag::Other("comment".to_string()))).unwrap_err();
    assert_eq!(err.message(), "Not implemented: comment");
}

#[test]
fn type_tag_at_dispatch_is_unrecognized_rule() {
    let err = build_node(&leaf(Tag::TypeNat)).unwrap_err();
    assert_eq!(err.message(), "Not implemented: type_nat");
    let err = build_node(&leaf(Tag::OpPred)).unwrap_err();
    assert_eq!(err.message(), "Not implemented: op_pred");
}

#[test]
fn first_error_wins_in_application() {
    let bad_left = node(Tag::IfThen, vec![leaf(Tag::ValTrue), leaf(Tag::ValZero)]);
    let bad_right = node(Tag::ZeroCheck, vec![]);
    let err = build_node(&node(Tag::Application, vec![bad_left, bad_right])).unwrap_err();
    assert_eq!(err.message(), "Found ifthenelse with incorrect number of arguments");
}

#[test]
fn error_inside_body_aborts_abstraction() {
    let err = build_node(&node(
        Tag::Abstraction,
        vec![ident("x"), leaf(Tag::TypeNat), node(Tag::Program, vec![])],
    ))
    .unwrap_err();
    assert_eq!(err.message(), "No application body in program");
}

#[test]
fn ident_captures_text_verbatim() {
    let built = build_node(&ident("Weird Name  ")).unwrap();
    assert_eq!(built, ASTNode::IdentifierNode { name: "Weird Name  ".to_string() });
}

#[test]
fn ast_error_carries_its_message() {
    let err = ASTError::new("anything at all".to_string());
    assert_eq!(err.message(), "anything at all");
}

#[test]
fn tag_from_name_recognizes_the_grammar_rules() {
    assert_eq!(Tag::from_name("program"), Tag::Program);
    assert_eq!(Tag::from_name("application"), Tag::Application);
    assert_eq!(Tag::from_name("abstraction"), Tag::Abstraction);
    assert_eq!(Tag::from_name("ident"), Tag::Ident);
    assert_eq!(Tag::from_name("arithmetic"), Tag::Arithmetic);
    assert_eq!(Tag::from_name("zero_check"), Tag::ZeroCheck);
    assert_eq!(Tag::from_name("if_then"), Tag::IfThen);
    assert_eq!(Tag::from_name("type_nat"), Tag::TypeNat);
    assert_eq!(Tag::from_name("type_bool"), Tag::TypeBool);
    assert_eq!(Tag::from_name("op_succ"), Tag::OpSucc);
    assert_eq!(Tag::from_name("op_pred"), Tag::OpPred);
    assert_eq!(Tag::from_name("val_zero"), Tag::ValZero);
    assert_eq!(Tag::from_name("val_true"), Tag::ValTrue);
    assert_eq!(Tag::from_name("val_false"), Tag::ValFalse);
}

#[test]
fn tag_from_name_keeps_unknown_names() {
    assert_eq!(Tag::from_name("WHITESPACE"), Tag::Other("WHITESPACE".to_string()));
}
