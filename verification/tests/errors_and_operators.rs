use foolang::ast::operator::binary::BinaryOperator;
use foolang::ast::operator::unary::UnaryOperator;
use foolang::ast::operator::Operator;
use foolang::builder::Builder;
use foolang::error::all_error::parser_error::ParserError;
use foolang::error::all_error::AllError;
use foolang::error::Errors;
use foolang::ir::error::{IRError, IRErrorKind};
use foolang::lexer::operator::OperatorToken;

#[test]
fn parser_error_text() {
    let error = ParserError::new(-12, "unexpected token".to_string());
    assert_eq!(error.uid, -12);
    assert_eq!(error.to_string(), "Parser error: unexpected token (-12)");
    assert_eq!(ParserError::new(7, "x".to_string()).to_string(), "Parser error: x (7)");
    assert_eq!(
        ParserError::new(i32::MIN, String::new()).to_string(),
        "Parser error:  (-2147483648)"
    );
}

#[test]
fn errors_convert_into_all_error_and_errors() {
    let parser = ParserError::new(1, "bad".to_string());
    assert_eq!(AllError::from(parser.clone()), AllError::ParserError(parser.clone()));
    let ir = IRError::new(IRErrorKind::TypeError, "mismatch");
    assert_eq!(AllError::from(ir.clone()), AllError::IRError("mismatch".to_string()));
    match Errors::from(ir) {
        Errors::IRError(e) => {
            assert_eq!(e.kind, IRErrorKind::TypeError);
            assert_eq!(e.message, "mismatch");
        },
        other => panic!("unexpected {:?}", other),
    }
    assert!(matches!(Errors::from(parser), Errors::ParserError(_)));
}

#[test]
fn operators_from_tokens() {
    assert_eq!(BinaryOperator::from(OperatorToken::Plus), BinaryOperator::Add);
    assert_eq!(BinaryOperator::from(OperatorToken::Minus), BinaryOperator::Subtract);
    assert_eq!(BinaryOperator::from(OperatorToken::GreaterThanOrEqual), BinaryOperator::GreaterThanOrEqual);
    assert_eq!(BinaryOperator::from(OperatorToken::Or), BinaryOperator::Or);
    assert_eq!(UnaryOperator::from(OperatorToken::Minus), UnaryOperator::Negate);
    assert_eq!(UnaryOperator::from(OperatorToken::Not), UnaryOperator::Not);
    assert_eq!(UnaryOperator::from(OperatorToken::Star), UnaryOperator::Dereference);
    assert_eq!(UnaryOperator::from(OperatorToken::BitwiseNot), UnaryOperator::BitwiseNot);
    let unary = Operator::Unary(UnaryOperator::Not);
    let binary = Operator::Binary(BinaryOperator::Modulo);
    assert!(unary.is_unary() && !unary.is_binary());
    assert!(binary.is_binary() && !binary.is_unary());
}

#[test]
fn builder_starts_empty() {
    let mut builder = Builder::new();
    assert_eq!(builder, Builder::default());
    builder.set_filenames(vec!["main.foo".to_string()]);
    assert_ne!(builder, Builder::default());
}
