use calc::error::{new, FailedOperationError};
use calc::op::Operator;

#[test]
fn default_is_none() {
    let operator = Operator::default();
    assert_eq!(operator, Operator::Unset);
}

#[test]
fn from_str() {
    if let Ok(operator) = "+".parse::<Operator>() {
        assert_eq!(operator, Operator::Add);
    } else {
        panic!("failed to parse operator");
    }

    if let Ok(operator) = "-".parse::<Operator>() {
        assert_eq!(operator, Operator::Subtract);
    } else {
        panic!("failed to parse operator");
    }

    if let Ok(operator) = "*".parse::<Operator>() {
        assert_eq!(operator, Operator::Multiply);
    } else {
        panic!("failed to parse operator");
    }

    if let Ok(operator) = "/".parse::<Operator>() {
        assert_eq!(operator, Operator::Divide);
    } else {
        panic!("failed to parse operator");
    }
}

#[test]
fn parse_refuses_other_text_verbatim() {
    for text in ["", "x", "++", " +", "+ ", "<none>", "÷"] {
        match Operator::parse(text) {
            Ok(op) => panic!("parsed {:?} from {:?}", op, text),
            Err(e) => {
                assert_eq!(e.operator(), text);
                assert_eq!(e.message(), format!("unsupported operator {}", text));
            }
        }
    }
}

#[test]
fn parse_divide_and_render_divide() {
    assert_eq!(Operator::parse("/").unwrap(), Operator::Divide);
    assert_eq!(Operator::Divide.render(), "/");
}

#[test]
fn render_each_operator() {
    assert_eq!(Operator::Add.render(), "+");
    assert_eq!(Operator::Subtract.render(), "-");
    assert_eq!(Operator::Multiply.render(), "*");
    assert_eq!(Operator::Divide.render(), "/");
    assert_eq!(Operator::Unset.render(), "<none>");
    assert_eq!(Operator::Multiply.symbol(), "*");
}

#[test]
fn parse_after_render_round_trip() {
    for op in [Operator::Add, Operator::Subtract, Operator::Multiply, Operator::Divide] {
        assert_eq!(Operator::parse(&op.render()).unwrap(), op);
    }
    assert!(Operator::parse(&Operator::Unset.render()).is_err());
}

#[test]
fn unsupported_operator_error_keeps_text() {
    let e = new(String::from("%"));
    assert_eq!(e.operator(), "%");
    assert_eq!(e.message(), "unsupported operator %");
}

#[test]
fn failed_operation_message() {
    let e = FailedOperationError { reason: String::from("zero divisor") };
    assert_eq!(e.message(), "Failed to perform operation: zero divisor");
}

#[test]
fn from_str_refuses_other_text_verbatim() {
    for text in ["", "x", "++", " +", "<none>"] {
        match text.parse::<Operator>() {
            Ok(op) => panic!("parsed {:?} from {:?}", op, text),
            Err(e) => assert_eq!(e.operator(), text),
        }
    }
    for op in [Operator::Add, Operator::Subtract, Operator::Multiply, Operator::Divide] {
        assert_eq!(op.render().parse::<Operator>().unwrap(), op);
    }
}
