//! Tests of the operation engine and the tool server.

use calculator_chat::calculator::{Calculator, CalculatorError, Computation};
use calculator_chat::operand::Operand;
use calculator_chat::server::{
    AddRequest, Argument, ArgumentValue, DivideRequest, MultiplyRequest, SqrtRequest,
    SquareRequest, SubtractRequest, ToolCallError,
};

/// Packs a floating-point value into an operand, as the host does.
fn op(x: f64) -> Operand {
    Operand::new(x.to_bits(), format!("{}", x))
}

/// Evaluates a planned computation, as the host does.
fn evaluate(computation: &Computation) -> f64 {
    match computation {
        Computation::Add { a, b } => f64::from_bits(a.bits) + f64::from_bits(b.bits),
        Computation::Subtract { a, b } => f64::from_bits(a.bits) - f64::from_bits(b.bits),
        Computation::Multiply { a, b } => f64::from_bits(a.bits) * f64::from_bits(b.bits),
        Computation::Divide { a, b } => f64::from_bits(a.bits) / f64::from_bits(b.bits),
        Computation::Square { value } => f64::from_bits(value.bits) * f64::from_bits(value.bits),
        Computation::Sqrt { value } => f64::from_bits(value.bits).sqrt(),
    }
}

fn number_argument(name: &str, x: f64) -> Argument {
    Argument { name: name.to_string(), value: ArgumentValue::Number(op(x)) }
}

#[test]
fn bit_classification_matches_float_semantics() {
    let samples = [
        0.0,
        -0.0,
        1.5,
        -1.5,
        f64::MAX,
        f64::MIN,
        f64::MIN_POSITIVE,
        5e-324,
        f64::NAN,
        f64::INFINITY,
        f64::NEG_INFINITY,
    ];
    for &x in samples.iter() {
        let operand = op(x);
        assert_eq!(operand.is_nan(), x.is_nan(), "is_nan for {}", x);
        assert_eq!(operand.is_infinite(), x.is_infinite(), "is_infinite for {}", x);
        assert_eq!(operand.is_finite(), x.is_finite(), "is_finite for {}", x);
        if x.is_finite() {
            assert_eq!(operand.is_zero(), x == 0.0, "is_zero for {}", x);
            assert_eq!(operand.is_negative(), x < 0.0, "is_negative for {}", x);
        }
    }
}

#[test]
fn test_error_scenarios() {
    let calc = Calculator::new();

    // Division by zero
    let result = calc.perform_division(op(10.0), op(0.0));
    assert!(matches!(result, Err(CalculatorError::DivisionByZero)));

    // Negative square root, with the offending value preserved exactly
    let result = calc.perform_sqrt(op(-4.0));
    match result {
        Err(CalculatorError::NegativeSquareRoot { value }) => {
            assert_eq!(value.bits, (-4.0f64).to_bits());
            assert_eq!(value.text, "-4");
        }
        other => panic!("expected a negative-square-root error, got {:?}", other),
    }

    // Valid operation
    let result = calc.perform_addition(op(5.0), op(3.0));
    assert_eq!(evaluate(&result.unwrap()), 8.0);
}

#[test]
fn test_all_operations() {
    let calc = Calculator::new();

    // Addition
    assert_eq!(evaluate(&calc.perform_addition(op(10.0), op(5.0)).unwrap()), 15.0);

    // Subtraction
    assert_eq!(evaluate(&calc.perform_subtraction(op(10.0), op(3.0)).unwrap()), 7.0);

    // Multiplication
    assert_eq!(evaluate(&calc.perform_multiplication(op(4.0), op(5.0)).unwrap()), 20.0);

    // Division
    assert_eq!(evaluate(&calc.perform_division(op(15.0), op(3.0)).unwrap()), 5.0);

    // Square
    assert_eq!(evaluate(&calc.perform_square(op(4.0)).unwrap()), 16.0);

    // Square root
    assert_eq!(evaluate(&calc.perform_sqrt(op(9.0)).unwrap()), 3.0);
}

#[test]
fn test_invalid_inputs() {
    let calc = Calculator::new();

    // NaN inputs
    let result = calc.perform_addition(op(f64::NAN), op(5.0));
    assert!(matches!(result, Err(CalculatorError::InvalidInput { .. })));

    // Infinite inputs
    let result = calc.perform_multiplication(op(f64::INFINITY), op(2.0));
    assert!(matches!(result, Err(CalculatorError::InvalidInput { .. })));
}

#[test]
fn validation_runs_before_the_operation() {
    let calc = Calculator::new();

    // NaN or infinity in any position yields invalid input, even where the
    // operation-specific rule would also fire.
    let result = calc.perform_division(op(f64::NAN), op(0.0));
    match result {
        Err(CalculatorError::InvalidInput { message }) => {
            assert_eq!(message, "NaN values are not allowed");
        }
        other => panic!("expected invalid input, got {:?}", other),
    }

    let result = calc.perform_division(op(1.0), op(f64::NEG_INFINITY));
    match result {
        Err(CalculatorError::InvalidInput { message }) => {
            assert_eq!(message, "Infinite values are not allowed");
        }
        other => panic!("expected invalid input, got {:?}", other),
    }

    let result = calc.perform_sqrt(op(f64::NAN));
    assert!(matches!(result, Err(CalculatorError::InvalidInput { .. })));
}

#[test]
fn division_by_zero_never_reaches_arithmetic() {
    let calc = Calculator::new();

    // Both signed zeros compare equal to zero, so neither is ever divided
    // by and no infinity can come out of a zero divisor.
    assert!(matches!(
        calc.perform_division(op(10.0), op(0.0)),
        Err(CalculatorError::DivisionByZero)
    ));
    assert!(matches!(
        calc.perform_division(op(10.0), op(-0.0)),
        Err(CalculatorError::DivisionByZero)
    ));
}

#[test]
fn sqrt_of_negative_zero_is_accepted() {
    let calc = Calculator::new();
    // Negative zero is not strictly below zero.
    let result = calc.perform_sqrt(op(-0.0));
    assert!(result.is_ok());
}

#[test]
fn error_messages_render_exactly() {
    assert_eq!(
        CalculatorError::DivisionByZero.message(),
        "Division by zero is not allowed"
    );
    assert_eq!(
        CalculatorError::NegativeSquareRoot { value: op(-4.0) }.message(),
        "Cannot calculate square root of negative number: -4"
    );
    assert_eq!(
        CalculatorError::InvalidInput { message: "NaN values are not allowed".to_string() }
            .message(),
        "Invalid input: NaN values are not allowed"
    );
}

#[test]
fn results_render_as_expression_and_value() {
    let calc = Calculator::new();

    let computation = calc.perform_multiplication(op(4.0), op(5.0)).unwrap();
    let value = op(evaluate(&computation));
    assert_eq!(calc.format_result(&computation, &value), "4 × 5 = 20");

    let computation = calc.perform_division(op(15.0), op(3.0)).unwrap();
    let value = op(evaluate(&computation));
    assert_eq!(calc.format_result(&computation, &value), "15 ÷ 3 = 5");

    let computation = calc.perform_square(op(4.0)).unwrap();
    let value = op(evaluate(&computation));
    assert_eq!(calc.format_result(&computation, &value), "4² = 16");

    let computation = calc.perform_sqrt(op(9.0)).unwrap();
    let value = op(evaluate(&computation));
    assert_eq!(calc.format_result(&computation, &value), "√9 = 3");

    let computation = calc.perform_subtraction(op(10.0), op(3.0)).unwrap();
    let value = op(evaluate(&computation));
    assert_eq!(calc.format_result(&computation, &value), "10 - 3 = 7");
}

#[test]
fn invoke_add_round_trip() {
    let calc = Calculator::new();
    let arguments = vec![number_argument("a", 5.0), number_argument("b", 3.0)];
    let computation = calc.invoke_tool("add", &arguments).unwrap();
    let value = op(evaluate(&computation));
    let response = calc.complete_invocation(&computation, &value);
    assert_eq!(response.content.len(), 1);
    assert_eq!(response.content[0], "5 + 3 = 8");
}

#[test]
fn invoke_unknown_tool_is_not_found() {
    let calc = Calculator::new();
    let arguments = vec![number_argument("value", 2.0)];
    let result = calc.invoke_tool("power", &arguments);
    match result {
        Err(error @ ToolCallError::ToolNotFound { .. }) => {
            assert_eq!(error.message(), "Tool not found: power");
            assert_eq!(error.code(), -32601);
        }
        other => panic!("expected tool-not-found, got {:?}", other),
    }
}

#[test]
fn invoke_with_missing_parameter_is_invalid() {
    let calc = Calculator::new();
    let arguments = vec![number_argument("a", 5.0)];
    let result = calc.invoke_tool("add", &arguments);
    match result {
        Err(error @ ToolCallError::InvalidParameters { .. }) => {
            assert_eq!(error.message(), "missing required parameter: b");
            assert_eq!(error.code(), -32602);
        }
        other => panic!("expected invalid parameters, got {:?}", other),
    }
}

#[test]
fn invoke_with_wrong_typed_parameter_is_invalid() {
    let calc = Calculator::new();
    let arguments = vec![
        Argument { name: "a".to_string(), value: ArgumentValue::Other },
        number_argument("b", 3.0),
    ];
    let result = calc.invoke_tool("add", &arguments);
    match result {
        Err(ToolCallError::InvalidParameters { message }) => {
            assert_eq!(message, "parameter is not a number: a");
        }
        other => panic!("expected invalid parameters, got {:?}", other),
    }
}

#[test]
fn invoke_maps_domain_errors_to_protocol_errors() {
    let calc = Calculator::new();

    let arguments = vec![number_argument("a", 10.0), number_argument("b", 0.0)];
    let result = calc.invoke_tool("divide", &arguments);
    match result {
        Err(ToolCallError::InvalidParameters { message }) => {
            assert_eq!(message, "Division by zero is not allowed");
        }
        other => panic!("expected the domain error's message, got {:?}", other),
    }

    let arguments = vec![number_argument("value", -9.0)];
    let result = calc.invoke_tool("sqrt", &arguments);
    match result {
        Err(ToolCallError::InvalidParameters { message }) => {
            assert_eq!(message, "Cannot calculate square root of negative number: -9");
        }
        other => panic!("expected the domain error's message, got {:?}", other),
    }

    let arguments = vec![number_argument("a", f64::NAN), number_argument("b", 1.0)];
    let result = calc.invoke_tool("add", &arguments);
    match result {
        Err(ToolCallError::InvalidParameters { message }) => {
            assert_eq!(message, "Invalid input: NaN values are not allowed");
        }
        other => panic!("expected the domain error's message, got {:?}", other),
    }
}

#[test]
fn duplicate_parameters_use_the_first() {
    let calc = Calculator::new();
    let arguments = vec![
        number_argument("a", 1.0),
        number_argument("a", 9.0),
        number_argument("b", 2.0),
    ];
    let computation = calc.invoke_tool("add", &arguments).unwrap();
    let value = op(evaluate(&computation));
    let response = calc.complete_invocation(&computation, &value);
    assert_eq!(response.content[0], "1 + 2 = 3");
}

#[test]
fn list_tools_is_idempotent() {
    let calc = Calculator::new();
    let first = calc.list_tools();
    let second = calc.list_tools();
    assert_eq!(first.len(), 6);
    assert_eq!(first.len(), second.len());
    for (a, b) in first.iter().zip(second.iter()) {
        assert_eq!(a.name, b.name);
        assert_eq!(a.description, b.description);
        assert_eq!(a.input_schema, b.input_schema);
    }
}

#[test]
fn catalog_lists_every_operation() {
    let calc = Calculator::new();
    let tools = calc.list_tools();
    let names: Vec<&str> = tools.iter().map(|t| t.name.as_str()).collect();
    assert_eq!(names, vec!["add", "subtract", "multiply", "divide", "square", "sqrt"]);
    assert_eq!(tools[0].description, "Add two numbers together");
    assert!(tools[0].input_schema.contains("\"required\":[\"a\",\"b\"]"));
    assert!(tools[5].input_schema.contains("\"required\":[\"value\"]"));
}

#[test]
fn server_info_describes_the_calculator() {
    let calc = Calculator::new();
    let info = calc.get_info();
    assert_eq!(info.protocol_version, "2024-11-05");
    assert!(info.tools_enabled);
    assert!(info.instructions.contains("calculator"));
}

#[test]
fn typed_tool_requests_plan_and_report() {
    let calc = Calculator::new();

    let computation = calc.add(AddRequest { a: op(1.0), b: op(2.0) }).unwrap();
    assert_eq!(evaluate(&computation), 3.0);
    let computation = calc.subtract(SubtractRequest { a: op(5.0), b: op(2.0) }).unwrap();
    assert_eq!(evaluate(&computation), 3.0);
    let computation = calc.multiply(MultiplyRequest { a: op(6.0), b: op(7.0) }).unwrap();
    assert_eq!(evaluate(&computation), 42.0);
    let computation = calc.divide(DivideRequest { a: op(9.0), b: op(3.0) }).unwrap();
    assert_eq!(evaluate(&computation), 3.0);
    let computation = calc.square(SquareRequest { value: op(3.0) }).unwrap();
    assert_eq!(evaluate(&computation), 9.0);
    let computation = calc.sqrt(SqrtRequest { value: op(16.0) }).unwrap();
    assert_eq!(evaluate(&computation), 4.0);

    // Domain errors come out as protocol errors with the domain message.
    let result = calc.divide(DivideRequest { a: op(1.0), b: op(0.0) });
    match result {
        Err(ToolCallError::InvalidParameters { message }) => {
            assert_eq!(message, "Division by zero is not allowed");
        }
        other => panic!("expected invalid parameters, got {:?}", other),
    }
    let result = calc.sqrt(SqrtRequest { value: op(-4.0) });
    match result {
        Err(ToolCallError::InvalidParameters { message }) => {
            assert_eq!(message, "Cannot calculate square root of negative number: -4");
        }
        other => panic!("expected invalid parameters, got {:?}", other),
    }
}

#[test]
fn largest_finite_operands_are_accepted() {
    let calc = Calculator::new();
    let result = calc.perform_addition(op(f64::MAX), op(f64::MAX));
    assert!(result.is_ok());
}
