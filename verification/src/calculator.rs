//! The operation engine of the calculator tool server.
//!
//! Every operation first validates its operands: NaN or infinite values are
//! rejected as invalid input before any operation-specific logic runs. The
//! operation-specific rules then classify division by zero and square roots
//! of negative numbers as domain errors. What remains is a well-formed
//! [`Computation`]: a fully validated arithmetic step whose floating-point
//! evaluation is handed to the host, which returns the resulting value with
//! its decimal rendering.

use vstd::prelude::*;
use vstd::string::StringExecFns;
use crate::operand::{
    Operand, OperandView, is_finite_bits, is_nan_bits, is_negative_bits, is_zero_bits,
};

verus! {

/// Message attached to invalid input when an operand is NaN.
pub open spec fn nan_message() -> Seq<char> {
    "NaN values are not allowed"@
}

/// Message attached to invalid input when an operand is infinite.
pub open spec fn infinite_message() -> Seq<char> {
    "Infinite values are not allowed"@
}

/// True when the operand cannot enter any operation.
pub open spec fn operand_faulty(v: OperandView) -> bool {
    !is_finite_bits(v.bits)
}

/// The invalid-input message for a single faulty operand.
pub open spec fn operand_fault_message(v: OperandView) -> Seq<char> {
    if is_nan_bits(v.bits) {
        nan_message()
    } else {
        infinite_message()
    }
}

/// True when at least one of two operands cannot enter an operation.
pub open spec fn operands_faulty(a: OperandView, b: OperandView) -> bool {
    operand_faulty(a) || operand_faulty(b)
}

/// The invalid-input message for a pair of operands: the first operand is
/// examined before the second.
pub open spec fn operands_fault_message(a: OperandView, b: OperandView) -> Seq<char> {
    if operand_faulty(a) {
        operand_fault_message(a)
    } else {
        operand_fault_message(b)
    }
}

/// The specification-level value of a [`CalculatorError`].
pub ghost enum CalculatorErrorView {
    DivisionByZero,
    NegativeSquareRoot { value: OperandView },
    InvalidInput { message: Seq<char> },
}

impl CalculatorErrorView {
    /// The human-readable message of the error.
    pub open spec fn message(self) -> Seq<char> {
        match self {
            CalculatorErrorView::DivisionByZero => "Division by zero is not allowed"@,
            CalculatorErrorView::NegativeSquareRoot { value } => {
                "Cannot calculate square root of negative number: "@ + value.text
            },
            CalculatorErrorView::InvalidInput { message } => "Invalid input: "@ + message,
        }
    }
}

/// A domain error of the calculator: an error arising from the mathematical
/// semantics of an operation, as opposed to a protocol or transport error.
#[derive(Debug)]
pub enum CalculatorError {
    /// The divisor of a division compared equal to zero.
    DivisionByZero,
    /// A square root was requested of a value strictly below zero; the
    /// offending value is preserved exactly.
    NegativeSquareRoot { value: Operand },
    /// An operand was rejected before the operation ran.
    InvalidInput { message: String },
}

impl View for CalculatorError {
    type V = CalculatorErrorView;

    open spec fn view(&self) -> CalculatorErrorView {
        match self {
            CalculatorError::DivisionByZero => CalculatorErrorView::DivisionByZero,
            CalculatorError::NegativeSquareRoot { value } => {
                CalculatorErrorView::NegativeSquareRoot { value: value@ }
            },
            CalculatorError::InvalidInput { message } => {
                CalculatorErrorView::InvalidInput { message: message@ }
            },
        }
    }
}

impl CalculatorError {
    /// Renders the human-readable message of the error.
    pub fn message(&self) -> (message: String)
        ensures
            message@ == self@.message(),
    {
        match self {
            CalculatorError::DivisionByZero => "Division by zero is not allowed".to_owned(),
            CalculatorError::NegativeSquareRoot { value } => {
                let mut text = "Cannot calculate square root of negative number: ".to_owned();
                text.append(value.text.as_str());
                text
            },
            CalculatorError::InvalidInput { message } => {
                let mut text = "Invalid input: ".to_owned();
                text.append(message.as_str());
                text
            },
        }
    }
}

/// The specification-level value of a [`Computation`].
pub ghost enum ComputationView {
    Add { a: OperandView, b: OperandView },
    Subtract { a: OperandView, b: OperandView },
    Multiply { a: OperandView, b: OperandView },
    Divide { a: OperandView, b: OperandView },
    Square { value: OperandView },
    Sqrt { value: OperandView },
}

impl ComputationView {
    /// Every computation the engine hands out is well formed: all operands
    /// are finite, a divisor is nonzero, and a square-root operand is not
    /// negative. No arithmetic is ever requested outside these bounds.
    pub open spec fn well_formed(self) -> bool {
        match self {
            ComputationView::Add { a, b } => !operands_faulty(a, b),
            ComputationView::Subtract { a, b } => !operands_faulty(a, b),
            ComputationView::Multiply { a, b } => !operands_faulty(a, b),
            ComputationView::Divide { a, b } => !operands_faulty(a, b) && !is_zero_bits(b.bits),
            ComputationView::Square { value } => !operand_faulty(value),
            ComputationView::Sqrt { value } => !operand_faulty(value) && !is_negative_bits(
                value.bits,
            ),
        }
    }

    /// The rendering of the computation's operands, e.g. `3 + 4`.
    pub open spec fn expression(self) -> Seq<char> {
        match self {
            ComputationView::Add { a, b } => a.text + " + "@ + b.text,
            ComputationView::Subtract { a, b } => a.text + " - "@ + b.text,
            ComputationView::Multiply { a, b } => a.text + " × "@ + b.text,
            ComputationView::Divide { a, b } => a.text + " ÷ "@ + b.text,
            ComputationView::Square { value } => value.text + "²"@,
            ComputationView::Sqrt { value } => "√"@ + value.text,
        }
    }
}

/// One fully validated arithmetic step, ready for floating-point evaluation
/// by the host.
#[derive(Debug)]
pub enum Computation {
    Add { a: Operand, b: Operand },
    Subtract { a: Operand, b: Operand },
    Multiply { a: Operand, b: Operand },
    Divide { a: Operand, b: Operand },
    Square { value: Operand },
    Sqrt { value: Operand },
}

impl View for Computation {
    type V = ComputationView;

    open spec fn view(&self) -> ComputationView {
        match self {
            Computation::Add { a, b } => ComputationView::Add { a: a@, b: b@ },
            Computation::Subtract { a, b } => ComputationView::Subtract { a: a@, b: b@ },
            Computation::Multiply { a, b } => ComputationView::Multiply { a: a@, b: b@ },
            Computation::Divide { a, b } => ComputationView::Divide { a: a@, b: b@ },
            Computation::Square { value } => ComputationView::Square { value: value@ },
            Computation::Sqrt { value } => ComputationView::Sqrt { value: value@ },
        }
    }
}

impl Computation {
    /// Renders the computation's operands, e.g. `3 + 4`.
    pub fn expression(&self) -> (text: String)
        ensures
            text@ == self@.expression(),
    {
        match self {
            Computation::Add { a, b } => {
                let mut text = a.text.clone();
                text.append(" + ");
                text.append(b.text.as_str());
                text
            },
            Computation::Subtract { a, b } => {
                let mut text = a.text.clone();
                text.append(" - ");
                text.append(b.text.as_str());
                text
            },
            Computation::Multiply { a, b } => {
                let mut text = a.text.clone();
                text.append(" × ");
                text.append(b.text.as_str());
                text
            },
            Computation::Divide { a, b } => {
                let mut text = a.text.clone();
                text.append(" ÷ ");
                text.append(b.text.as_str());
                text
            },
            Computation::Square { value } => {
                let mut text = value.text.clone();
                text.append("²");
                text
            },
            Computation::Sqrt { value } => {
                let mut text = "√".to_owned();
                text.append(value.text.as_str());
                text
            },
        }
    }
}

/// What an operation returns, at the specification level.
pub open spec fn outcome_view(result: Result<Computation, CalculatorError>) -> Result<
    ComputationView,
    CalculatorErrorView,
> {
    match result {
        Ok(computation) => Ok(computation@),
        Err(error) => Err(error@),
    }
}

/// The outcome of addition on validated operands.
pub open spec fn addition_spec(a: OperandView, b: OperandView) -> Result<
    ComputationView,
    CalculatorErrorView,
> {
    if operands_faulty(a, b) {
        Err(CalculatorErrorView::InvalidInput { message: operands_fault_message(a, b) })
    } else {
        Ok(ComputationView::Add { a, b })
    }
}

/// The outcome of subtraction on validated operands.
pub open spec fn subtraction_spec(a: OperandView, b: OperandView) -> Result<
    ComputationView,
    CalculatorErrorView,
> {
    if operands_faulty(a, b) {
        Err(CalculatorErrorView::InvalidInput { message: operands_fault_message(a, b) })
    } else {
        Ok(ComputationView::Subtract { a, b })
    }
}

/// The outcome of multiplication on validated operands.
pub open spec fn multiplication_spec(a: OperandView, b: OperandView) -> Result<
    ComputationView,
    CalculatorErrorView,
> {
    if operands_faulty(a, b) {
        Err(CalculatorErrorView::InvalidInput { message: operands_fault_message(a, b) })
    } else {
        Ok(ComputationView::Multiply { a, b })
    }
}

/// The outcome of division: validation first, then the divisor is compared
/// to zero exactly, with no tolerance.
pub open spec fn division_spec(a: OperandView, b: OperandView) -> Result<
    ComputationView,
    CalculatorErrorView,
> {
    if operands_faulty(a, b) {
        Err(CalculatorErrorView::InvalidInput { message: operands_fault_message(a, b) })
    } else if is_zero_bits(b.bits) {
        Err(CalculatorErrorView::DivisionByZero)
    } else {
        Ok(ComputationView::Divide { a, b })
    }
}

/// The outcome of squaring a validated operand.
pub open spec fn square_spec(value: OperandView) -> Result<
    ComputationView,
    CalculatorErrorView,
> {
    if operand_faulty(value) {
        Err(CalculatorErrorView::InvalidInput { message: operand_fault_message(value) })
    } else {
        Ok(ComputationView::Square { value })
    }
}

/// The outcome of a square root: validation first, then values strictly
/// below zero are rejected with the offending value preserved.
pub open spec fn sqrt_spec(value: OperandView) -> Result<
    ComputationView,
    CalculatorErrorView,
> {
    if operand_faulty(value) {
        Err(CalculatorErrorView::InvalidInput { message: operand_fault_message(value) })
    } else if is_negative_bits(value.bits) {
        Err(CalculatorErrorView::NegativeSquareRoot { value })
    } else {
        Ok(ComputationView::Sqrt { value })
    }
}

/// Whenever a NaN or infinite operand stands in any position of a
/// two-operand operation, the operation yields invalid input — before any
/// arithmetic is attempted: no computation is planned at all.
pub proof fn lemma_nonfinite_operands_rejected(a: OperandView, b: OperandView)
    requires
        operands_faulty(a, b),
    ensures
        addition_spec(a, b) == Err::<ComputationView, CalculatorErrorView>(
            CalculatorErrorView::InvalidInput { message: operands_fault_message(a, b) },
        ),
        subtraction_spec(a, b) == Err::<ComputationView, CalculatorErrorView>(
            CalculatorErrorView::InvalidInput { message: operands_fault_message(a, b) },
        ),
        multiplication_spec(a, b) == Err::<ComputationView, CalculatorErrorView>(
            CalculatorErrorView::InvalidInput { message: operands_fault_message(a, b) },
        ),
        division_spec(a, b) == Err::<ComputationView, CalculatorErrorView>(
            CalculatorErrorView::InvalidInput { message: operands_fault_message(a, b) },
        ),
{
}

/// The same for the one-operand operations.
pub proof fn lemma_nonfinite_operand_rejected(value: OperandView)
    requires
        operand_faulty(value),
    ensures
        square_spec(value) == Err::<ComputationView, CalculatorErrorView>(
            CalculatorErrorView::InvalidInput { message: operand_fault_message(value) },
        ),
        sqrt_spec(value) == Err::<ComputationView, CalculatorErrorView>(
            CalculatorErrorView::InvalidInput { message: operand_fault_message(value) },
        ),
{
}

/// The calculator's operation engine. It holds no state between calls:
/// every operation is a pure function of its operands.
pub struct Calculator {}

impl Calculator {
    pub fn new() -> (calculator: Self) {
        Calculator {  }
    }

    /// Rejects NaN and infinite operands before any operation runs.
    pub fn validate_input(&self, value: &Operand) -> (result: Result<(), CalculatorError>)
        ensures
            result is Ok <==> !operand_faulty(value@),
            result matches Err(error) ==> error@ == (CalculatorErrorView::InvalidInput {
                message: operand_fault_message(value@),
            }),
    {
        if value.is_nan() {
            return Err(
                CalculatorError::InvalidInput { message: "NaN values are not allowed".to_owned() },
            );
        }
        if value.is_infinite() {
            return Err(
                CalculatorError::InvalidInput {
                    message: "Infinite values are not allowed".to_owned(),
                },
            );
        }
        Ok(())
    }

    /// Validates a pair of operands, examining the first one first.
    pub fn validate_inputs(&self, a: &Operand, b: &Operand) -> (result: Result<
        (),
        CalculatorError,
    >)
        ensures
            result is Ok <==> !operands_faulty(a@, b@),
            result matches Err(error) ==> error@ == (CalculatorErrorView::InvalidInput {
                message: operands_fault_message(a@, b@),
            }),
    {
        match self.validate_input(a) {
            Err(error) => Err(error),
            Ok(()) => self.validate_input(b),
        }
    }

    /// Plans an addition. Validation precedes execution: NaN or infinite
    /// operands yield invalid input before any arithmetic is attempted, and
    /// every computation handed out is well formed.
    pub fn perform_addition(&self, a: Operand, b: Operand) -> (result: Result<
        Computation,
        CalculatorError,
    >)
        ensures
            outcome_view(result) == addition_spec(a@, b@),
            result matches Ok(computation) ==> computation@.well_formed(),
    {
        match self.validate_inputs(&a, &b) {
            Err(error) => Err(error),
            Ok(()) => Ok(Computation::Add { a, b }),
        }
    }

    /// Plans a subtraction; validation as for addition.
    pub fn perform_subtraction(&self, a: Operand, b: Operand) -> (result: Result<
        Computation,
        CalculatorError,
    >)
        ensures
            outcome_view(result) == subtraction_spec(a@, b@),
            result matches Ok(computation) ==> computation@.well_formed(),
    {
        match self.validate_inputs(&a, &b) {
            Err(error) => Err(error),
            Ok(()) => Ok(Computation::Subtract { a, b }),
        }
    }

    /// Plans a multiplication; validation as for addition.
    pub fn perform_multiplication(&self, a: Operand, b: Operand) -> (result: Result<
        Computation,
        CalculatorError,
    >)
        ensures
            outcome_view(result) == multiplication_spec(a@, b@),
            result matches Ok(computation) ==> computation@.well_formed(),
    {
        match self.validate_inputs(&a, &b) {
            Err(error) => Err(error),
            Ok(()) => Ok(Computation::Multiply { a, b }),
        }
    }

    /// Plans a division. A divisor comparing equal to zero — exactly, with
    /// no tolerance — always yields the division-by-zero error, so no
    /// division by zero (and no infinity born from one) is ever evaluated.
    pub fn perform_division(&self, a: Operand, b: Operand) -> (result: Result<
        Computation,
        CalculatorError,
    >)
        ensures
            outcome_view(result) == division_spec(a@, b@),
            result matches Ok(computation) ==> computation@.well_formed(),
            !operands_faulty(a@, b@) && is_zero_bits(b.bits) ==> (result matches Err(error)
                && error@ == CalculatorErrorView::DivisionByZero),
    {
        match self.validate_inputs(&a, &b) {
            Err(error) => Err(error),
            Ok(()) => {
                if b.is_zero() {
                    Err(CalculatorError::DivisionByZero)
                } else {
                    Ok(Computation::Divide { a, b })
                }
            },
        }
    }

    /// Plans a squaring; validation as for addition.
    pub fn perform_square(&self, value: Operand) -> (result: Result<
        Computation,
        CalculatorError,
    >)
        ensures
            outcome_view(result) == square_spec(value@),
            result matches Ok(computation) ==> computation@.well_formed(),
    {
        match self.validate_input(&value) {
            Err(error) => Err(error),
            Ok(()) => Ok(Computation::Square { value }),
        }
    }

    /// Plans a square root. A value strictly below zero yields the
    /// negative-square-root error carrying exactly the offending value.
    pub fn perform_sqrt(&self, value: Operand) -> (result: Result<
        Computation,
        CalculatorError,
    >)
        ensures
            outcome_view(result) == sqrt_spec(value@),
            result matches Ok(computation) ==> computation@.well_formed(),
            !operand_faulty(value@) && is_negative_bits(value.bits) ==> (result matches Err(error)
                && error@ == (CalculatorErrorView::NegativeSquareRoot { value: value@ })),
    {
        match self.validate_input(&value) {
            Err(error) => Err(error),
            Ok(()) => {
                if value.is_negative() {
                    Err(CalculatorError::NegativeSquareRoot { value })
                } else {
                    Ok(Computation::Sqrt { value })
                }
            },
        }
    }

    /// Renders a successful outcome as `<operands-expression> = <value>`,
    /// e.g. `3 + 4 = 7`.
    pub fn format_result(&self, computation: &Computation, value: &Operand) -> (text: String)
        ensures
            text@ == computation@.expression() + " = "@ + value.text@,
    {
        let mut text = computation.expression();
        text.append(" = ");
        text.append(value.text.as_str());
        text
    }
}

} // verus!
