//! The calculator tool server: a static tool catalog and the invocation
//! protocol that exposes the operation engine behind named tools.
//!
//! The server answers two kinds of request. `list_tools` returns the frozen
//! catalog of tool descriptors. `invoke_tool` resolves a tool name, decodes
//! the named arguments, and runs the operation engine; an unknown name is a
//! tool-not-found protocol error, a missing or wrong-typed parameter is an
//! invalid-parameters protocol error, and a domain error of the engine is
//! converted to an invalid-parameters error carrying the domain error's
//! message, so internal representations never cross the channel.

use vstd::prelude::*;
use vstd::string::StringExecFns;
use crate::calculator::{
    addition_spec, division_spec, multiplication_spec, sqrt_spec, square_spec, subtraction_spec,
    Calculator, CalculatorError, CalculatorErrorView, Computation, ComputationView,
};
use crate::operand::{Operand, OperandView};
use crate::text::str_eq;

verus! {

/// The specification-level value of a [`ToolDescriptor`].
pub ghost struct ToolDescriptorView {
    pub name: Seq<char>,
    pub description: Seq<char>,
    pub input_schema: Seq<char>,
}

/// One entry of the tool catalog: a unique name, a human-readable
/// description, and the JSON text of the schema naming the parameters.
#[derive(Debug)]
pub struct ToolDescriptor {
    pub name: String,
    pub description: String,
    pub input_schema: String,
}

impl View for ToolDescriptor {
    type V = ToolDescriptorView;

    open spec fn view(&self) -> ToolDescriptorView {
        ToolDescriptorView {
            name: self.name@,
            description: self.description@,
            input_schema: self.input_schema@,
        }
    }
}

/// The views of a sequence of tool descriptors.
pub open spec fn descriptor_views(descriptors: Seq<ToolDescriptor>) -> Seq<ToolDescriptorView> {
    Seq::new(descriptors.len(), |i: int| descriptors[i]@)
}

/// The frozen tool catalog: one descriptor per operation.
pub open spec fn catalog_spec() -> Seq<ToolDescriptorView> {
    seq![
        ToolDescriptorView {
            name: "add"@,
            description: "Add two numbers together"@,
            input_schema:
                "{\"type\":\"object\",\"properties\":{\"a\":{\"description\":\"First number\",\"type\":\"number\"},\"b\":{\"description\":\"Second number\",\"type\":\"number\"}},\"required\":[\"a\",\"b\"]}"@,
        },
        ToolDescriptorView {
            name: "subtract"@,
            description: "Subtract second number from first number"@,
            input_schema:
                "{\"type\":\"object\",\"properties\":{\"a\":{\"description\":\"Number to subtract from\",\"type\":\"number\"},\"b\":{\"description\":\"Number to subtract\",\"type\":\"number\"}},\"required\":[\"a\",\"b\"]}"@,
        },
        ToolDescriptorView {
            name: "multiply"@,
            description: "Multiply two numbers together"@,
            input_schema:
                "{\"type\":\"object\",\"properties\":{\"a\":{\"description\":\"First number\",\"type\":\"number\"},\"b\":{\"description\":\"Second number\",\"type\":\"number\"}},\"required\":[\"a\",\"b\"]}"@,
        },
        ToolDescriptorView {
            name: "divide"@,
            description: "Divide first number by second number"@,
            input_schema:
                "{\"type\":\"object\",\"properties\":{\"a\":{\"description\":\"Dividend\",\"type\":\"number\"},\"b\":{\"description\":\"Divisor\",\"type\":\"number\"}},\"required\":[\"a\",\"b\"]}"@,
        },
        ToolDescriptorView {
            name: "square"@,
            description: "Calculate the square of a number"@,
            input_schema:
                "{\"type\":\"object\",\"properties\":{\"value\":{\"description\":\"Number to square\",\"type\":\"number\"}},\"required\":[\"value\"]}"@,
        },
        ToolDescriptorView {
            name: "sqrt"@,
            description: "Calculate the square root of a number"@,
            input_schema:
                "{\"type\":\"object\",\"properties\":{\"value\":{\"description\":\"Number to find square root of\",\"type\":\"number\"}},\"required\":[\"value\"]}"@,
        },
    ]
}

/// Repeated `list_tools` calls against an unchanged server return catalogs
/// equal in content: every result is pinned to the one frozen catalog.
pub proof fn lemma_list_tools_idempotent(
    first: Seq<ToolDescriptorView>,
    second: Seq<ToolDescriptorView>,
)
    requires
        first == catalog_spec(),
        second == catalog_spec(),
    ensures
        first == second,
{
}

/// The specification-level value of an [`ArgumentValue`].
pub ghost enum ArgumentValueView {
    Number(OperandView),
    Other,
}

/// One argument value of a tool invocation: either a number, or a value of
/// some other type (which no calculator tool accepts).
#[derive(Debug)]
pub enum ArgumentValue {
    Number(Operand),
    Other,
}

impl View for ArgumentValue {
    type V = ArgumentValueView;

    open spec fn view(&self) -> ArgumentValueView {
        match self {
            ArgumentValue::Number(operand) => ArgumentValueView::Number(operand@),
            ArgumentValue::Other => ArgumentValueView::Other,
        }
    }
}

impl Clone for ArgumentValue {
    fn clone(&self) -> (result: Self)
        ensures
            result@ == self@,
    {
        match self {
            ArgumentValue::Number(operand) => ArgumentValue::Number(operand.clone()),
            ArgumentValue::Other => ArgumentValue::Other,
        }
    }
}

/// The specification-level value of an [`Argument`].
pub ghost struct ArgumentView {
    pub name: Seq<char>,
    pub value: ArgumentValueView,
}

/// One named argument of a tool invocation.
#[derive(Debug)]
pub struct Argument {
    pub name: String,
    pub value: ArgumentValue,
}

impl View for Argument {
    type V = ArgumentView;

    open spec fn view(&self) -> ArgumentView {
        ArgumentView { name: self.name@, value: self.value@ }
    }
}

impl Clone for Argument {
    fn clone(&self) -> (result: Self)
        ensures
            result@ == self@,
    {
        Argument { name: self.name.clone(), value: self.value.clone() }
    }
}

/// The views of a sequence of arguments.
pub open spec fn argument_views(arguments: Seq<Argument>) -> Seq<ArgumentView> {
    Seq::new(arguments.len(), |i: int| arguments[i]@)
}

/// Copies an argument list, keeping its content and order.
pub fn clone_arguments(arguments: &Vec<Argument>) -> (result: Vec<Argument>)
    ensures
        argument_views(result@) == argument_views(arguments@),
{
    let mut result: Vec<Argument> = Vec::new();
    let mut i: usize = 0;
    while i < arguments.len()
        invariant
            i <= arguments@.len(),
            result@.len() == i,
            forall|j: int| 0 <= j < i ==> result@[j]@ == arguments@[j]@,
        decreases arguments@.len() - i,
    {
        result.push(arguments[i].clone());
        i = i + 1;
    }
    proof {
        assert(argument_views(result@) =~= argument_views(arguments@));
    }
    result
}

/// Finds the value of the first argument named `key`, scanning from
/// position `from`.
pub open spec fn lookup_from(arguments: Seq<ArgumentView>, key: Seq<char>, from: int) -> Option<
    ArgumentValueView,
>
    decreases arguments.len() - from,
{
    if from < 0 || from >= arguments.len() {
        None
    } else if arguments[from].name == key {
        Some(arguments[from].value)
    } else {
        lookup_from(arguments, key, from + 1)
    }
}

/// The value of the first argument named `key`, if any.
pub open spec fn lookup_spec(arguments: Seq<ArgumentView>, key: Seq<char>) -> Option<
    ArgumentValueView,
> {
    lookup_from(arguments, key, 0)
}

/// Decoding one numeric parameter: the operand, or the message of the
/// invalid-parameters error.
pub open spec fn decoded_number(arguments: Seq<ArgumentView>, key: Seq<char>) -> Result<
    OperandView,
    Seq<char>,
> {
    match lookup_spec(arguments, key) {
        Some(ArgumentValueView::Number(operand)) => Ok(operand),
        Some(ArgumentValueView::Other) => Err("parameter is not a number: "@ + key),
        None => Err("missing required parameter: "@ + key),
    }
}

/// The decoded parameters of the `add` tool.
#[derive(Debug)]
pub struct AddRequest {
    /// First number
    pub a: Operand,
    /// Second number
    pub b: Operand,
}

/// The decoded parameters of the `subtract` tool.
#[derive(Debug)]
pub struct SubtractRequest {
    /// Number to subtract from
    pub a: Operand,
    /// Number to subtract
    pub b: Operand,
}

/// The decoded parameters of the `multiply` tool.
#[derive(Debug)]
pub struct MultiplyRequest {
    /// First number
    pub a: Operand,
    /// Second number
    pub b: Operand,
}

/// The decoded parameters of the `divide` tool.
#[derive(Debug)]
pub struct DivideRequest {
    /// Dividend
    pub a: Operand,
    /// Divisor
    pub b: Operand,
}

/// The decoded parameters of the `square` tool.
#[derive(Debug)]
pub struct SquareRequest {
    /// Number to square
    pub value: Operand,
}

/// The decoded parameters of the `sqrt` tool.
#[derive(Debug)]
pub struct SqrtRequest {
    /// Number to find square root of
    pub value: Operand,
}

/// The specification-level value of a [`ToolCallError`].
pub ghost enum ToolCallErrorView {
    ToolNotFound { name: Seq<char> },
    InvalidParameters { message: Seq<char> },
}

impl ToolCallErrorView {
    /// The human-readable message of the error.
    pub open spec fn message(self) -> Seq<char> {
        match self {
            ToolCallErrorView::ToolNotFound { name } => "Tool not found: "@ + name,
            ToolCallErrorView::InvalidParameters { message } => message,
        }
    }
}

/// A protocol error of a tool invocation, distinct from the domain errors
/// of the operation engine.
#[derive(Debug)]
pub enum ToolCallError {
    /// The requested name matches no tool of the catalog.
    ToolNotFound { name: String },
    /// The arguments do not fit the tool's parameter set, or the engine
    /// rejected them (a domain error, rendered as its message).
    InvalidParameters { message: String },
}

impl View for ToolCallError {
    type V = ToolCallErrorView;

    open spec fn view(&self) -> ToolCallErrorView {
        match self {
            ToolCallError::ToolNotFound { name } => {
                ToolCallErrorView::ToolNotFound { name: name@ }
            },
            ToolCallError::InvalidParameters { message } => {
                ToolCallErrorView::InvalidParameters { message: message@ }
            },
        }
    }
}

impl ToolCallError {
    /// Converts a domain error of the engine into the protocol error that
    /// crosses the channel: an invalid-parameters error carrying the domain
    /// error's message.
    pub fn from(error: CalculatorError) -> (result: Self)
        ensures
            result@ == (ToolCallErrorView::InvalidParameters { message: error@.message() }),
    {
        ToolCallError::InvalidParameters { message: error.message() }
    }

    /// The JSON-RPC error code of the error.
    pub fn code(&self) -> (code: i64)
        ensures
            self@ matches ToolCallErrorView::ToolNotFound { .. } ==> code == -32601,
            self@ matches ToolCallErrorView::InvalidParameters { .. } ==> code == -32602,
    {
        match self {
            ToolCallError::ToolNotFound { .. } => -32601,
            ToolCallError::InvalidParameters { .. } => -32602,
        }
    }

    /// Renders the human-readable message of the error.
    pub fn message(&self) -> (message: String)
        ensures
            message@ == self@.message(),
    {
        match self {
            ToolCallError::ToolNotFound { name } => {
                let mut text = "Tool not found: ".to_owned();
                text.append(name.as_str());
                text
            },
            ToolCallError::InvalidParameters { message } => message.clone(),
        }
    }
}

/// What `invoke_tool` answers, at the specification level.
pub ghost enum InvocationOutcome {
    /// The name matches no tool.
    NotFound,
    /// The arguments were rejected, by decoding or by the engine; the
    /// invalid-parameters message is attached.
    Invalid(Seq<char>),
    /// A well-formed computation was planned.
    Planned(ComputationView),
}

/// Folds an engine outcome into an invocation outcome: domain errors are
/// rendered as invalid-parameters messages at this boundary.
pub open spec fn engine_outcome(result: Result<ComputationView, CalculatorErrorView>)
    -> InvocationOutcome {
    match result {
        Ok(computation) => InvocationOutcome::Planned(computation),
        Err(error) => InvocationOutcome::Invalid(error.message()),
    }
}

/// Decodes the parameters `a` and `b` (in that order).
pub open spec fn decoded_pair(arguments: Seq<ArgumentView>) -> Result<
    (OperandView, OperandView),
    Seq<char>,
> {
    match decoded_number(arguments, "a"@) {
        Err(message) => Err(message),
        Ok(a) => match decoded_number(arguments, "b"@) {
            Err(message) => Err(message),
            Ok(b) => Ok((a, b)),
        },
    }
}

/// What invoking a tool answers for a given name and argument list.
pub open spec fn invoke_spec(name: Seq<char>, arguments: Seq<ArgumentView>) -> InvocationOutcome {
    if name == "add"@ {
        match decoded_pair(arguments) {
            Err(message) => InvocationOutcome::Invalid(message),
            Ok((a, b)) => engine_outcome(addition_spec(a, b)),
        }
    } else if name == "subtract"@ {
        match decoded_pair(arguments) {
            Err(message) => InvocationOutcome::Invalid(message),
            Ok((a, b)) => engine_outcome(subtraction_spec(a, b)),
        }
    } else if name == "multiply"@ {
        match decoded_pair(arguments) {
            Err(message) => InvocationOutcome::Invalid(message),
            Ok((a, b)) => engine_outcome(multiplication_spec(a, b)),
        }
    } else if name == "divide"@ {
        match decoded_pair(arguments) {
            Err(message) => InvocationOutcome::Invalid(message),
            Ok((a, b)) => engine_outcome(division_spec(a, b)),
        }
    } else if name == "square"@ {
        match decoded_number(arguments, "value"@) {
            Err(message) => InvocationOutcome::Invalid(message),
            Ok(value) => engine_outcome(square_spec(value)),
        }
    } else if name == "sqrt"@ {
        match decoded_number(arguments, "value"@) {
            Err(message) => InvocationOutcome::Invalid(message),
            Ok(value) => engine_outcome(sqrt_spec(value)),
        }
    } else {
        InvocationOutcome::NotFound
    }
}

/// The invocation outcome that an `invoke_tool` result denotes.
pub open spec fn result_outcome(result: Result<Computation, ToolCallError>) -> InvocationOutcome {
    match result {
        Ok(computation) => InvocationOutcome::Planned(computation@),
        Err(ToolCallError::ToolNotFound { .. }) => InvocationOutcome::NotFound,
        Err(ToolCallError::InvalidParameters { message }) => InvocationOutcome::Invalid(message@),
    }
}

/// Extracts the numeric argument named `key`, or reports why it cannot be
/// decoded.
fn get_number(arguments: &Vec<Argument>, key: &str) -> (result: Result<Operand, ToolCallError>)
    ensures
        decoded_number(argument_views(arguments@), key@) matches Ok(operand) ==> (result matches
            Ok(found) && found@ == operand),
        decoded_number(argument_views(arguments@), key@) matches Err(message) ==> (result matches
            Err(ToolCallError::InvalidParameters { message: found }) && found@ == message),
{
    let ghost views = argument_views(arguments@);
    let mut i: usize = 0;
    while i < arguments.len()
        invariant
            i <= arguments.len(),
            views == argument_views(arguments@),
            lookup_spec(views, key@) == lookup_from(views, key@, i as int),
        decreases arguments.len() - i,
    {
        if str_eq(arguments[i].name.as_str(), key) {
            match &arguments[i].value {
                ArgumentValue::Number(operand) => {
                    return Ok(operand.clone());
                },
                ArgumentValue::Other => {
                    let mut message = "parameter is not a number: ".to_owned();
                    message.append(key);
                    return Err(ToolCallError::InvalidParameters { message });
                },
            }
        }
        i = i + 1;
    }
    let mut message = "missing required parameter: ".to_owned();
    message.append(key);
    Err(ToolCallError::InvalidParameters { message })
}

/// A successful tool invocation's response: the content fragments sent back
/// over the channel.
#[derive(Debug)]
pub struct ToolResult {
    pub content: Vec<String>,
}

/// The views of a sequence of content fragments.
pub open spec fn fragment_views(fragments: Seq<String>) -> Seq<Seq<char>> {
    Seq::new(fragments.len(), |i: int| fragments[i]@)
}

/// Structured information the server reports about itself.
#[derive(Debug)]
pub struct ServerInfo {
    pub protocol_version: String,
    pub tools_enabled: bool,
    pub instructions: String,
}

impl Calculator {
    /// Returns the tool catalog. The catalog is frozen: every call returns
    /// the same content.
    pub fn list_tools(&self) -> (tools: Vec<ToolDescriptor>)
        ensures
            descriptor_views(tools@) == catalog_spec(),
    {
        let mut tools: Vec<ToolDescriptor> = Vec::new();
        tools.push(
            ToolDescriptor {
                name: "add".to_owned(),
                description: "Add two numbers together".to_owned(),
                input_schema:
                    "{\"type\":\"object\",\"properties\":{\"a\":{\"description\":\"First number\",\"type\":\"number\"},\"b\":{\"description\":\"Second number\",\"type\":\"number\"}},\"required\":[\"a\",\"b\"]}".to_owned(),
            },
        );
        tools.push(
            ToolDescriptor {
                name: "subtract".to_owned(),
                description: "Subtract second number from first number".to_owned(),
                input_schema:
                    "{\"type\":\"object\",\"properties\":{\"a\":{\"description\":\"Number to subtract from\",\"type\":\"number\"},\"b\":{\"description\":\"Number to subtract\",\"type\":\"number\"}},\"required\":[\"a\",\"b\"]}".to_owned(),
            },
        );
        tools.push(
            ToolDescriptor {
                name: "multiply".to_owned(),
                description: "Multiply two numbers together".to_owned(),
                input_schema:
                    "{\"type\":\"object\",\"properties\":{\"a\":{\"description\":\"First number\",\"type\":\"number\"},\"b\":{\"description\":\"Second number\",\"type\":\"number\"}},\"required\":[\"a\",\"b\"]}".to_owned(),
            },
        );
        tools.push(
            ToolDescriptor {
                name: "divide".to_owned(),
                description: "Divide first number by second number".to_owned(),
                input_schema:
                    "{\"type\":\"object\",\"properties\":{\"a\":{\"description\":\"Dividend\",\"type\":\"number\"},\"b\":{\"description\":\"Divisor\",\"type\":\"number\"}},\"required\":[\"a\",\"b\"]}".to_owned(),
            },
        );
        tools.push(
            ToolDescriptor {
                name: "square".to_owned(),
                description: "Calculate the square of a number".to_owned(),
                input_schema:
                    "{\"type\":\"object\",\"properties\":{\"value\":{\"description\":\"Number to square\",\"type\":\"number\"}},\"required\":[\"value\"]}".to_owned(),
            },
        );
        tools.push(
            ToolDescriptor {
                name: "sqrt".to_owned(),
                description: "Calculate the square root of a number".to_owned(),
                input_schema:
                    "{\"type\":\"object\",\"properties\":{\"value\":{\"description\":\"Number to find square root of\",\"type\":\"number\"}},\"required\":[\"value\"]}".to_owned(),
            },
        );
        proof {
            assert(descriptor_views(tools@) =~= catalog_spec());
        }
        tools
    }

    /// The `add` tool: plans the addition of two decoded operands, with
    /// domain errors converted to protocol errors.
    pub fn add(&self, request: AddRequest) -> (result: Result<Computation, ToolCallError>)
        ensures
            result_outcome(result) == engine_outcome(addition_spec(request.a@, request.b@)),
    {
        match self.perform_addition(request.a, request.b) {
            Ok(computation) => Ok(computation),
            Err(error) => Err(ToolCallError::from(error)),
        }
    }

    /// The `subtract` tool.
    pub fn subtract(&self, request: SubtractRequest) -> (result: Result<
        Computation,
        ToolCallError,
    >)
        ensures
            result_outcome(result) == engine_outcome(subtraction_spec(request.a@, request.b@)),
    {
        match self.perform_subtraction(request.a, request.b) {
            Ok(computation) => Ok(computation),
            Err(error) => Err(ToolCallError::from(error)),
        }
    }

    /// The `multiply` tool.
    pub fn multiply(&self, request: MultiplyRequest) -> (result: Result<
        Computation,
        ToolCallError,
    >)
        ensures
            result_outcome(result) == engine_outcome(multiplication_spec(request.a@, request.b@)),
    {
        match self.perform_multiplication(request.a, request.b) {
            Ok(computation) => Ok(computation),
            Err(error) => Err(ToolCallError::from(error)),
        }
    }

    /// The `divide` tool.
    pub fn divide(&self, request: DivideRequest) -> (result: Result<Computation, ToolCallError>)
        ensures
            result_outcome(result) == engine_outcome(division_spec(request.a@, request.b@)),
    {
        match self.perform_division(request.a, request.b) {
            Ok(computation) => Ok(computation),
            Err(error) => Err(ToolCallError::from(error)),
        }
    }

    /// The `square` tool.
    pub fn square(&self, request: SquareRequest) -> (result: Result<Computation, ToolCallError>)
        ensures
            result_outcome(result) == engine_outcome(square_spec(request.value@)),
    {
        match self.perform_square(request.value) {
            Ok(computation) => Ok(computation),
            Err(error) => Err(ToolCallError::from(error)),
        }
    }

    /// The `sqrt` tool.
    pub fn sqrt(&self, request: SqrtRequest) -> (result: Result<Computation, ToolCallError>)
        ensures
            result_outcome(result) == engine_outcome(sqrt_spec(request.value@)),
    {
        match self.perform_sqrt(request.value) {
            Ok(computation) => Ok(computation),
            Err(error) => Err(ToolCallError::from(error)),
        }
    }

    /// Resolves a tool name, decodes the named arguments, and runs the
    /// operation engine, answering exactly as [`invoke_spec`] describes.
    pub fn invoke_tool(&self, name: &str, arguments: &Vec<Argument>) -> (result: Result<
        Computation,
        ToolCallError,
    >)
        ensures
            result_outcome(result) == invoke_spec(name@, argument_views(arguments@)),
            result matches Err(ToolCallError::ToolNotFound { name: reported }) ==> reported@
                == name@,
    {
        if str_eq(name, "add") {
            let a = match get_number(arguments, "a") {
                Ok(operand) => operand,
                Err(error) => {
                    return Err(error);
                },
            };
            let b = match get_number(arguments, "b") {
                Ok(operand) => operand,
                Err(error) => {
                    return Err(error);
                },
            };
            self.add(AddRequest { a, b })
        } else if str_eq(name, "subtract") {
            let a = match get_number(arguments, "a") {
                Ok(operand) => operand,
                Err(error) => {
                    return Err(error);
                },
            };
            let b = match get_number(arguments, "b") {
                Ok(operand) => operand,
                Err(error) => {
                    return Err(error);
                },
            };
            self.subtract(SubtractRequest { a, b })
        } else if str_eq(name, "multiply") {
            let a = match get_number(arguments, "a") {
                Ok(operand) => operand,
                Err(error) => {
                    return Err(error);
                },
            };
            let b = match get_number(arguments, "b") {
                Ok(operand) => operand,
                Err(error) => {
                    return Err(error);
                },
            };
            self.multiply(MultiplyRequest { a, b })
        } else if str_eq(name, "divide") {
            let a = match get_number(arguments, "a") {
                Ok(operand) => operand,
                Err(error) => {
                    return Err(error);
                },
            };
            let b = match get_number(arguments, "b") {
                Ok(operand) => operand,
                Err(error) => {
                    return Err(error);
                },
            };
            self.divide(DivideRequest { a, b })
        } else if str_eq(name, "square") {
            let value = match get_number(arguments, "value") {
                Ok(operand) => operand,
                Err(error) => {
                    return Err(error);
                },
            };
            self.square(SquareRequest { value })
        } else if str_eq(name, "sqrt") {
            let value = match get_number(arguments, "value") {
                Ok(operand) => operand,
                Err(error) => {
                    return Err(error);
                },
            };
            self.sqrt(SqrtRequest { value })
        } else {
            Err(ToolCallError::ToolNotFound { name: name.to_owned() })
        }
    }

    /// Wraps a successful computation's rendering as the invocation
    /// response sent back over the channel: a single content fragment
    /// holding `<operands-expression> = <value>`.
    pub fn complete_invocation(&self, computation: &Computation, value: &Operand) -> (response:
        ToolResult)
        ensures
            fragment_views(response.content@) =~= seq![
                computation@.expression() + " = "@ + value.text@,
            ],
    {
        let text = self.format_result(computation, value);
        let mut content: Vec<String> = Vec::new();
        content.push(text);
        ToolResult { content }
    }

    /// Describes the server: protocol version, whether tools are served,
    /// and the instructions shown to clients.
    pub fn get_info(&self) -> (info: ServerInfo)
        ensures
            info.protocol_version@ == "2024-11-05"@,
            info.tools_enabled,
            info.instructions@
                == "A calculator that can perform basic mathematical operations including addition, subtraction, multiplication, division, square, and square root."@,
    {
        ServerInfo {
            protocol_version: "2024-11-05".to_owned(),
            tools_enabled: true,
            instructions:
                "A calculator that can perform basic mathematical operations including addition, subtraction, multiplication, division, square, and square root.".to_owned(),
        }
    }
}

} // verus!
