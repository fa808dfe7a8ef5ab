//! Tests of the conversation orchestrator's decision logic, driving whole
//! turns the way the host does, with the transport steps simulated.

use calculator_chat::calculator::{Calculator, Computation};
use calculator_chat::chat::{
    assemble_reply, classify_prompt, render_tool_response, tool_calls, translate_catalog,
    Message, ModelToolSchema, PromptAction, Role, Segment, Session, ToolOutcome,
};
use calculator_chat::operand::Operand;
use calculator_chat::server::{Argument, ArgumentValue};

fn num(x: f64) -> Operand {
    Operand::new(x.to_bits(), format!("{}", x))
}

fn number_arg(name: &str, x: f64) -> Argument {
    Argument { name: name.to_string(), value: ArgumentValue::Number(num(x)) }
}

fn run(computation: &Computation) -> f64 {
    match computation {
        Computation::Add { a, b } => f64::from_bits(a.bits) + f64::from_bits(b.bits),
        Computation::Subtract { a, b } => f64::from_bits(a.bits) - f64::from_bits(b.bits),
        Computation::Multiply { a, b } => f64::from_bits(a.bits) * f64::from_bits(b.bits),
        Computation::Divide { a, b } => f64::from_bits(a.bits) / f64::from_bits(b.bits),
        Computation::Square { value } => f64::from_bits(value.bits) * f64::from_bits(value.bits),
        Computation::Sqrt { value } => f64::from_bits(value.bits).sqrt(),
    }
}

/// Resolves one model response against the tool server, the way the host's
/// turn loop does: every tool call is invoked in order and its outcome
/// (success rendering or error message) collected.
fn resolve_tools(calc: &Calculator, segments: &Vec<Segment>) -> Vec<ToolOutcome> {
    let mut outcomes = Vec::new();
    for call in tool_calls(segments) {
        match calc.invoke_tool(call.name.as_str(), &call.input) {
            Ok(computation) => {
                let value = num(run(&computation));
                let response = calc.complete_invocation(&computation, &value);
                outcomes.push(ToolOutcome::Success {
                    text: render_tool_response(&response.content),
                });
            }
            Err(error) => {
                outcomes.push(ToolOutcome::Failure { message: error.message() });
            }
        }
    }
    outcomes
}

#[test]
fn turn_with_division_by_zero_completes_with_failure_text() {
    let calc = Calculator::new();
    let mut session = Session::new();

    session.begin_turn("10 / 0");

    // The model answers with a single tool call dividing ten by zero.
    let segments = vec![Segment::ToolUse {
        id: "call-1".to_string(),
        name: "divide".to_string(),
        input: vec![number_arg("a", 10.0), number_arg("b", 0.0)],
    }];
    let outcomes = resolve_tools(&calc, &segments);
    let reply = session.complete_turn(&segments, &outcomes);

    // The tool failure is folded into the reply; the turn still completes.
    assert!(reply.contains("Division by zero is not allowed"));
    assert!(reply.contains("Error calling tool divide"));
    assert_eq!(session.len(), 2);
    let user = session.message_at(0).unwrap();
    assert_eq!(user.role, Role::User);
    assert_eq!(user.content, "10 / 0");
    let assistant = session.message_at(1).unwrap();
    assert_eq!(assistant.role, Role::Assistant);
    assert_eq!(assistant.content, reply);
}

#[test]
fn text_segment_precedes_tool_result_in_the_reply() {
    let segments = vec![
        Segment::Text { text: "The answer is:".to_string() },
        Segment::ToolUse {
            id: "call-1".to_string(),
            name: "square".to_string(),
            input: vec![number_arg("value", 4.0)],
        },
    ];
    let outcomes = vec![ToolOutcome::Success { text: "16".to_string() }];
    let reply = assemble_reply(&segments, &outcomes);
    assert_eq!(reply, "The answer is:\n\nCalculation result: 16");
}

#[test]
fn failed_catalog_fetch_leaves_user_message_last() {
    let mut session = Session::new();
    session.begin_turn("what is 2 + 2");

    // Fetching the tool catalog fails; the turn aborts before any reply is
    // committed, so the history keeps only the user's message.
    assert_eq!(session.len(), 1);
    let last = session.message_at(0).unwrap();
    assert_eq!(last.role, Role::User);
    assert_eq!(last.content, "what is 2 + 2");
    assert!(session.message_at(1).is_none());

    // The next turn retries with the context intact.
    session.begin_turn("still there?");
    assert_eq!(session.len(), 2);
    assert_eq!(session.message_at(0).unwrap().content, "what is 2 + 2");
}

#[test]
fn reply_interleaves_text_and_tool_outcomes_in_order() {
    let calc = Calculator::new();
    let segments = vec![
        Segment::Text { text: "First,".to_string() },
        Segment::ToolUse {
            id: "call-1".to_string(),
            name: "add".to_string(),
            input: vec![number_arg("a", 1.0), number_arg("b", 2.0)],
        },
        Segment::Text { text: " and then".to_string() },
        Segment::ToolUse {
            id: "call-2".to_string(),
            name: "sqrt".to_string(),
            input: vec![number_arg("value", -1.0)],
        },
    ];
    let outcomes = resolve_tools(&calc, &segments);
    let reply = assemble_reply(&segments, &outcomes);
    assert_eq!(
        reply,
        "First,\n\nCalculation result: 1 + 2 = 3 and then\n\nError calling tool sqrt: \
         Cannot calculate square root of negative number: -1"
    );
}

#[test]
fn reply_of_a_text_only_response_is_the_text() {
    let segments = vec![Segment::Text { text: "Just words.".to_string() }];
    let outcomes: Vec<ToolOutcome> = Vec::new();
    assert_eq!(assemble_reply(&segments, &outcomes), "Just words.");
}

#[test]
fn reply_of_an_empty_response_is_empty() {
    let segments: Vec<Segment> = Vec::new();
    let outcomes: Vec<ToolOutcome> = Vec::new();
    assert_eq!(assemble_reply(&segments, &outcomes), "");
}

#[test]
fn tool_calls_are_collected_in_response_order() {
    let segments = vec![
        Segment::Text { text: "a".to_string() },
        Segment::ToolUse {
            id: "one".to_string(),
            name: "add".to_string(),
            input: vec![number_arg("a", 1.0), number_arg("b", 2.0)],
        },
        Segment::ToolUse {
            id: "two".to_string(),
            name: "sqrt".to_string(),
            input: vec![number_arg("value", 9.0)],
        },
    ];
    let calls = tool_calls(&segments);
    assert_eq!(calls.len(), 2);
    assert_eq!(calls[0].id, "one");
    assert_eq!(calls[0].name, "add");
    assert_eq!(calls[0].input.len(), 2);
    assert_eq!(calls[1].id, "two");
    assert_eq!(calls[1].name, "sqrt");
}

#[test]
fn first_fragment_is_significant_and_no_fragment_is_a_valid_outcome() {
    let fragments = vec!["5 + 3 = 8".to_string(), "ignored".to_string()];
    assert_eq!(render_tool_response(&fragments), "5 + 3 = 8");

    let empty: Vec<String> = Vec::new();
    assert_eq!(render_tool_response(&empty), "No result returned from tool");
}

#[test]
fn request_carries_history_catalog_and_automatic_tool_choice() {
    let calc = Calculator::new();
    let mut session = Session::new();
    session.begin_turn("square 4 please");

    let schemas = translate_catalog(&calc.list_tools());
    let request = session.build_request("test-model", schemas);

    assert_eq!(request.model, "test-model");
    assert_eq!(request.max_tokens, 1024);
    assert_eq!(request.tool_choice, "auto");
    assert_eq!(request.messages.len(), 1);
    assert_eq!(request.messages[0].role, Role::User);
    assert_eq!(request.messages[0].content, "square 4 please");
    assert_eq!(request.tools.len(), 6);
    assert_eq!(request.tools[0].name, "add");
    assert_eq!(request.tools[0].description, "Add two numbers together");
}

#[test]
fn translation_passes_descriptors_through() {
    let calc = Calculator::new();
    let tools = calc.list_tools();
    let schemas: Vec<ModelToolSchema> = translate_catalog(&tools);
    assert_eq!(schemas.len(), tools.len());
    for (schema, descriptor) in schemas.iter().zip(tools.iter()) {
        assert_eq!(schema.name, descriptor.name);
        assert_eq!(schema.description, descriptor.description);
        assert_eq!(schema.input_schema, descriptor.input_schema);
    }
}

#[test]
fn prompt_classification() {
    assert_eq!(classify_prompt(""), PromptAction::Skip);
    assert_eq!(classify_prompt("quit"), PromptAction::Quit);
    assert_eq!(classify_prompt("exit"), PromptAction::Quit);
    assert_eq!(classify_prompt("what is 1 + 1"), PromptAction::Respond);
    assert_eq!(classify_prompt("quit now"), PromptAction::Respond);
}

#[test]
fn history_is_append_only_across_turns() {
    let mut session = Session::new();
    assert_eq!(session.len(), 0);

    session.begin_turn("first");
    session.commit_turn("first reply");
    session.begin_turn("second");
    session.commit_turn("second reply");

    assert_eq!(session.len(), 4);
    let expected: Vec<(Role, &str)> = vec![
        (Role::User, "first"),
        (Role::Assistant, "first reply"),
        (Role::User, "second"),
        (Role::Assistant, "second reply"),
    ];
    for (i, (role, content)) in expected.into_iter().enumerate() {
        let message: &Message = session.message_at(i).unwrap();
        assert_eq!(message.role, role);
        assert_eq!(message.content, content);
    }
}
