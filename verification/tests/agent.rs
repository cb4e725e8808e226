use protocols::agent::{ExecutorContext, Role, StreamEvent, TaskState};
use protocols::{agent_card, EchoExecutor};

fn context(input: Option<&str>) -> ExecutorContext {
    ExecutorContext {
        task_id: "task-1".to_string(),
        context_id: "ctx-1".to_string(),
        input: input.map(|s| s.to_string()),
    }
}

#[test]
fn execute_reports_working_then_echo() {
    let events = EchoExecutor.execute(context(Some("hello")), "msg-1".to_string());
    assert_eq!(events.len(), 2);
    match &events[0] {
        StreamEvent::StatusUpdate { task_id, context_id, status } => {
            assert_eq!(task_id, "task-1");
            assert_eq!(context_id, "ctx-1");
            assert_eq!(status.state, TaskState::Working);
            assert!(status.message.is_none());
        }
        _ => panic!("expected a status update"),
    }
    match &events[1] {
        StreamEvent::Task { id, context_id, status } => {
            assert_eq!(id, "task-1");
            assert_eq!(context_id, "ctx-1");
            assert_eq!(status.state, TaskState::Completed);
            let message = status.message.as_ref().unwrap();
            assert_eq!(message.role, Role::Agent);
            assert_eq!(message.message_id, "msg-1");
            assert_eq!(message.task_id.as_deref(), Some("task-1"));
            assert_eq!(message.context_id.as_deref(), Some("ctx-1"));
            assert_eq!(message.text, "Echo: hello");
        }
        _ => panic!("expected a task"),
    }
}

#[test]
fn execute_without_text() {
    let events = EchoExecutor.execute(context(None), "m".to_string());
    match &events[1] {
        StreamEvent::Task { status, .. } => {
            assert_eq!(status.message.as_ref().unwrap().text, "Echo: (no text)");
        }
        _ => panic!("expected a task"),
    }
}

#[test]
fn cancel_reports_canceled() {
    match EchoExecutor.cancel(context(Some("x"))) {
        StreamEvent::StatusUpdate { task_id, context_id, status } => {
            assert_eq!(task_id, "task-1");
            assert_eq!(context_id, "ctx-1");
            assert_eq!(status.state, TaskState::Canceled);
            assert!(status.message.is_none());
        }
        _ => panic!("expected a status update"),
    }
}

#[test]
fn card_describes_echo_agent() {
    let card = agent_card("1.0", "JSONRPC");
    assert_eq!(card.name, "Echo Agent");
    assert_eq!(card.description, "An A2A agent that echoes text messages.");
    assert_eq!(card.version, "1.0");
    assert_eq!(card.supported_interfaces.len(), 1);
    assert_eq!(card.supported_interfaces[0].url, "http://127.0.0.1:3003/jsonrpc");
    assert_eq!(card.supported_interfaces[0].protocol_binding, "JSONRPC");
    assert_eq!(card.capabilities.streaming, Some(true));
    assert_eq!(card.capabilities.push_notifications, Some(false));
    assert_eq!(card.default_input_modes, vec!["text/plain".to_string()]);
    assert_eq!(card.default_output_modes, vec!["text/plain".to_string()]);
    assert_eq!(card.skills.len(), 1);
    let skill = &card.skills[0];
    assert_eq!(skill.id, "echo");
    assert_eq!(skill.name, "Echo");
    assert_eq!(skill.description, "Echoes the supplied text message.");
    assert_eq!(skill.tags, vec!["echo".to_string()]);
    assert_eq!(skill.examples, Some(vec!["hello".to_string()]));
    assert_eq!(skill.input_modes, Some(vec!["text/plain".to_string()]));
    assert_eq!(skill.output_modes, Some(vec!["text/plain".to_string()]));
}
