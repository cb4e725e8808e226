use crate::text::{echo_prefix, echo_reply};
use vstd::prelude::*;
use vstd::string::*;

verus! {

/// The states of a task that the echo agent reports.
#[derive(Clone, Copy, Debug, PartialEq, Eq, Structural)]
pub enum TaskState {
    Working,
    Completed,
    Canceled,
}

/// Who wrote a message.
#[derive(Clone, Copy, Debug, PartialEq, Eq, Structural)]
pub enum Role {
    User,
    Agent,
}

/// A message with one text part.
pub struct AgentMessage {
    pub role: Role,
    pub message_id: String,
    pub task_id: Option<String>,
    pub context_id: Option<String>,
    pub text: String,
}

/// The status of a task, with the message that goes with it.
pub struct TaskStatus {
    pub state: TaskState,
    pub message: Option<AgentMessage>,
}

/// An event of a task's stream.
pub enum StreamEvent {
    StatusUpdate { task_id: String, context_id: String, status: TaskStatus },
    Task { id: String, context_id: String, status: TaskStatus },
}

/// What the executor learns of a request: the task, its context, and the
/// text of the user's message when it has one.
pub struct ExecutorContext {
    pub task_id: String,
    pub context_id: String,
    pub input: Option<String>,
}

/// The text `(no text)`, which stands for a message without text.
pub open spec fn no_text() -> Seq<char> {
    seq!['(', 'n', 'o', ' ', 't', 'e', 'x', 't', ')']
}

/// The agent's answer to a message: `Echo: ` and the message's text.
pub open spec fn echo_answer(input: Option<String>) -> Seq<char> {
    echo_prefix() + match input {
        Some(text) => text@,
        None => no_text(),
    }
}

/// A status update event with no message.
pub open spec fn is_status_update(e: StreamEvent, task_id: Seq<char>, context_id: Seq<char>, state: TaskState) -> bool {
    e matches StreamEvent::StatusUpdate { task_id: t, context_id: c, status } && t@ == task_id && c@
        == context_id && status.state == state && status.message is None
}

/// An agent's message about a task, with the given id and text.
pub open spec fn is_agent_answer(m: AgentMessage, task_id: Seq<char>, context_id: Seq<char>, message_id: Seq<char>, text: Seq<char>) -> bool {
    &&& m.role == Role::Agent
    &&& m.message_id@ == message_id
    &&& m.task_id matches Some(t) && t@ == task_id
    &&& m.context_id matches Some(c) && c@ == context_id
    &&& m.text@ == text
}

/// A completed task carrying the agent's answer.
pub open spec fn is_completed_task(e: StreamEvent, task_id: Seq<char>, context_id: Seq<char>, message_id: Seq<char>, text: Seq<char>) -> bool {
    match e {
        StreamEvent::Task { id, context_id: c, status } => {
            &&& id@ == task_id
            &&& c@ == context_id
            &&& status.state == TaskState::Completed
            &&& status.message matches Some(m) && is_agent_answer(m, task_id, context_id, message_id, text)
        },
        _ => false,
    }
}

/// The agent that answers every message with its echo.
pub struct EchoExecutor;

impl EchoExecutor {
    /// The events of a task: first that it is working, then the completed
    /// task carrying the agent's answer under the given message id.
    pub fn execute(&self, context: ExecutorContext, message_id: String) -> (events: Vec<StreamEvent>)
        ensures
            events.len() == 2,
            is_status_update(events[0], context.task_id@, context.context_id@, TaskState::Working),
            is_completed_task(
                events[1],
                context.task_id@,
                context.context_id@,
                message_id@,
                echo_answer(context.input),
            ),
    {
        let text = match &context.input {
            Some(input) => echo_reply(input.as_str()),
            None => {
                proof {
                    reveal_strlit("(no text)");
                }
                let t = echo_reply("(no text)");
                assert(t@ =~= echo_answer(context.input));
                t
            },
        };
        assert(text@ == echo_answer(context.input));
        let working = StreamEvent::StatusUpdate {
            task_id: context.task_id.clone(),
            context_id: context.context_id.clone(),
            status: TaskStatus { state: TaskState::Working, message: None },
        };
        let answer = AgentMessage {
            role: Role::Agent,
            message_id,
            task_id: Some(context.task_id.clone()),
            context_id: Some(context.context_id.clone()),
            text,
        };
        let completed = StreamEvent::Task {
            id: context.task_id,
            context_id: context.context_id,
            status: TaskStatus { state: TaskState::Completed, message: Some(answer) },
        };
        let mut events: Vec<StreamEvent> = Vec::new();
        events.push(working);
        events.push(completed);
        events
    }

    /// The single event of a cancellation: the task is canceled.
    pub fn cancel(&self, context: ExecutorContext) -> (event: StreamEvent)
        ensures
            is_status_update(event, context.task_id@, context.context_id@, TaskState::Canceled),
    {
        StreamEvent::StatusUpdate {
            task_id: context.task_id,
            context_id: context.context_id,
            status: TaskStatus { state: TaskState::Canceled, message: None },
        }
    }
}

/// An address at which the agent is served, and the protocol it speaks
/// there.
pub struct AgentInterface {
    pub url: String,
    pub protocol_binding: String,
}

/// What the agent can do beyond plain requests.
pub struct AgentCapabilities {
    pub streaming: Option<bool>,
    pub push_notifications: Option<bool>,
}

/// A skill that the agent offers.
pub struct AgentSkill {
    pub id: String,
    pub name: String,
    pub description: String,
    pub tags: Vec<String>,
    pub examples: Option<Vec<String>>,
    pub input_modes: Option<Vec<String>>,
    pub output_modes: Option<Vec<String>>,
}

/// The card that describes the agent to its clients.
pub struct AgentCard {
    pub name: String,
    pub description: String,
    pub version: String,
    pub supported_interfaces: Vec<AgentInterface>,
    pub capabilities: AgentCapabilities,
    pub default_input_modes: Vec<String>,
    pub default_output_modes: Vec<String>,
    pub skills: Vec<AgentSkill>,
}

/// A list of one string.
pub open spec fn is_single(v: Vec<String>, s: Seq<char>) -> bool {
    v.len() == 1 && v[0]@ == s
}

/// Some list of one string.
pub open spec fn is_some_single(v: Option<Vec<String>>, s: Seq<char>) -> bool {
    v matches Some(l) && is_single(l, s)
}

fn single(s: &str) -> (v: Vec<String>)
    ensures
        is_single(v, s@),
{
    let mut v: Vec<String> = Vec::new();
    v.push(String::from_str(s));
    v
}

/// The echo agent's card: its name, what it does, the protocol version it
/// follows, the JSON-RPC address it answers at with the given binding name,
/// streaming without push notifications, plain text in and out, and one
/// `echo` skill.
pub fn agent_card(version: &str, jsonrpc_binding: &str) -> (card: AgentCard)
    ensures
        card.name@ == "Echo Agent"@,
        card.description@ == "An A2A agent that echoes text messages."@,
        card.version@ == version@,
        card.supported_interfaces.len() == 1,
        card.supported_interfaces[0].url@ == "http://127.0.0.1:3003/jsonrpc"@,
        card.supported_interfaces[0].protocol_binding@ == jsonrpc_binding@,
        card.capabilities.streaming == Some(true),
        card.capabilities.push_notifications == Some(false),
        is_single(card.default_input_modes, "text/plain"@),
        is_single(card.default_output_modes, "text/plain"@),
        card.skills.len() == 1,
        card.skills[0].id@ == "echo"@,
        card.skills[0].name@ == "Echo"@,
        card.skills[0].description@ == "Echoes the supplied text message."@,
        is_single(card.skills[0].tags, "echo"@),
        is_some_single(card.skills[0].examples, "hello"@),
        is_some_single(card.skills[0].input_modes, "text/plain"@),
        is_some_single(card.skills[0].output_modes, "text/plain"@),
{
    let mut interfaces: Vec<AgentInterface> = Vec::new();
    interfaces.push(
        AgentInterface {
            url: String::from_str("http://127.0.0.1:3003/jsonrpc"),
            protocol_binding: String::from_str(jsonrpc_binding),
        },
    );
    let skill = AgentSkill {
        id: String::from_str("echo"),
        name: String::from_str("Echo"),
        description: String::from_str("Echoes the supplied text message."),
        tags: single("echo"),
        examples: Some(single("hello")),
        input_modes: Some(single("text/plain")),
        output_modes: Some(single("text/plain")),
    };
    let mut skills: Vec<AgentSkill> = Vec::new();
    skills.push(skill);
    AgentCard {
        name: String::from_str("Echo Agent"),
        description: String::from_str("An A2A agent that echoes text messages."),
        version: String::from_str(version),
        supported_interfaces: interfaces,
        capabilities: AgentCapabilities { streaming: Some(true), push_notifications: Some(false) },
        default_input_modes: single("text/plain"),
        default_output_modes: single("text/plain"),
        skills,
    }
}

} // verus!
