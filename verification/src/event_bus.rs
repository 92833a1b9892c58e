//! Event bus: publish/subscribe over a tokio broadcast channel, so that plugins
//! talk to each other without knowing of each other.

use vstd::prelude::*;

verus! {

/// `serde_json::Value`, the payload of tool calls, tool results and custom
/// events. The bus only carries it; nothing here looks inside.
#[verifier::external_type_specification]
#[verifier::external_body]
pub struct ExJsonValue(serde_json::Value);

/// The sending half of a tokio broadcast channel.
#[verifier::external_type_specification]
#[verifier::external_body]
#[verifier::reject_recursive_types(T)]
pub struct ExBroadcastSender<T>(tokio::sync::broadcast::Sender<T>);

/// A receiving half of a tokio broadcast channel.
#[verifier::external_type_specification]
#[verifier::external_body]
#[verifier::reject_recursive_types(T)]
pub struct ExBroadcastReceiver<T>(tokio::sync::broadcast::Receiver<T>);

/// The kernel's unified event: one traceable unit of an agent run.
#[derive(Debug)]
pub enum Event {
    SystemPrompt(String),
    Thought { agent: String, text: String },
    ToolCall { agent: String, tool: String, args: serde_json::Value },
    ToolResult { agent: String, tool: String, output: serde_json::Value },
    SubAgentSpawn { parent: String, child: String },
    ContextInject { agent: String, snippet: String },
    Custom(String, serde_json::Value),
}

/// `<serde_json::Value as Clone>::clone`. The contract claims that the copy is
/// the same value as the one copied; `Value` derives `Clone` field by field.
#[verifier::external_body]
fn copy_json(v: &serde_json::Value) -> (r: serde_json::Value)
    ensures
        r == *v,
{
    v.clone()
}

impl Clone for Event {
    fn clone(&self) -> (r: Self)
        ensures
            r == *self,
    {
        match self {
            Event::SystemPrompt(s) => Event::SystemPrompt(s.clone()),
            Event::Thought { agent, text } => Event::Thought { agent: agent.clone(), text: text.clone() },
            Event::ToolCall { agent, tool, args } => Event::ToolCall {
                agent: agent.clone(),
                tool: tool.clone(),
                args: copy_json(args),
            },
            Event::ToolResult { agent, tool, output } => Event::ToolResult {
                agent: agent.clone(),
                tool: tool.clone(),
                output: copy_json(output),
            },
            Event::SubAgentSpawn { parent, child } => Event::SubAgentSpawn {
                parent: parent.clone(),
                child: child.clone(),
            },
            Event::ContextInject { agent, snippet } => Event::ContextInject {
                agent: agent.clone(),
                snippet: snippet.clone(),
            },
            Event::Custom(name, payload) => Event::Custom(name.clone(), copy_json(payload)),
        }
    }
}

/// Number of events the broadcast buffer holds before slow receivers lag.
pub const EVENT_BUFFER_CAPACITY: usize = 1024;

/// The number of events that the buffer of `tx`'s channel holds, fixed when
/// the channel was opened.
pub uninterp spec fn broadcast_capacity(tx: tokio::sync::broadcast::Sender<Event>) -> nat;

/// `n` is a power of two.
pub open spec fn is_power_of_two(n: nat) -> bool
    decreases n,
{
    if n <= 1 {
        n == 1
    } else {
        n % 2 == 0 && is_power_of_two(n / 2)
    }
}

/// `tokio::sync::broadcast::channel`: opens a channel and keeps its sending
/// half; the first receiver is dropped at once. tokio rounds `capacity` up to
/// the next power of two and buffers that many events. It panics when
/// `capacity` is zero or above `usize::MAX / 2`, which the `requires` leaves
/// out. What the channel holds is not stated.
#[verifier::external_body]
fn open_broadcast(capacity: usize) -> (tx: tokio::sync::broadcast::Sender<Event>)
    requires
        0 < capacity <= usize::MAX / 2,
    ensures
        capacity <= broadcast_capacity(tx) < 2 * capacity,
        is_power_of_two(broadcast_capacity(tx)),
        is_power_of_two(capacity as nat) ==> broadcast_capacity(tx) == capacity,
{
    tokio::sync::broadcast::channel(capacity).0
}

/// `tokio::sync::broadcast::Sender::send`: hands the event to every live
/// receiver. tokio answers with the number of receivers it was queued for,
/// which is at least one, or an error when there is none; the error (which
/// gives the event back) becomes `None` here. Which receivers are live is
/// state of the channel that no clause states.
#[verifier::external_body]
fn broadcast_send(tx: &tokio::sync::broadcast::Sender<Event>, event: Event) -> (queued: Option<usize>)
    ensures
        queued matches Some(n) ==> n >= 1,
{
    tx.send(event).ok()
}

/// `tokio::sync::broadcast::Sender::subscribe`: a receiver of every event sent
/// after this call. tokio panics past `usize::MAX >> 2` live receivers, a count
/// that no clause here can see.
#[verifier::external_body]
fn broadcast_subscribe(tx: &tokio::sync::broadcast::Sender<Event>) -> tokio::sync::broadcast::Receiver<Event> {
    tx.subscribe()
}

/// `<tokio::sync::broadcast::Sender<T> as Clone>::clone`: another sending handle
/// to the same channel. Nothing is claimed of it.
pub assume_specification<T> [<tokio::sync::broadcast::Sender<T> as std::clone::Clone>::clone] (
    _0: &tokio::sync::broadcast::Sender<T>,
) -> tokio::sync::broadcast::Sender<T>;

/// Event bus: many producers, many consumers.
#[derive(Clone)]
pub struct EventBus {
    tx: tokio::sync::broadcast::Sender<Event>,
}

impl EventBus {
    /// The number of events the bus buffers before slow subscribers lag.
    pub closed spec fn capacity(self) -> nat {
        broadcast_capacity(self.tx)
    }

    /// A bus buffering `EVENT_BUFFER_CAPACITY` events.
    pub fn new() -> (b: Self)
        ensures
            b.capacity() == EVENT_BUFFER_CAPACITY,
    {
        proof {
            reveal_with_fuel(is_power_of_two, 11);
        }
        EventBus { tx: open_broadcast(EVENT_BUFFER_CAPACITY) }
    }

    /// Publishes an event to every current subscriber. An event that finds no
    /// subscriber is dropped without error; the trace is not written.
    pub fn publish(&self, event: Event) {
        let _ = broadcast_send(&self.tx, event);
    }

    /// Subscribes to the events published from now on.
    pub fn subscribe(&self) -> tokio::sync::broadcast::Receiver<Event> {
        broadcast_subscribe(&self.tx)
    }
}

impl Default for EventBus {
    fn default() -> (b: Self)
        ensures
            b.capacity() == EVENT_BUFFER_CAPACITY,
    {
        Self::new()
    }
}

} // verus!
