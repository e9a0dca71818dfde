//! The worker capability interface and the verifiable half of the worker
//! runtime: the reply path back into the coordinator's mailbox and what one
//! mailbox turn decides.  Spawning execution contexts and blocking on
//! mailboxes belong to the embedding program.

use vstd::prelude::*;
use crate::protocol::{LspResponse, MsgFromManager, MsgToManager, QueryResponse};

verus! {

/// Relies on `std::sync::mpsc::Sender` as the send endpoint of the
/// coordinator's mailbox; the value is opaque here and only handed to
/// `sender_post`.
#[verifier::external_type_specification]
#[verifier::external_body]
#[verifier::reject_recursive_types(T)]
pub struct ExSender<T>(std::sync::mpsc::Sender<T>);

/// Relies on `std::sync::mpsc::Sender::send`: delivers one message into the
/// receiving mailbox, in send order per sender.  A failure means the
/// receiving side is gone; the message is then dropped, which is this core's
/// best-effort delivery rule.
#[verifier::external_body]
fn sender_post(sender: &std::sync::mpsc::Sender<MsgToManager>, msg: MsgToManager) {
    let _ = sender.send(msg);
}

/// How one kind of worker reply enters the coordinator's mailbox, if at all:
/// `as_manager_msg` is the mailbox message a reply becomes, `None` for a
/// reply kind whose path ends at the sink, and `reply_into_manager` must
/// produce exactly that.
pub trait ReplyIntoManager: Sized {
    spec fn as_manager_msg(self) -> Option<MsgToManager>;

    fn reply_into_manager(self) -> (converted: Option<MsgToManager>)
        ensures
            converted == self.as_manager_msg(),
    ;
}

impl ReplyIntoManager for QueryResponse {
    /// A query reply re-enters the coordinator as a subsystem-reply message,
    /// so that it advances its task's recipe.
    open spec fn as_manager_msg(self) -> Option<MsgToManager> {
        Some(MsgToManager::QueryResponse(self))
    }

    fn reply_into_manager(self) -> (converted: Option<MsgToManager>) {
        Some(MsgToManager::QueryResponse(self))
    }
}

impl ReplyIntoManager for LspResponse {
    /// The response emitter faces the client: its replies have no path back
    /// into the coordinator and are discarded.
    open spec fn as_manager_msg(self) -> Option<MsgToManager> {
        None
    }

    fn reply_into_manager(self) -> (converted: Option<MsgToManager>) {
        None
    }
}

/// The reply-posting handle a worker captures at startup.  An attached sink
/// wraps each reply as a coordinator message and posts it; a detached sink
/// swallows every reply.  Posting is asynchronous: the worker may use the
/// sink at any later time, on its own execution context.
pub struct ReplySink<T> {
    target: Option<std::sync::mpsc::Sender<MsgToManager>>,
    reply_type: core::marker::PhantomData<T>,
}

impl<T: ReplyIntoManager> ReplySink<T> {
    /// The send endpoint into the coordinator's mailbox this sink holds, if
    /// it holds one.
    pub closed spec fn endpoint(self) -> Option<std::sync::mpsc::Sender<MsgToManager>> {
        self.target
    }

    /// A sink wired into the coordinator's mailbox.
    pub fn attached(sender: std::sync::mpsc::Sender<MsgToManager>) -> (sink: ReplySink<T>)
        ensures
            sink.endpoint() == Some(sender),
    {
        ReplySink { target: Some(sender), reply_type: core::marker::PhantomData }
    }

    /// A sink that drops every reply posted to it.
    pub fn detached() -> (sink: ReplySink<T>)
        ensures
            sink.endpoint() is None,
    {
        ReplySink { target: None, reply_type: core::marker::PhantomData }
    }

    /// Posts one reply toward the coordinator, best-effort: the reply's own
    /// `as_manager_msg`, if any, goes to the held endpoint, if any.  Only the
    /// final `Sender::send` is outside what Verus checks.
    pub fn post(&self, reply: T) {
        let converted = reply.reply_into_manager();
        if let Some(msg) = converted {
            if let Some(sender) = &self.target {
                sender_post(sender, msg);
            }
        }
    }
}

/// The contract every pluggable subsystem satisfies: a startup hook that
/// receives the reply-posting sink, a per-message handler called once per
/// inbound payload in delivery order, and a shutdown hook called at most
/// once, after the last message.
pub trait Actor {
    type InMessage: Send + Sync + 'static;
    type OutMessage: Send + Sync + 'static;

    fn startup(&mut self, reply_sink: ReplySink<Self::OutMessage>);

    fn receive_message(&mut self, message: Self::InMessage);

    fn shutdown(&mut self);
}

/// One turn of a worker runtime's mailbox loop: ordinary traffic reaches the
/// worker's handler; the shutdown sentinel reaches its shutdown hook instead
/// and, exactly then, the loop is told to exit.
pub fn actor_step<T: Actor>(actor: &mut T, envelope: MsgFromManager<T::InMessage>) -> (exit: bool)
    ensures
        exit == (envelope is Shutdown),
{
    match envelope {
        MsgFromManager::Message(message) => {
            actor.receive_message(message);
            false
        },
        MsgFromManager::Shutdown => {
            actor.shutdown();
            true
        },
    }
}

} // verus!
