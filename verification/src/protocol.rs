//! The vocabulary of the chat protocol: what a chain is asked to do
//! locally, what chains tell each other, and what a handler hands back.

use crate::account::{Account, AccountView, ChainId, ChatMessage, ChatMessageView, Timestamp};
use vstd::prelude::*;

verus! {

/// Marker for the interface of the chat application.
#[derive(Clone, Copy, Debug, PartialEq, Eq, Structural)]
pub struct LinchatAbi;

/// Operation
#[allow(inconsistent_fields)]
#[derive(Debug, PartialEq)]
pub enum Operation {
    /// Send a message across chain
    Send { destination: Account, text: String },
    /// Change username of account
    ChangeUsername { destination: ChainId, name: String },
    /// Add more members to chat ownership
    AddMember { destination: ChainId, member: Account },
    /// Make group chat
    SetGroupChatFlag { flag: bool },
}

/// An operation as a mathematical value.
#[allow(inconsistent_fields)]
pub ghost enum OperationView {
    Send { destination: AccountView, text: Seq<char> },
    ChangeUsername { destination: ChainId, name: Seq<char> },
    AddMember { destination: ChainId, member: AccountView },
    SetGroupChatFlag { flag: bool },
}

impl View for Operation {
    type V = OperationView;

    open spec fn view(&self) -> OperationView {
        match *self {
            Operation::Send { destination, text } => OperationView::Send {
                destination: destination@,
                text: text@,
            },
            Operation::ChangeUsername { destination, name } => OperationView::ChangeUsername {
                destination,
                name: name@,
            },
            Operation::AddMember { destination, member } => OperationView::AddMember {
                destination,
                member: member@,
            },
            Operation::SetGroupChatFlag { flag } => OperationView::SetGroupChatFlag { flag },
        }
    }
}

/// Message
#[derive(Debug, PartialEq)]
pub enum Message {
    /// Accept the message
    Ack { msg: ChatMessage },
    /// Change username message
    UsernameChange { name: String },
    /// Add member
    MemberAdd { member: Account },
}

/// A message as a mathematical value.
pub ghost enum MessageView {
    Ack { msg: ChatMessageView },
    UsernameChange { name: Seq<char> },
    MemberAdd { member: AccountView },
}

impl View for Message {
    type V = MessageView;

    open spec fn view(&self) -> MessageView {
        match *self {
            Message::Ack { msg } => MessageView::Ack { msg: msg@ },
            Message::UsernameChange { name } => MessageView::UsernameChange { name: name@ },
            Message::MemberAdd { member } => MessageView::MemberAdd { member: member@ },
        }
    }
}

/// What the host tells a handler about the moment of the call.
#[derive(Clone, Copy, Debug, PartialEq, Eq, Structural)]
pub struct HostContext {
    /// The chain on which the handler runs.
    pub chain_id: ChainId,
    /// The host's clock.
    pub system_time: Timestamp,
    /// Whether the persistent store granted access to the mailbox that
    /// this call files into.
    pub storage_ok: bool,
}

/// A message on its way to another chain.
#[derive(Debug, PartialEq)]
pub struct OutgoingMessage {
    pub destination: ChainId,
    pub message: Message,
}

/// An outgoing message as a mathematical value.
pub ghost struct OutgoingView {
    pub destination: ChainId,
    pub message: MessageView,
}

impl View for OutgoingMessage {
    type V = OutgoingView;

    open spec fn view(&self) -> OutgoingView {
        OutgoingView { destination: self.destination, message: self.message@ }
    }
}

/// What a handler hands back to the host: the messages to send, in order.
#[derive(Debug, PartialEq)]
pub struct ExecutionResult {
    pub messages: Vec<OutgoingMessage>,
}

impl View for ExecutionResult {
    type V = Seq<OutgoingView>;

    open spec fn view(&self) -> Seq<OutgoingView> {
        Seq::new(self.messages@.len(), |i: int| self.messages@[i]@)
    }
}

impl Default for ExecutionResult {
    /// Nothing to send.
    fn default() -> (res: ExecutionResult)
        ensures
            res@ == Seq::<OutgoingView>::empty(),
    {
        let res = ExecutionResult { messages: Vec::new() };
        assert(res@ =~= Seq::<OutgoingView>::empty());
        res
    }
}

impl ExecutionResult {
    /// The same result with `message` for `destination` added at the end.
    pub fn with_message(self, destination: ChainId, message: Message) -> (res: ExecutionResult)
        ensures
            res@ == self@.push(OutgoingView { destination, message: message@ }),
    {
        let mut messages = self.messages;
        messages.push(OutgoingMessage { destination, message });
        let res = ExecutionResult { messages };
        assert(res@ =~= self@.push(OutgoingView { destination, message: message@ }));
        res
    }
}

} // verus!
