//! The routing engine: how a local operation becomes an outgoing message,
//! and how an incoming message changes the registry and the mailboxes.

use crate::account::{Account, AccountView, ChainId, ChatMessage, ChatMessageView, Timestamp};
use crate::mailbox::{bounded_push, enqueue_spec, queue_at};
use crate::protocol::{
    ExecutionResult, HostContext, Message, MessageView, Operation, OperationView, OutgoingView,
};
use crate::registry::{add_member_spec, admin_spec, register_admin_spec};
use crate::state::{Linchat, LinchatView};
use vstd::prelude::*;

verus! {

/// An error that can occur during the contract execution.
#[derive(Debug, PartialEq, Eq)]
pub enum Error {
    /// Failed to deserialize BCS bytes; the text says why.
    BcsError(String),
    /// Failed to deserialize JSON string; the text says why.
    JsonError(String),
    /// The application doesn't support any cross-application sessions.
    SessionsNotSupported,
    /// The application doesn't support any application calls.
    ApplicationCallsNotSupported,
    /// A cross-chain message could not be processed.
    MessageNotProcessed,
    /// A message could not be added to the local mailbox.
    MessageNotAdded,
}

impl Error {
    /// The error in words.
    pub fn message(&self) -> (res: String)
        ensures
            res@ == match *self {
                Error::BcsError(_) => "Failed to deserialize BCS bytes"@,
                Error::JsonError(_) => "Failed to deserialize JSON string"@,
                Error::SessionsNotSupported => "Linchat application doesn't support any cross-application sessions"@,
                Error::ApplicationCallsNotSupported => "Linchat application doesn't support any application calls"@,
                Error::MessageNotProcessed => "Cross chain message not processed"@,
                Error::MessageNotAdded => "Message not added to self queue"@,
            },
    {
        match self {
            Error::BcsError(_) => "Failed to deserialize BCS bytes".to_owned(),
            Error::JsonError(_) => "Failed to deserialize JSON string".to_owned(),
            Error::SessionsNotSupported => "Linchat application doesn't support any cross-application sessions".to_owned(),
            Error::ApplicationCallsNotSupported => "Linchat application doesn't support any application calls".to_owned(),
            Error::MessageNotProcessed => "Cross chain message not processed".to_owned(),
            Error::MessageNotAdded => "Message not added to self queue".to_owned(),
        }
    }
}

/// The state after `msg` is filed under `key`.
pub open spec fn file_spec(s: LinchatView, key: AccountView, msg: ChatMessageView) -> LinchatView {
    LinchatView {
        isgroupchat: s.isgroupchat,
        owner: s.owner,
        messages: enqueue_spec(s.messages, key, msg, s.bound),
        bound: s.bound,
    }
}

/// The mailbox that an acknowledged message belongs in: the admin's in a
/// group chat, the sender's otherwise.
pub open spec fn ack_key(s: LinchatView, msg: ChatMessageView) -> AccountView {
    if s.isgroupchat {
        s.owner[0]
    } else {
        msg.account
    }
}

/// Whether the state can take in `message`: in a group chat an
/// acknowledged message needs an admin to be filed under.
pub open spec fn message_ready(s: LinchatView, message: MessageView) -> bool {
    (message is Ack && s.isgroupchat) ==> s.owner.len() > 0
}

/// The state after `message` arrives at `chain` and the store is reachable.
pub open spec fn message_effect(s: LinchatView, chain: ChainId, message: MessageView) -> LinchatView {
    match message {
        MessageView::Ack { msg } => file_spec(s, ack_key(s, msg), msg),
        MessageView::UsernameChange { name } => LinchatView {
            isgroupchat: s.isgroupchat,
            owner: register_admin_spec(s.owner, AccountView { username: name, chain_id: chain }),
            messages: s.messages,
            bound: s.bound,
        },
        MessageView::MemberAdd { member } => LinchatView {
            isgroupchat: s.isgroupchat,
            owner: add_member_spec(s.owner, member),
            messages: s.messages,
            bound: s.bound,
        },
    }
}

/// The chat message that a send at time `now` produces: the local admin
/// is its sender.
pub open spec fn sent_message(s: LinchatView, now: Timestamp, text: Seq<char>) -> ChatMessageView {
    ChatMessageView { timestamp: now, text, account: s.owner[0] }
}

/// Whether the state can carry out `operation`: a send needs an admin to
/// sign the message.
pub open spec fn operation_ready(s: LinchatView, operation: OperationView) -> bool {
    operation is Send ==> s.owner.len() > 0
}

/// Whether `operation` files into a local mailbox: a send in a direct chat
/// echoes the message locally.
pub open spec fn operation_files(s: LinchatView, operation: OperationView) -> bool {
    operation is Send && !s.isgroupchat
}

/// The state after `operation` at time `now`, the store being reachable.
pub open spec fn operation_effect(
    s: LinchatView,
    now: Timestamp,
    operation: OperationView,
) -> LinchatView {
    match operation {
        OperationView::Send { destination, text } => if s.isgroupchat {
            s
        } else {
            file_spec(s, destination, sent_message(s, now, text))
        },
        OperationView::ChangeUsername { destination, name } => s,
        OperationView::AddMember { destination, member } => s,
        OperationView::SetGroupChatFlag { flag } => LinchatView {
            isgroupchat: flag,
            owner: s.owner,
            messages: s.messages,
            bound: s.bound,
        },
    }
}

/// The messages that `operation` sends out at time `now`.
pub open spec fn operation_messages(
    s: LinchatView,
    now: Timestamp,
    operation: OperationView,
) -> Seq<OutgoingView> {
    match operation {
        OperationView::Send { destination, text } => seq![
            OutgoingView {
                destination: destination.chain_id,
                message: MessageView::Ack { msg: sent_message(s, now, text) },
            },
        ],
        OperationView::ChangeUsername { destination, name } => seq![
            OutgoingView { destination, message: MessageView::UsernameChange { name } },
        ],
        OperationView::AddMember { destination, member } => seq![
            OutgoingView { destination, message: MessageView::MemberAdd { member } },
        ],
        OperationView::SetGroupChatFlag { flag } => Seq::empty(),
    }
}

impl Linchat {
    /// Whether `operation` can be carried out: a send needs an admin.
    pub fn can_execute_operation(&self, operation: &Operation) -> (res: bool)
        ensures
            res == operation_ready(self@, operation@),
    {
        match operation {
            Operation::Send { .. } => self.owner.count() > 0,
            _ => true,
        }
    }

    /// Whether `message` can be taken in: in a group chat an acknowledged
    /// message needs an admin.
    pub fn can_execute_message(&self, message: &Message) -> (res: bool)
        ensures
            res == message_ready(self@, message@),
    {
        match message {
            Message::Ack { .. } => !self.isgroupchat || self.owner.count() > 0,
            _ => true,
        }
    }

    /// The local mailbox that `operation` files into, if it files at all:
    /// a send in a direct chat echoes into the destination's mailbox.
    pub fn operation_mailbox(&self, operation: &Operation) -> (res: Option<Account>)
        ensures
            match res {
                Some(key) => {
                    &&& operation_files(self@, operation@)
                    &&& operation@ matches OperationView::Send { destination, text }
                    &&& key@ == destination
                },
                None => !operation_files(self@, operation@),
            },
    {
        match operation {
            Operation::Send { destination, text } => {
                if self.isgroupchat {
                    None
                } else {
                    Some(destination.clone())
                }
            },
            _ => None,
        }
    }

    /// The mailbox that `message` is filed into, if it is filed at all: an
    /// acknowledged chat message goes to the admin in a group chat and to
    /// its sender otherwise.
    pub fn message_mailbox(&self, message: &Message) -> (res: Option<Account>)
        requires
            message_ready(self@, message@),
        ensures
            match res {
                Some(key) => {
                    &&& message@ matches MessageView::Ack { msg }
                    &&& key@ == ack_key(self@, msg)
                },
                None => !(message@ is Ack),
            },
    {
        match message {
            Message::Ack { msg } => {
                if self.isgroupchat {
                    // A group chat keeps all its traffic with the admin.
                    self.owner.admin()
                } else {
                    Some(msg.account.clone())
                }
            },
            _ => None,
        }
    }

    /// Sets up the chat for its creator: `username` on the local chain
    /// becomes the admin, unless the registry already has one.
    pub fn initialize(&mut self, context: &HostContext, username: String) -> (res: Result<
        ExecutionResult,
        Error,
    >)
        requires
            old(self).wf(),
        ensures
            final(self).wf(),
            res is Ok,
            res.unwrap()@ == Seq::<OutgoingView>::empty(),
            final(self)@ == (LinchatView {
                isgroupchat: old(self)@.isgroupchat,
                owner: register_admin_spec(
                    old(self)@.owner,
                    AccountView { username: username@, chain_id: context.chain_id },
                ),
                messages: old(self)@.messages,
                bound: old(self)@.bound,
            }),
    {
        let account = Account { username, chain_id: context.chain_id };
        self.owner.register_admin(account);
        Ok(ExecutionResult::default())
    }

    /// Carries out a locally issued operation.
    ///
    /// A send stamps the text with the host's time and the local admin,
    /// echoes it into the local mailbox of the destination when this is a
    /// direct chat, and sends it to the destination's chain. Changing a
    /// username and adding a member only send a message. Setting the group
    /// flag only changes the flag. If the echo cannot be stored the call
    /// fails with `MessageNotAdded` and nothing has changed.
    pub fn execute_operation(&mut self, context: &HostContext, operation: Operation) -> (res:
        Result<ExecutionResult, Error>)
        requires
            old(self).wf(),
            operation_ready(old(self)@, operation@),
        ensures
            final(self).wf(),
            match res {
                Ok(outcome) => {
                    &&& context.storage_ok || !operation_files(old(self)@, operation@)
                    &&& outcome@ == operation_messages(
                        old(self)@,
                        context.system_time,
                        operation@,
                    )
                    &&& final(self)@ == operation_effect(
                        old(self)@,
                        context.system_time,
                        operation@,
                    )
                },
                Err(e) => {
                    &&& !context.storage_ok && operation_files(old(self)@, operation@)
                    &&& e == Error::MessageNotAdded
                    &&& final(self)@ == old(self)@
                },
            },
    {
        let mailbox = self.operation_mailbox(&operation);
        match operation {
            Operation::Send { destination, text } => {
                let chat_msg = ChatMessage {
                    timestamp: context.system_time,
                    text,
                    account: self.owner.admin().unwrap(),
                };
                let msg = Message::Ack { msg: chat_msg.clone() };
                match mailbox {
                    // Not a group chat: the sender keeps a copy.
                    Some(key) => match self.add_msg_to_queue(chat_msg, &key, context.storage_ok) {
                        Ok(()) => {},
                        Err(e) => {
                            return Err(e);
                        },
                    },
                    None => {},
                }
                Ok(ExecutionResult::default().with_message(destination.chain_id, msg))
            },
            Operation::ChangeUsername { destination, name } => {
                let msg = Message::UsernameChange { name };
                Ok(ExecutionResult::default().with_message(destination, msg))
            },
            Operation::AddMember { destination, member } => {
                let msg = Message::MemberAdd { member };
                Ok(ExecutionResult::default().with_message(destination, msg))
            },
            Operation::SetGroupChatFlag { flag } => {
                self.isgroupchat = flag;
                Ok(ExecutionResult::default())
            },
        }
    }

    /// Takes in a message from another chain. Nothing is sent on.
    ///
    /// An acknowledged chat message is filed under the admin in a group
    /// chat and under its sender otherwise. A username change claims the
    /// admin role for that name on the local chain, which succeeds only
    /// while nobody is registered. A member add registers the member once.
    /// If an acknowledged message cannot be stored the call fails with
    /// `MessageNotProcessed` and nothing has changed.
    pub fn execute_message(&mut self, context: &HostContext, message: Message) -> (res: Result<
        ExecutionResult,
        Error,
    >)
        requires
            old(self).wf(),
            message_ready(old(self)@, message@),
        ensures
            final(self).wf(),
            match res {
                Ok(outcome) => {
                    &&& context.storage_ok || !(message@ is Ack)
                    &&& outcome@ == Seq::<OutgoingView>::empty()
                    &&& final(self)@ == message_effect(old(self)@, context.chain_id, message@)
                },
                Err(e) => {
                    &&& !context.storage_ok && message@ is Ack
                    &&& e == Error::MessageNotProcessed
                    &&& final(self)@ == old(self)@
                },
            },
    {
        let mailbox = self.message_mailbox(&message);
        match message {
            Message::Ack { msg } => {
                let key = mailbox.unwrap();
                match self.add_msg_to_queue(msg, &key, context.storage_ok) {
                    Ok(()) => Ok(ExecutionResult::default()),
                    Err(_) => Err(Error::MessageNotProcessed),
                }
            },
            Message::UsernameChange { name } => {
                // Only the first claim names the admin.
                let account = Account { username: name, chain_id: context.chain_id };
                self.owner.register_admin(account);
                Ok(ExecutionResult::default())
            },
            Message::MemberAdd { member } => {
                self.owner.add_member(member);
                Ok(ExecutionResult::default())
            },
        }
    }

    /// Calls from other applications are refused.
    pub fn handle_application_call(&mut self, context: &HostContext) -> (res: Result<
        ExecutionResult,
        Error,
    >)
        ensures
            res == Err::<ExecutionResult, Error>(Error::ApplicationCallsNotSupported),
            *final(self) == *old(self),
    {
        Err(Error::ApplicationCallsNotSupported)
    }

    /// Session calls are refused.
    pub fn handle_session_call(&mut self, context: &HostContext) -> (res: Result<
        ExecutionResult,
        Error,
    >)
        ensures
            res == Err::<ExecutionResult, Error>(Error::SessionsNotSupported),
            *final(self) == *old(self),
    {
        Err(Error::SessionsNotSupported)
    }

    /// Files `msg` under `destination` if the store granted access
    /// (`storage_ok`); otherwise fails with `MessageNotAdded` and changes
    /// nothing.
    pub fn add_msg_to_queue(
        &mut self,
        msg: ChatMessage,
        destination: &Account,
        storage_ok: bool,
    ) -> (res: Result<(), Error>)
        requires
            old(self).wf(),
        ensures
            final(self).wf(),
            storage_ok ==> res is Ok && final(self)@ == file_spec(old(self)@, destination@, msg@),
            !storage_ok ==> res == Err::<(), Error>(Error::MessageNotAdded) && final(self)@ == old(
                self,
            )@,
    {
        if storage_ok {
            self.messages.enqueue(destination, msg);
            Ok(())
        } else {
            Err(Error::MessageNotAdded)
        }
    }
}

/// The first admin claim wins: on an empty registry, whichever of two
/// username changes is processed first names the admin, and the other
/// changes nothing.
pub proof fn lemma_first_admin_claim_wins(
    s: LinchatView,
    chain: ChainId,
    first: Seq<char>,
    second: Seq<char>,
)
    requires
        s.owner.len() == 0,
    ensures
        ({
            let after_first = message_effect(s, chain, MessageView::UsernameChange { name: first });
            let after_both = message_effect(
                after_first,
                chain,
                MessageView::UsernameChange { name: second },
            );
            &&& after_both == after_first
            &&& after_both.owner == seq![AccountView { username: first, chain_id: chain }]
            &&& admin_spec(after_both.owner) == Some(
                AccountView { username: first, chain_id: chain },
            )
        }),
{
}

/// Once an admin is registered, no username change replaces it.
pub proof fn lemma_admin_never_reassigned(s: LinchatView, chain: ChainId, message: MessageView)
    requires
        s.owner.len() > 0,
    ensures
        admin_spec(message_effect(s, chain, message).owner) == admin_spec(s.owner),
{
}

/// An acknowledged message goes to its sender's mailbox in a direct chat
/// and to the admin's mailbox in a group chat; no other mailbox changes.
pub proof fn lemma_ack_routing(s: LinchatView, chain: ChainId, msg: ChatMessageView)
    requires
        s.isgroupchat ==> s.owner.len() > 0,
    ensures
        ({
            let after = message_effect(s, chain, MessageView::Ack { msg });
            let key = if s.isgroupchat {
                admin_spec(s.owner).unwrap()
            } else {
                msg.account
            };
            &&& after.messages == enqueue_spec(s.messages, key, msg, s.bound)
            &&& after.messages.contains_key(key)
            &&& forall|other: AccountView|
                other != key ==> (after.messages.contains_key(other) <==> s.messages.contains_key(
                    other,
                ))
            &&& forall|other: AccountView|
                other != key && s.messages.contains_key(other) ==> #[trigger] after.messages[other]
                    == s.messages[other]
        }),
{
}

/// A send and its delivery: the sender emits exactly one acknowledged
/// message, addressed to the destination's chain and signed by the
/// sender's admin; in a direct chat the sender files a copy under the
/// destination; and the receiver files the very same message under the
/// sender's admin in a direct chat, under its own admin in a group chat.
pub proof fn lemma_send_is_delivered(
    sender: LinchatView,
    receiver: LinchatView,
    now: Timestamp,
    receiver_chain: ChainId,
    destination: AccountView,
    text: Seq<char>,
)
    requires
        sender.owner.len() > 0,
        receiver.isgroupchat ==> receiver.owner.len() > 0,
    ensures
        ({
            let operation = OperationView::Send { destination, text };
            let msg = ChatMessageView { timestamp: now, text, account: sender.owner[0] };
            let sent = operation_messages(sender, now, operation);
            let sender_after = operation_effect(sender, now, operation);
            let receiver_after = message_effect(receiver, receiver_chain, sent[0].message);
            let filed_under = if receiver.isgroupchat {
                receiver.owner[0]
            } else {
                sender.owner[0]
            };
            &&& sent == seq![
                OutgoingView {
                    destination: destination.chain_id,
                    message: MessageView::Ack { msg },
                },
            ]
            &&& !sender.isgroupchat ==> queue_at(sender_after.messages, destination)
                == bounded_push(queue_at(sender.messages, destination), msg, sender.bound)
            &&& sender.isgroupchat ==> sender_after == sender
            &&& queue_at(receiver_after.messages, filed_under) == bounded_push(
                queue_at(receiver.messages, filed_under),
                msg,
                receiver.bound,
            )
            &&& receiver_after.owner == receiver.owner
            &&& receiver_after.isgroupchat == receiver.isgroupchat
        }),
{
}

} // verus!
