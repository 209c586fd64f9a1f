//! The state of one chat instance.

use crate::account::{Account, AccountView, ChatMessage, ChatMessageView};
use crate::mailbox::{messages_view, queue_at, MailboxStore, MAX_Q_SIZE};
use crate::registry::{admin_spec, Registry};
use vstd::prelude::*;

verus! {

/// Everything one chain keeps for its chat: owned by that chain alone and
/// changed only through its own handlers.
pub struct Linchat {
    // Is groupchat flag
    pub isgroupchat: bool,
    // Owner of the chat account
    pub owner: Registry,
    // Incoming messages
    pub messages: MailboxStore,
}

/// The state of a chat instance as a mathematical value.
pub ghost struct LinchatView {
    pub isgroupchat: bool,
    pub owner: Seq<AccountView>,
    pub messages: Map<AccountView, Seq<ChatMessageView>>,
    pub bound: nat,
}

impl View for Linchat {
    type V = LinchatView;

    open spec fn view(&self) -> LinchatView {
        LinchatView {
            isgroupchat: self.isgroupchat,
            owner: self.owner@,
            messages: self.messages@,
            bound: self.messages.bound(),
        }
    }
}

impl Linchat {
    /// The registry holds no account twice and no mailbox is over the bound.
    pub open spec fn wf(&self) -> bool {
        self.owner.wf() && self.messages.wf()
    }

    /// A fresh direct chat with nobody registered, no mail, and mailboxes
    /// bounded by `max_q_size`.
    pub fn with_queue_bound(max_q_size: usize) -> (res: Linchat)
        ensures
            res.wf(),
            res@ == (LinchatView {
                isgroupchat: false,
                owner: Seq::empty(),
                messages: Map::empty(),
                bound: max_q_size as nat,
            }),
    {
        Linchat {
            isgroupchat: false,
            owner: Registry::new(),
            messages: MailboxStore::new(max_q_size),
        }
    }

    /// A fresh direct chat whose mailboxes are bounded by `MAX_Q_SIZE`.
    pub fn new() -> (res: Linchat)
        ensures
            res.wf(),
            res@ == (LinchatView {
                isgroupchat: false,
                owner: Seq::empty(),
                messages: Map::empty(),
                bound: MAX_Q_SIZE as nat,
            }),
    {
        Linchat::with_queue_bound(MAX_Q_SIZE)
    }

    /// Whether this instance is a group chat.
    pub fn is_group_chat(&self) -> (res: bool)
        ensures
            res == self@.isgroupchat,
    {
        self.isgroupchat
    }

    /// The admin, or `None` while nobody is registered.
    pub fn admin(&self) -> (res: Option<Account>)
        ensures
            match res {
                Some(a) => admin_spec(self@.owner) == Some(a@),
                None => admin_spec(self@.owner).is_none(),
            },
    {
        self.owner.admin()
    }

    /// The messages filed under `key`, oldest first.
    pub fn mailbox(&self, key: &Account) -> (res: Vec<ChatMessage>)
        requires
            self.wf(),
        ensures
            messages_view(res@) == queue_at(self@.messages, key@),
    {
        self.messages.read(key)
    }
}

} // verus!
