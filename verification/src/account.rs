//! Identities and the chat message value.

use vstd::prelude::*;

verus! {

/// Identifier of a chain: a 256-bit digest held as four 64-bit words.
#[derive(Clone, Copy, Debug, PartialEq, Eq, PartialOrd, Ord, Hash, Structural)]
pub struct ChainId {
    pub word0: u64,
    pub word1: u64,
    pub word2: u64,
    pub word3: u64,
}

/// A point in time, in microseconds since the Unix epoch.
#[derive(Clone, Copy, Debug, PartialEq, Eq, PartialOrd, Ord, Hash, Structural)]
pub struct Timestamp {
    pub micros: u64,
}

/// An account: a username on a chain. Two accounts are the same account
/// exactly when both parts agree.
#[derive(Debug, PartialEq, Eq, PartialOrd, Ord)]
pub struct Account {
    /// username
    pub username: String,
    /// chain id
    pub chain_id: ChainId,
}

/// The identity of an account as a mathematical value.
pub ghost struct AccountView {
    pub username: Seq<char>,
    pub chain_id: ChainId,
}

impl View for Account {
    type V = AccountView;

    open spec fn view(&self) -> AccountView {
        AccountView { username: self.username@, chain_id: self.chain_id }
    }
}

impl Clone for Account {
    fn clone(&self) -> (res: Self)
        ensures
            res@ == self@,
    {
        Account { username: self.username.clone(), chain_id: self.chain_id }
    }
}

impl Account {
    /// Builds the account `username` on `chain_id`.
    pub fn new(username: String, chain_id: ChainId) -> (res: Account)
        ensures
            res@ == (AccountView { username: username@, chain_id }),
    {
        Account { username, chain_id }
    }

    /// Whether `self` and `other` name the same account.
    pub fn same_identity(&self, other: &Account) -> (res: bool)
        ensures
            res == (self@ == other@),
    {
        self.chain_id == other.chain_id && self.username == other.username
    }
}

/// A chat message: when it was sent, what it says, and who sent it.
#[derive(Debug, PartialEq)]
pub struct ChatMessage {
    /// timestamp associated with message
    pub timestamp: Timestamp,
    /// the content of message
    pub text: String,
    /// the sender
    pub account: Account,
}

/// A chat message as a mathematical value.
pub ghost struct ChatMessageView {
    pub timestamp: Timestamp,
    pub text: Seq<char>,
    pub account: AccountView,
}

impl View for ChatMessage {
    type V = ChatMessageView;

    open spec fn view(&self) -> ChatMessageView {
        ChatMessageView { timestamp: self.timestamp, text: self.text@, account: self.account@ }
    }
}

impl Clone for ChatMessage {
    fn clone(&self) -> (res: Self)
        ensures
            res@ == self@,
    {
        ChatMessage {
            timestamp: self.timestamp,
            text: self.text.clone(),
            account: self.account.clone(),
        }
    }
}

} // verus!
