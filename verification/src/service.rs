//! The boundary adapter: named requests become operations.

use crate::account::{Account, ChainId};
use crate::protocol::{Operation, OperationView};
use vstd::prelude::*;

verus! {

/// An error that can occur while querying the service.
#[derive(Debug, PartialEq, Eq)]
pub enum Error {
    /// Invalid query argument; could not deserialize request. The text says why.
    InvalidQuery(String),
}

impl Error {
    /// The error in words.
    pub fn message(&self) -> (res: String)
        ensures
            res@ == "Invalid query argument; could not deserialize request"@,
    {
        "Invalid query argument; could not deserialize request".to_owned()
    }
}

/// The requests that change the chat. Each one only names an operation;
/// no rule of the chat is applied here.
#[derive(Clone, Copy, Debug, PartialEq, Eq, Structural)]
pub struct MutationRoot;

impl MutationRoot {
    /// The operation that sends `text` to `destn`.
    pub fn send(&self, destn: Account, text: String) -> (res: Operation)
        ensures
            res@ == (OperationView::Send { destination: destn@, text: text@ }),
    {
        Operation::Send { destination: destn, text }
    }

    /// The operation that asks chain `destn` to take `name` as its admin's username.
    pub fn change_username(&self, destn: ChainId, name: String) -> (res: Operation)
        ensures
            res@ == (OperationView::ChangeUsername { destination: destn, name: name@ }),
    {
        Operation::ChangeUsername { destination: destn, name }
    }

    /// The operation that asks chain `destn` to register `member`.
    pub fn add_member(&self, destn: ChainId, member: Account) -> (res: Operation)
        ensures
            res@ == (OperationView::AddMember { destination: destn, member: member@ }),
    {
        Operation::AddMember { destination: destn, member }
    }

    /// The operation that sets the local group flag to `flag`.
    pub fn set_group_chat_flag(&self, flag: bool) -> (res: Operation)
        ensures
            res@ == (OperationView::SetGroupChatFlag { flag }),
    {
        Operation::SetGroupChatFlag { flag }
    }
}

} // verus!
