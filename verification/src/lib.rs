//! Cross-chain chat mailbox: accounts, a registry of chat owners, bounded
//! per-account mailboxes, and the routing rules that connect them.

pub mod account;
pub mod contract;
pub mod mailbox;
pub mod protocol;
pub mod registry;
pub mod service;
pub mod state;

pub use account::{Account, AccountView, ChainId, ChatMessage, ChatMessageView, Timestamp};
pub use mailbox::{MailboxStore, MAX_Q_SIZE};
pub use protocol::{
    ExecutionResult, HostContext, LinchatAbi, Message, MessageView, Operation, OperationView,
    OutgoingMessage, OutgoingView,
};
pub use registry::Registry;
pub use state::{Linchat, LinchatView};
