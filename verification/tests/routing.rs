use linchat::contract::Error;
use linchat::service::MutationRoot;
use linchat::{
    Account, ChainId, ChatMessage, ExecutionResult, HostContext, Linchat, LinchatAbi, Message,
    Operation, OutgoingMessage, Timestamp,
};

fn chain(n: u64) -> ChainId {
    ChainId { word0: 0, word1: 0, word2: 0, word3: n }
}

fn account(name: &str, n: u64) -> Account {
    Account::new(name.to_string(), chain(n))
}

fn host(n: u64, micros: u64) -> HostContext {
    HostContext { chain_id: chain(n), system_time: Timestamp { micros }, storage_ok: true }
}

fn failing_host(n: u64, micros: u64) -> HostContext {
    HostContext { chain_id: chain(n), system_time: Timestamp { micros }, storage_ok: false }
}

fn chat_message(micros: u64, text: &str, from: &Account) -> ChatMessage {
    ChatMessage { timestamp: Timestamp { micros }, text: text.to_string(), account: from.clone() }
}

fn instance(name: &str, n: u64, bound: usize) -> Linchat {
    let mut chat = Linchat::with_queue_bound(bound);
    let outcome = chat.initialize(&host(n, 0), name.to_string());
    assert_eq!(outcome, Ok(ExecutionResult::default()));
    chat
}

fn nothing_sent() -> Result<ExecutionResult, Error> {
    Ok(ExecutionResult::default())
}

#[test]
fn a_new_instance_is_a_direct_chat_without_admin() {
    let chat = Linchat::new();
    assert!(!chat.is_group_chat());
    assert_eq!(chat.admin(), None);
    assert_eq!(chat.messages.capacity(), 1000);
    assert_eq!(chat.mailbox(&account("alice", 1)), vec![]);
}

#[test]
fn initialize_registers_the_creator_on_the_local_chain() {
    let chat = instance("alice", 1, 10);
    assert_eq!(chat.admin(), Some(account("alice", 1)));
    assert_eq!(chat.owner.count(), 1);
}

#[test]
fn direct_send_echoes_locally_and_reaches_the_other_chain() {
    let alice = account("alice", 1);
    let bob = account("bob", 2);
    let mut chain1 = instance("alice", 1, 1000);
    let mut chain2 = instance("bob", 2, 1000);

    let op = Operation::Send { destination: bob.clone(), text: "hi".to_string() };
    let outcome = chain1.execute_operation(&host(1, 42), op).unwrap();
    let expected = chat_message(42, "hi", &alice);
    assert_eq!(chain1.mailbox(&bob), vec![expected.clone()]);
    assert_eq!(
        outcome.messages,
        vec![OutgoingMessage { destination: chain(2), message: Message::Ack { msg: expected.clone() } }]
    );

    for out in outcome.messages {
        assert_eq!(out.destination, chain(2));
        assert_eq!(chain2.execute_message(&host(2, 50), out.message), nothing_sent());
    }
    assert_eq!(chain2.mailbox(&alice), vec![expected]);
    assert_eq!(chain2.mailbox(&bob), vec![]);
}

#[test]
fn group_chat_files_acknowledged_messages_under_the_admin() {
    let alice = account("alice", 1);
    let bob = account("bob", 2);
    let mut chain2 = instance("bob", 2, 1000);
    assert_eq!(
        chain2.execute_operation(&host(2, 1), Operation::SetGroupChatFlag { flag: true }),
        nothing_sent()
    );
    assert!(chain2.is_group_chat());

    let msg = chat_message(7, "hello group", &alice);
    assert_eq!(chain2.execute_message(&host(2, 8), Message::Ack { msg: msg.clone() }), nothing_sent());
    assert_eq!(chain2.mailbox(&bob), vec![msg]);
    assert_eq!(chain2.mailbox(&alice), vec![]);
    assert!(!chain2.messages.has_mailbox(&alice));
}

#[test]
fn direct_chat_files_acknowledged_messages_under_the_sender() {
    let alice = account("alice", 1);
    let carol = account("carol", 3);
    let bob = account("bob", 2);
    let mut chain2 = instance("bob", 2, 1000);
    let from_alice = chat_message(7, "one", &alice);
    let from_carol = chat_message(8, "two", &carol);
    chain2.execute_message(&host(2, 9), Message::Ack { msg: from_alice.clone() }).unwrap();
    chain2.execute_message(&host(2, 9), Message::Ack { msg: from_carol.clone() }).unwrap();
    assert_eq!(chain2.mailbox(&alice), vec![from_alice]);
    assert_eq!(chain2.mailbox(&carol), vec![from_carol]);
    assert_eq!(chain2.mailbox(&bob), vec![]);
}

#[test]
fn direct_chat_needs_no_admin_to_take_in_a_message() {
    let alice = account("alice", 1);
    let mut chat = Linchat::with_queue_bound(10);
    let msg = chat_message(7, "one", &alice);
    assert!(chat.can_execute_message(&Message::Ack { msg: msg.clone() }));
    chat.execute_message(&host(2, 9), Message::Ack { msg: msg.clone() }).unwrap();
    assert_eq!(chat.mailbox(&alice), vec![msg]);
}

#[test]
fn group_send_does_not_echo_but_still_sends() {
    let alice = account("alice", 1);
    let bob = account("bob", 2);
    let mut chain1 = instance("alice", 1, 1000);
    chain1.execute_operation(&host(1, 1), Operation::SetGroupChatFlag { flag: true }).unwrap();
    let op = Operation::Send { destination: bob.clone(), text: "hi".to_string() };
    let outcome = chain1.execute_operation(&failing_host(1, 42), op).unwrap();
    assert_eq!(chain1.mailbox(&bob), vec![]);
    assert_eq!(
        outcome.messages,
        vec![OutgoingMessage {
            destination: chain(2),
            message: Message::Ack { msg: chat_message(42, "hi", &alice) },
        }]
    );
}

#[test]
fn group_flag_can_be_set_and_cleared() {
    let mut chat = instance("alice", 1, 10);
    chat.execute_operation(&host(1, 1), Operation::SetGroupChatFlag { flag: true }).unwrap();
    assert!(chat.is_group_chat());
    chat.execute_operation(&host(1, 2), Operation::SetGroupChatFlag { flag: false }).unwrap();
    assert!(!chat.is_group_chat());
    assert_eq!(chat.admin(), Some(account("alice", 1)));
}

#[test]
fn change_username_only_sends_a_message() {
    let mut chat = instance("alice", 1, 10);
    let op = Operation::ChangeUsername { destination: chain(2), name: "bobby".to_string() };
    let outcome = chat.execute_operation(&failing_host(1, 5), op).unwrap();
    assert_eq!(
        outcome.messages,
        vec![OutgoingMessage {
            destination: chain(2),
            message: Message::UsernameChange { name: "bobby".to_string() },
        }]
    );
    assert_eq!(chat.admin(), Some(account("alice", 1)));
    assert_eq!(chat.owner.count(), 1);
    assert!(!chat.is_group_chat());
}

#[test]
fn add_member_only_sends_a_message() {
    let mut chat = instance("alice", 1, 10);
    let op = Operation::AddMember { destination: chain(2), member: account("carol", 3) };
    let outcome = chat.execute_operation(&host(1, 5), op).unwrap();
    assert_eq!(
        outcome.messages,
        vec![OutgoingMessage {
            destination: chain(2),
            message: Message::MemberAdd { member: account("carol", 3) },
        }]
    );
    assert_eq!(chat.owner.count(), 1);
    assert!(!chat.owner.contains(&account("carol", 3)));
}

#[test]
fn username_change_claims_admin_only_once() {
    let mut chat = Linchat::with_queue_bound(10);
    let first = Message::UsernameChange { name: "alice".to_string() };
    let second = Message::UsernameChange { name: "mallory".to_string() };
    assert_eq!(chat.execute_message(&host(4, 1), first), nothing_sent());
    assert_eq!(chat.execute_message(&host(4, 2), second), nothing_sent());
    assert_eq!(chat.owner.count(), 1);
    assert_eq!(chat.admin(), Some(account("alice", 4)));
}

#[test]
fn username_change_in_the_other_order_names_the_other_admin() {
    let mut chat = Linchat::with_queue_bound(10);
    let first = Message::UsernameChange { name: "mallory".to_string() };
    let second = Message::UsernameChange { name: "alice".to_string() };
    chat.execute_message(&host(4, 1), first).unwrap();
    chat.execute_message(&host(4, 2), second).unwrap();
    assert_eq!(chat.owner.count(), 1);
    assert_eq!(chat.admin(), Some(account("mallory", 4)));
}

#[test]
fn username_change_does_not_replace_the_creator() {
    let mut chat = instance("alice", 1, 10);
    chat.execute_message(&host(1, 2), Message::UsernameChange { name: "mallory".to_string() })
        .unwrap();
    assert_eq!(chat.admin(), Some(account("alice", 1)));
    assert_eq!(chat.owner.count(), 1);
}

#[test]
fn member_add_redelivered_registers_once() {
    let mut chat = instance("alice", 1, 10);
    for _ in 0..3 {
        let msg = Message::MemberAdd { member: account("bob", 2) };
        assert_eq!(chat.execute_message(&host(1, 2), msg), nothing_sent());
    }
    assert_eq!(chat.owner.count(), 2);
    assert_eq!(chat.owner.get(0), Some(account("alice", 1)));
    assert_eq!(chat.owner.get(1), Some(account("bob", 2)));
}

#[test]
fn ack_redelivered_is_filed_again() {
    let alice = account("alice", 1);
    let mut chat = instance("bob", 2, 10);
    let msg = chat_message(7, "again", &alice);
    chat.execute_message(&host(2, 8), Message::Ack { msg: msg.clone() }).unwrap();
    chat.execute_message(&host(2, 9), Message::Ack { msg: msg.clone() }).unwrap();
    assert_eq!(chat.mailbox(&alice), vec![msg.clone(), msg]);
}

#[test]
fn acks_respect_the_bound_of_the_instance() {
    let alice = account("alice", 1);
    let mut chat = instance("bob", 2, 10);
    for i in 0..15 {
        let msg = chat_message(i, "x", &alice);
        chat.execute_message(&host(2, 100), Message::Ack { msg }).unwrap();
    }
    let expected: Vec<ChatMessage> = (5..15).map(|i| chat_message(i, "x", &alice)).collect();
    assert_eq!(chat.mailbox(&alice), expected);
}

#[test]
fn failed_echo_fails_the_send_and_changes_nothing() {
    let bob = account("bob", 2);
    let mut chat = instance("alice", 1, 10);
    let op = Operation::Send { destination: bob.clone(), text: "hi".to_string() };
    assert_eq!(chat.execute_operation(&failing_host(1, 42), op), Err(Error::MessageNotAdded));
    assert_eq!(chat.mailbox(&bob), vec![]);
    assert!(!chat.messages.has_mailbox(&bob));
    assert_eq!(chat.admin(), Some(account("alice", 1)));
}

#[test]
fn failed_store_fails_the_ack_and_changes_nothing() {
    let alice = account("alice", 1);
    let mut chat = instance("bob", 2, 10);
    let msg = chat_message(7, "lost", &alice);
    assert_eq!(
        chat.execute_message(&failing_host(2, 8), Message::Ack { msg }),
        Err(Error::MessageNotProcessed)
    );
    assert_eq!(chat.mailbox(&alice), vec![]);
    assert!(!chat.messages.has_mailbox(&alice));
}

#[test]
fn add_msg_to_queue_reports_a_failed_store() {
    let alice = account("alice", 1);
    let bob = account("bob", 2);
    let mut chat = instance("alice", 1, 10);
    let msg = chat_message(7, "x", &alice);
    assert_eq!(chat.add_msg_to_queue(msg.clone(), &bob, false), Err(Error::MessageNotAdded));
    assert_eq!(chat.mailbox(&bob), vec![]);
    assert_eq!(chat.add_msg_to_queue(msg.clone(), &bob, true), Ok(()));
    assert_eq!(chat.mailbox(&bob), vec![msg]);
}

#[test]
fn application_and_session_calls_are_refused() {
    let mut chat = instance("alice", 1, 10);
    assert_eq!(
        chat.handle_application_call(&host(1, 1)),
        Err(Error::ApplicationCallsNotSupported)
    );
    assert_eq!(chat.handle_session_call(&host(1, 1)), Err(Error::SessionsNotSupported));
    assert_eq!(chat.admin(), Some(account("alice", 1)));
}

#[test]
fn readiness_checks_ask_for_an_admin_where_one_is_needed() {
    let alice = account("alice", 1);
    let mut chat = Linchat::with_queue_bound(10);
    let send = Operation::Send { destination: account("bob", 2), text: "hi".to_string() };
    let ack = Message::Ack { msg: chat_message(1, "x", &alice) };
    assert!(!chat.can_execute_operation(&send));
    assert!(chat.can_execute_operation(&Operation::SetGroupChatFlag { flag: true }));
    assert!(chat.can_execute_message(&ack));
    chat.execute_operation(&host(1, 1), Operation::SetGroupChatFlag { flag: true }).unwrap();
    assert!(!chat.can_execute_message(&ack));
    assert!(chat.can_execute_message(&Message::UsernameChange { name: "alice".to_string() }));
    chat.initialize(&host(1, 2), "alice".to_string()).unwrap();
    assert!(chat.can_execute_operation(&send));
    assert!(chat.can_execute_message(&ack));
}

#[test]
fn contract_errors_say_what_went_wrong() {
    assert_eq!(Error::BcsError("eof".to_string()).message(), "Failed to deserialize BCS bytes");
    assert_eq!(Error::JsonError("eof".to_string()).message(), "Failed to deserialize JSON string");
    assert_eq!(
        Error::SessionsNotSupported.message(),
        "Linchat application doesn't support any cross-application sessions"
    );
    assert_eq!(
        Error::ApplicationCallsNotSupported.message(),
        "Linchat application doesn't support any application calls"
    );
    assert_eq!(Error::MessageNotProcessed.message(), "Cross chain message not processed");
    assert_eq!(Error::MessageNotAdded.message(), "Message not added to self queue");
}

#[test]
fn service_error_says_what_went_wrong() {
    let e = linchat::service::Error::InvalidQuery("expected value".to_string());
    assert_eq!(e.message(), "Invalid query argument; could not deserialize request");
}

#[test]
fn requests_become_operations() {
    let root = MutationRoot;
    assert_eq!(
        root.send(account("bob", 2), "hi".to_string()),
        Operation::Send { destination: account("bob", 2), text: "hi".to_string() }
    );
    assert_eq!(
        root.change_username(chain(2), "bobby".to_string()),
        Operation::ChangeUsername { destination: chain(2), name: "bobby".to_string() }
    );
    assert_eq!(
        root.add_member(chain(2), account("carol", 3)),
        Operation::AddMember { destination: chain(2), member: account("carol", 3) }
    );
    assert_eq!(root.set_group_chat_flag(true), Operation::SetGroupChatFlag { flag: true });
    assert_eq!(LinchatAbi, LinchatAbi);
}

#[test]
fn with_message_appends_in_order() {
    let result = ExecutionResult::default()
        .with_message(chain(2), Message::UsernameChange { name: "a".to_string() })
        .with_message(chain(3), Message::MemberAdd { member: account("bob", 2) });
    assert_eq!(
        result.messages,
        vec![
            OutgoingMessage {
                destination: chain(2),
                message: Message::UsernameChange { name: "a".to_string() },
            },
            OutgoingMessage {
                destination: chain(3),
                message: Message::MemberAdd { member: account("bob", 2) },
            },
        ]
    );
}

#[test]
fn only_a_direct_send_files_locally() {
    let mut chat = instance("alice", 1, 10);
    let send = Operation::Send { destination: account("bob", 2), text: "hi".to_string() };
    let rename = Operation::ChangeUsername { destination: chain(2), name: "b".to_string() };
    assert_eq!(chat.operation_mailbox(&send), Some(account("bob", 2)));
    assert_eq!(chat.operation_mailbox(&rename), None);
    assert_eq!(chat.operation_mailbox(&Operation::SetGroupChatFlag { flag: true }), None);
    chat.execute_operation(&host(1, 1), Operation::SetGroupChatFlag { flag: true }).unwrap();
    assert_eq!(chat.operation_mailbox(&send), None);
}

#[test]
fn an_ack_is_filed_under_sender_or_admin() {
    let carol = account("carol", 3);
    let mut chat = instance("bob", 2, 10);
    let ack = Message::Ack { msg: chat_message(1, "x", &carol) };
    assert_eq!(chat.message_mailbox(&ack), Some(carol.clone()));
    assert_eq!(chat.message_mailbox(&Message::MemberAdd { member: carol.clone() }), None);
    assert_eq!(chat.message_mailbox(&Message::UsernameChange { name: "z".to_string() }), None);
    chat.execute_operation(&host(2, 1), Operation::SetGroupChatFlag { flag: true }).unwrap();
    assert_eq!(chat.message_mailbox(&ack), Some(account("bob", 2)));
}
