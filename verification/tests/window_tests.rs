use agent_loop::history::{ChatMessage, Role};
use agent_loop::window::{select_context_messages, summarize_old_messages, MAX_MESSAGES};

fn turn(role: Role, content: &str, ts: u64) -> ChatMessage {
    ChatMessage { role, content: content.to_string(), timestamp: ts }
}

fn conversation(n: usize) -> Vec<ChatMessage> {
    let mut msgs = vec![turn(Role::System, "sys", 0)];
    for i in 1..n {
        let role = if i % 2 == 1 { Role::User } else { Role::Assistant };
        msgs.push(turn(role, &format!("m{}", i), i as u64));
    }
    msgs
}

#[test]
fn short_conversation_is_returned_whole() {
    let msgs = conversation(5);
    let out = select_context_messages(&msgs, Some(10));
    assert_eq!(out.len(), 5);
    for (a, b) in out.iter().zip(msgs.iter()) {
        assert_eq!(a.content, b.content);
        assert_eq!(a.role, b.role);
        assert_eq!(a.timestamp, b.timestamp);
    }
}

#[test]
fn long_conversation_keeps_first_turn_and_most_recent() {
    // 50 turns, window 40: the original first turn plus the 40 most
    // recent non-initial turns, in original order.
    let msgs = conversation(50);
    let out = select_context_messages(&msgs, None);
    assert_eq!(out.len(), MAX_MESSAGES + 1);
    assert_eq!(out[0].content, "sys");
    assert_eq!(out[0].role, Role::System);
    for k in 0..MAX_MESSAGES {
        assert_eq!(out[k + 1].content, msgs[50 - MAX_MESSAGES + k].content);
    }
}

#[test]
fn boundary_exactly_window_size_is_whole() {
    let msgs = conversation(40);
    let out = select_context_messages(&msgs, Some(40));
    assert_eq!(out.len(), 40);
    assert_eq!(out[0].content, "sys");
    assert_eq!(out[39].content, msgs[39].content);
}

#[test]
fn just_over_window_size_keeps_first() {
    let msgs = conversation(6);
    let out = select_context_messages(&msgs, Some(3));
    assert_eq!(out.len(), 4);
    assert_eq!(out[0].content, "sys");
    assert_eq!(out[1].content, "m3");
    assert_eq!(out[2].content, "m4");
    assert_eq!(out[3].content, "m5");
}

#[test]
fn selector_is_idempotent() {
    // A pure projection: two selections from the same conversation are
    // identical, and the conversation itself is untouched.
    let msgs = conversation(50);
    let before: Vec<String> = msgs.iter().map(|m| m.content.clone()).collect();
    let a = select_context_messages(&msgs, Some(7));
    let b = select_context_messages(&msgs, Some(7));
    assert_eq!(a.len(), b.len());
    for (x, y) in a.iter().zip(b.iter()) {
        assert_eq!(x.content, y.content);
        assert_eq!(x.role, y.role);
        assert_eq!(x.timestamp, y.timestamp);
    }
    let after: Vec<String> = msgs.iter().map(|m| m.content.clone()).collect();
    assert_eq!(before, after);
}

#[test]
fn empty_conversation_selects_nothing() {
    let out = select_context_messages(&[], None);
    assert!(out.is_empty());
}

#[test]
fn summarization_is_not_offered() {
    let msgs = conversation(10);
    assert!(summarize_old_messages(&msgs).is_none());
}
