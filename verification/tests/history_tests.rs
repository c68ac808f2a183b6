use agent_loop::history::{
    ensure_system_turn, generate_session_title, now_ts, session_closeout, ChatMessage,
    ChatSession, Role, SessionCloseout,
};

fn turn(role: Role, content: &str) -> ChatMessage {
    ChatMessage { role, content: content.to_string(), timestamp: 7 }
}

#[test]
fn title_comes_from_first_user_turn() {
    let msgs = vec![
        turn(Role::System, "sys"),
        turn(Role::Assistant, "hello"),
        turn(Role::User, "  short question  "),
        turn(Role::User, "another"),
    ];
    assert_eq!(generate_session_title(&msgs), "short question");
}

#[test]
fn long_title_is_shortened_with_ellipsis() {
    let msgs = vec![turn(Role::User, "abcdefghijklmnopqrstuvwxyz")];
    assert_eq!(generate_session_title(&msgs), "abcdefghijklmnopqrst...");
}

#[test]
fn no_user_turn_gives_placeholder_title() {
    let msgs = vec![turn(Role::System, "sys"), turn(Role::Assistant, "hi")];
    assert_eq!(generate_session_title(&msgs), "New Chat");
}

#[test]
fn exactly_twenty_characters_is_kept_whole() {
    let msgs = vec![turn(Role::User, "abcdefghijklmnopqrst")];
    assert_eq!(generate_session_title(&msgs), "abcdefghijklmnopqrst");
}

#[test]
fn system_turn_is_inserted_when_missing() {
    let mut msgs = vec![turn(Role::User, "hi")];
    ensure_system_turn(&mut msgs, 42);
    assert_eq!(msgs.len(), 2);
    assert_eq!(msgs[0].role, Role::System);
    assert_eq!(msgs[0].content, "You are a helpful AI assistant.");
    assert_eq!(msgs[0].timestamp, 42);
    assert_eq!(msgs[1].content, "hi");
}

#[test]
fn existing_system_turn_is_left_alone() {
    let mut msgs = vec![turn(Role::User, "hi"), turn(Role::System, "custom")];
    ensure_system_turn(&mut msgs, 42);
    assert_eq!(msgs.len(), 2);
    assert_eq!(msgs[0].content, "hi");
    assert_eq!(msgs[1].content, "custom");
}

#[test]
fn new_session_is_empty_with_equal_times() {
    let s = ChatSession::new("id-1".to_string(), "New Chat".to_string());
    assert_eq!(s.id, "id-1");
    assert_eq!(s.title, "New Chat");
    assert!(s.messages.is_empty());
    assert_eq!(s.created_at, s.updated_at);
}

#[test]
fn empty_session_is_discarded_on_closeout() {
    let s = ChatSession::new("id-2".to_string(), "New Chat".to_string());
    assert!(matches!(session_closeout(&s), SessionCloseout::Discard));
}

#[test]
fn placeholder_title_is_replaced_on_closeout() {
    let mut s = ChatSession::new("id-3".to_string(), "New Chat".to_string());
    s.messages.push(turn(Role::User, "name the moons of Mars"));
    match session_closeout(&s) {
        SessionCloseout::Keep { title } => assert_eq!(title, "name the moons of Ma..."),
        SessionCloseout::Discard => panic!("a session with turns is kept"),
    }
}

#[test]
fn chosen_title_is_kept_on_closeout() {
    let mut s = ChatSession::new("id-4".to_string(), "My chat".to_string());
    s.messages.push(turn(Role::User, "hello"));
    match session_closeout(&s) {
        SessionCloseout::Keep { title } => assert_eq!(title, "My chat"),
        SessionCloseout::Discard => panic!("a session with turns is kept"),
    }
}

#[test]
fn clock_reads_after_the_epoch() {
    assert!(now_ts() > 1_000_000_000);
}
