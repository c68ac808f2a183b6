//! The conversation model: turns, sessions, and the small rules the
//! application applies to them — synthesizing a system turn, titling a
//! session from its first user turn, and deciding a session's fate when
//! the user moves on.

use vstd::prelude::*;

use crate::text::spec_trim;
use crate::text::trim_str;

verus! {

/// The speaker of one turn.
#[derive(Clone, Copy, Debug, PartialEq, Eq, Structural)]
pub enum Role {
    System,
    User,
    Assistant,
}

/// One turn of a conversation. Immutable once appended; insertion order is
/// the conversation order.
#[derive(Clone, Debug)]
pub struct ChatMessage {
    pub role: Role,
    pub content: String,
    pub timestamp: u64,
}

/// A stored conversation with its identity and bookkeeping times.
#[derive(Clone, Debug)]
pub struct ChatSession {
    pub id: String,
    pub title: String,
    pub created_at: u64,
    pub updated_at: u64,
    pub messages: Vec<ChatMessage>,
}

/// Relies on std::time::SystemTime::now for the wall clock: seconds since
/// the Unix epoch, or 0 if the clock reads earlier than the epoch. Nothing
/// is promised of the value.
#[verifier::external_body]
pub fn current_timestamp() -> u64 {
    match std::time::SystemTime::now().duration_since(std::time::UNIX_EPOCH) {
        Ok(d) => d.as_secs(),
        Err(_) => 0,
    }
}

/// The current wall-clock time in seconds since the Unix epoch.
pub fn now_ts() -> u64 {
    current_timestamp()
}

impl ChatSession {
    /// A fresh, empty session created now.
    pub fn new(id: String, title: String) -> (r: ChatSession)
        ensures
            r.id == id,
            r.title == title,
            r.messages@ == Seq::<ChatMessage>::empty(),
            r.created_at == r.updated_at,
    {
        let now = current_timestamp();
        ChatSession { id, title, created_at: now, updated_at: now, messages: Vec::new() }
    }
}

/// The content of the first user turn, if any.
pub open spec fn first_user_content(msgs: Seq<ChatMessage>) -> Option<Seq<char>>
    decreases msgs.len(),
{
    if msgs.len() == 0 {
        None
    } else if msgs[0].role == Role::User {
        Some(msgs[0].content@)
    } else {
        first_user_content(msgs.subrange(1, msgs.len() as int))
    }
}

/// A session title derived from one turn's content: the trimmed text,
/// shortened to its first 20 characters plus an ellipsis when longer.
pub open spec fn title_of_content(c: Seq<char>) -> Seq<char> {
    let t = spec_trim(c);
    if t.len() > 20 {
        t.subrange(0, 20) + "..."@
    } else {
        t
    }
}

/// The title a session earns from its turns: from the first user turn, or
/// "New Chat" when there is none.
pub open spec fn spec_session_title(msgs: Seq<ChatMessage>) -> Seq<char> {
    match first_user_content(msgs) {
        None => "New Chat"@,
        Some(c) => title_of_content(c),
    }
}

proof fn lemma_first_user_skip(msgs: Seq<ChatMessage>, i: int)
    requires
        0 <= i <= msgs.len(),
        forall|k: int| 0 <= k < i ==> msgs[k].role != Role::User,
    ensures
        i < msgs.len() && msgs[i as int].role == Role::User ==> first_user_content(msgs)
            == Some(msgs[i as int].content@),
        i == msgs.len() ==> first_user_content(msgs) is None,
    decreases i,
{
    if i > 0 {
        let t = msgs.subrange(1, msgs.len() as int);
        assert(forall|k: int| 0 <= k < i - 1 ==> t[k] == msgs[k + 1]);
        lemma_first_user_skip(t, i - 1);
        if i < msgs.len() {
            assert(t[i - 1] == msgs[i as int]);
        }
    }
}

/// Derive a title for a session from its turns: the first user turn's
/// trimmed content, shortened to 20 characters plus an ellipsis when
/// longer, or "New Chat" when no user turn exists.
pub fn generate_session_title(messages: &[ChatMessage]) -> (r: String)
    ensures
        r@ == spec_session_title(messages@),
{
    let n = messages.len();
    let mut i: usize = 0;
    while i < n && messages[i].role != Role::User
        invariant
            0 <= i <= n,
            n == messages@.len(),
            forall|k: int| 0 <= k < i ==> messages@[k].role != Role::User,
        decreases n - i,
    {
        i = i + 1;
    }
    proof {
        lemma_first_user_skip(messages@, i as int);
    }
    if i == n {
        return String::from_str("New Chat");
    }
    let t = trim_str(messages[i].content.as_str());
    let tn = t.unicode_len();
    if tn > 20 {
        String::from_str(t.substring_char(0, 20)).concat("...")
    } else {
        String::from_str(t)
    }
}

/// Whether some turn is a system turn.
pub open spec fn has_system_turn(msgs: Seq<ChatMessage>) -> bool {
    exists|k: int| 0 <= k < msgs.len() && msgs[k].role == Role::System
}

/// Make sure the conversation opens with a system turn: when none exists,
/// a generic assistant instruction is inserted at the front, stamped with
/// the given time; an existing system turn leaves the turns untouched.
pub fn ensure_system_turn(messages: &mut Vec<ChatMessage>, now: u64)
    ensures
        has_system_turn(old(messages)@) ==> final(messages)@ == old(messages)@,
        !has_system_turn(old(messages)@) ==> {
            &&& final(messages)@.len() == old(messages)@.len() + 1
            &&& final(messages)@[0].role == Role::System
            &&& final(messages)@[0].content@ == "You are a helpful AI assistant."@
            &&& final(messages)@[0].timestamp == now
            &&& final(messages)@.subrange(1, final(messages)@.len() as int) == old(messages)@
        },
        has_system_turn(final(messages)@),
{
    let n = messages.len();
    let mut i: usize = 0;
    while i < n && messages[i].role != Role::System
        invariant
            0 <= i <= n,
            n == messages@.len(),
            messages@ == old(messages)@,
            forall|k: int| 0 <= k < i ==> messages@[k].role != Role::System,
        decreases n - i,
    {
        i = i + 1;
    }
    if i < n {
        return ;
    }
    let turn = ChatMessage {
        role: Role::System,
        content: String::from_str("You are a helpful AI assistant."),
        timestamp: now,
    };
    messages.insert(0, turn);
    assert(final(messages)@.subrange(1, final(messages)@.len() as int) =~= old(messages)@);
}

/// What becomes of a session when the user leaves it: an empty one is
/// discarded; one with turns is kept, under a derived title if it still
/// carries the placeholder name.
#[derive(Debug)]
pub enum SessionCloseout {
    Discard,
    Keep { title: String },
}

/// Decide a session's fate when the user switches away or starts a new
/// chat: discard it if it has no turns; otherwise keep it, deriving a
/// title from its turns when the title is still the "New Chat"
/// placeholder.
pub fn session_closeout(session: &ChatSession) -> (r: SessionCloseout)
    ensures
        session.messages@.len() == 0 <==> r is Discard,
        session.messages@.len() > 0 ==> (r matches SessionCloseout::Keep { title } && title@ == (
        if session.title@ == "New Chat"@ {
            spec_session_title(session.messages@)
        } else {
            session.title@
        })),
{
    if session.messages.is_empty() {
        return SessionCloseout::Discard;
    }
    let placeholder = String::from_str("New Chat");
    if session.title == placeholder {
        SessionCloseout::Keep { title: generate_session_title(session.messages.as_slice()) }
    } else {
        SessionCloseout::Keep { title: session.title.clone() }
    }
}

} // verus!
