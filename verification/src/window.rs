//! The context window selector: the bounded subsequence of the
//! conversation that is submitted to the completion endpoint.
//!
//! When the conversation fits in the window it is sent whole, in order.
//! When it does not, the first turn — the system turn, carrying the
//! instruction and the tool grammar — is always retained, followed by the
//! most recent turns, in their original relative order.

use vstd::prelude::*;

use crate::history::ChatMessage;

verus! {

/// The default window size, counted in turns.
pub const MAX_MESSAGES: usize = 40;

/// The window applied to a conversation: everything when it fits, else the
/// first turn plus the `w` most recent turns.
pub open spec fn spec_select_window(msgs: Seq<ChatMessage>, w: int) -> Seq<ChatMessage> {
    if msgs.len() <= w {
        msgs
    } else {
        seq![msgs[0]] + msgs.subrange(msgs.len() - w, msgs.len() as int)
    }
}

pub open spec fn window_or_default(max_messages: Option<usize>) -> usize {
    match max_messages {
        Some(w) => w,
        None => MAX_MESSAGES,
    }
}

/// The bounded message list to submit: all turns when they fit in the
/// window, otherwise the original first turn followed by the most recent
/// turns, in original order. A pure projection; the conversation itself is
/// untouched.
pub fn select_context_messages(messages: &[ChatMessage], max_messages: Option<usize>) -> (r: Vec<
    ChatMessage,
>)
    ensures
        r@ == spec_select_window(messages@, window_or_default(max_messages) as int),
{
    let window_size = max_messages.unwrap_or(MAX_MESSAGES);
    let n = messages.len();
    let mut result: Vec<ChatMessage> = Vec::new();
    if n <= window_size {
        let mut i: usize = 0;
        while i < n
            invariant
                0 <= i <= n,
                n == messages@.len(),
                result@ == messages@.subrange(0, i as int),
            decreases n - i,
        {
            let m = &messages[i];
            result.push(ChatMessage { role: m.role, content: m.content.clone(), timestamp: m.timestamp });
            assert(result@ =~= messages@.subrange(0, i + 1));
            i = i + 1;
        }
        assert(result@ =~= messages@);
    } else {
        let first = &messages[0];
        result.push(ChatMessage {
            role: first.role,
            content: first.content.clone(),
            timestamp: first.timestamp,
        });
        let mut i: usize = n - window_size;
        while i < n
            invariant
                n - window_size <= i <= n,
                n == messages@.len(),
                n > window_size,
                result@ == seq![messages@[0]] + messages@.subrange(n - window_size, i as int),
            decreases n - i,
        {
            let m = &messages[i];
            result.push(ChatMessage { role: m.role, content: m.content.clone(), timestamp: m.timestamp });
            assert(result@ =~= seq![messages@[0]] + messages@.subrange(
                n - window_size,
                i + 1,
            ));
            i = i + 1;
        }
    }
    result
}

/// Summarization of old turns is not yet offered; no summary is ever
/// produced.
pub fn summarize_old_messages(messages: &[ChatMessage]) -> (r: Option<String>)
    ensures
        r is None,
{
    None
}

/// A conversation longer than the window always keeps its original first
/// turn, followed by exactly the `w` most recent turns — all of them
/// non-initial — in original order.
pub proof fn lemma_window_keeps_first_turn(msgs: Seq<ChatMessage>, w: int)
    requires
        0 <= w < msgs.len(),
    ensures
        spec_select_window(msgs, w).len() == w + 1,
        spec_select_window(msgs, w)[0] == msgs[0],
        spec_select_window(msgs, w).subrange(1, w + 1) == msgs.subrange(
            msgs.len() - w,
            msgs.len() as int,
        ),
        forall|k: int|
            1 <= k <= w ==> spec_select_window(msgs, w)[k] == msgs[msgs.len() - w + (k - 1)],
{
    assert(spec_select_window(msgs, w).subrange(1, w + 1) =~= msgs.subrange(
        msgs.len() - w,
        msgs.len() as int,
    ));
}

/// The selector is a pure function of the conversation and the window:
/// two selections from the same conversation are identical.
pub proof fn lemma_select_window_deterministic(
    msgs: Seq<ChatMessage>,
    w: int,
    r1: Seq<ChatMessage>,
    r2: Seq<ChatMessage>,
)
    requires
        r1 == spec_select_window(msgs, w),
        r2 == spec_select_window(msgs, w),
    ensures
        r1 == r2,
{
}

} // verus!
