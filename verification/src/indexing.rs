//! What the full-text index holds for a session: one document for the
//! title, and one per user or assistant turn. Deriving the documents is
//! pure; writing them into the index engine is the caller's side.

use vstd::prelude::*;

use crate::history::{ChatMessage, ChatSession, Role};

verus! {

/// One document for the search index.
#[derive(Clone, Debug)]
pub struct IndexEntry {
    pub session_id: String,
    pub title: String,
    pub content: String,
}

/// The entries carry exactly these documents: same count, and the same
/// session id, title and content at each position.
pub open spec fn matches_docs(
    es: Seq<IndexEntry>,
    docs: Seq<(Seq<char>, Seq<char>, Seq<char>)>,
) -> bool {
    &&& es.len() == docs.len()
    &&& forall|k: int|
        0 <= k < es.len() ==> {
            &&& (#[trigger] es[k]).session_id@ == docs[k].0
            &&& es[k].title@ == docs[k].1
            &&& es[k].content@ == docs[k].2
        }
}

/// One document per user or assistant turn, in conversation order; system
/// turns are not indexed.
pub open spec fn spec_message_entries(
    id: Seq<char>,
    title: Seq<char>,
    msgs: Seq<ChatMessage>,
) -> Seq<(Seq<char>, Seq<char>, Seq<char>)>
    decreases msgs.len(),
{
    if msgs.len() == 0 {
        Seq::empty()
    } else if msgs.last().role == Role::System {
        spec_message_entries(id, title, msgs.drop_last())
    } else {
        spec_message_entries(id, title, msgs.drop_last()).push((id, title, msgs.last().content@))
    }
}

/// A session's documents: the title document (with empty content) followed
/// by one document per user or assistant turn.
pub open spec fn spec_session_entries(s: ChatSession) -> Seq<(Seq<char>, Seq<char>, Seq<char>)> {
    seq![(s.id@, s.title@, Seq::<char>::empty())] + spec_message_entries(
        s.id@,
        s.title@,
        s.messages@,
    )
}

/// The documents of many sessions, in session order.
pub open spec fn spec_sessions_entries(ss: Seq<ChatSession>) -> Seq<
    (Seq<char>, Seq<char>, Seq<char>),
>
    decreases ss.len(),
{
    if ss.len() == 0 {
        Seq::empty()
    } else {
        spec_sessions_entries(ss.drop_last()) + spec_session_entries(ss.last())
    }
}

/// The documents to write for one session: the title document, then one
/// document per user or assistant turn.
pub fn session_index_entries(session: &ChatSession) -> (r: Vec<IndexEntry>)
    ensures
        matches_docs(r@, spec_session_entries(*session)),
{
    let mut r: Vec<IndexEntry> = Vec::new();
    r.push(
        IndexEntry {
            session_id: session.id.clone(),
            title: session.title.clone(),
            content: String::new(),
        },
    );
    let n = session.messages.len();
    let mut i: usize = 0;
    while i < n
        invariant
            0 <= i <= n,
            n == session.messages@.len(),
            matches_docs(
                r@,
                seq![(session.id@, session.title@, Seq::<char>::empty())] + spec_message_entries(
                    session.id@,
                    session.title@,
                    session.messages@.subrange(0, i as int),
                ),
            ),
        decreases n - i,
    {
        let m = &session.messages[i];
        proof {
            let pre = session.messages@.subrange(0, i as int);
            let cur = session.messages@.subrange(0, i + 1);
            assert(cur.drop_last() =~= pre);
            assert(cur.last() == session.messages@[i as int]);
        }
        if !(m.role == Role::System) {
            r.push(
                IndexEntry {
                    session_id: session.id.clone(),
                    title: session.title.clone(),
                    content: m.content.clone(),
                },
            );
        }
        i = i + 1;
    }
    proof {
        assert(session.messages@.subrange(0, n as int) =~= session.messages@);
    }
    r
}

/// The documents for a full rebuild of the index: every session's
/// documents, in session order. The number of documents written is the
/// length of the result.
pub fn sessions_index_entries(sessions: &Vec<ChatSession>) -> (r: Vec<IndexEntry>)
    ensures
        matches_docs(r@, spec_sessions_entries(sessions@)),
{
    let mut r: Vec<IndexEntry> = Vec::new();
    let n = sessions.len();
    let mut i: usize = 0;
    while i < n
        invariant
            0 <= i <= n,
            n == sessions@.len(),
            matches_docs(r@, spec_sessions_entries(sessions@.subrange(0, i as int))),
        decreases n - i,
    {
        let ghost r0 = r@;
        let mut part = session_index_entries(&sessions[i]);
        let ghost part0 = part@;
        proof {
            let pre = sessions@.subrange(0, i as int);
            let cur = sessions@.subrange(0, i + 1);
            assert(cur.drop_last() =~= pre);
            assert(cur.last() == sessions@[i as int]);
        }
        r.append(&mut part);
        proof {
            assert(forall|k: int| 0 <= k < r0.len() ==> r@[k] == r0[k]);
            assert(forall|k: int|
                r0.len() <= k < r@.len() ==> r@[k] == part0[k - r0.len()]);
        }
        i = i + 1;
    }
    proof {
        assert(sessions@.subrange(0, n as int) =~= sessions@);
    }
    r
}

} // verus!
