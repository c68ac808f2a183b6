//! The loop controller: a state machine that drives a completion endpoint
//! through rounds of "think, optionally invoke a tool, observe the result"
//! until a final answer arrives or the iteration budget is exhausted.
//!
//! The machine makes every decision — window selection, reply
//! classification, tool routing, bookkeeping of the transcript and the
//! round counter — and hands the caller the calls to perform: one
//! completion call per round, and at most one tool call. The caller feeds
//! each outcome back in. Rounds are strictly sequential: each round's
//! prompt depends on the turns the previous round appended.

use vstd::prelude::*;

use crate::directive::{spec_parse_reply, ArgShape, ParsedReply, ReplySpec};
use crate::directive::parse_reply;
use crate::history::{ChatMessage, Role};
use crate::prompt::{compose_system_prompt, spec_system_prompt};
use crate::window::{select_context_messages, spec_select_window};

verus! {

/// The fixed cap on rounds per run.
pub const MAX_ITERATIONS: u32 = 20;

/// The window, in turns, applied to the transcript before each completion
/// call.
pub const CONTEXT_WINDOW_SIZE: usize = 40;

/// One tool a backend offers for this run. `tool_name` is expected to be
/// unique across the set handed to one run; when it is not, the first
/// descriptor in order wins.
#[derive(Clone, Debug)]
pub struct Tool {
    pub server_name: String,
    pub tool_name: String,
    pub description: String,
}

/// A status notification, emitted once per round before the completion
/// call, and once more when a tool is selected. Best-effort; delivery does
/// not affect the loop.
#[derive(Clone, Debug)]
pub enum AgentStatus {
    Thinking,
    UsingTool { tool_name: String },
}

/// The envelope in which a status notification travels.
#[derive(Clone, Debug)]
pub struct AgentEvent {
    pub status: AgentStatus,
}

/// Why a run ended without a final answer. Only tool execution failure is
/// absorbed into the conversation; every kind here aborts the run.
#[derive(Clone, Debug)]
pub enum AgentError {
    /// No credential for the completion endpoint; the run never starts.
    Configuration,
    /// The model asked for a tool that no descriptor offers.
    ToolNotFound { tool_name: String },
    /// The tool's backend is not among the connected clients.
    BackendUnavailable { server_name: String },
    /// The round cap was reached without a final answer.
    IterationsExhausted,
    /// The completion endpoint or a backend failed in transport; the
    /// detail is passed through verbatim.
    Transport { detail: String },
}

/// The text in which an error is surfaced to the caller.
pub open spec fn spec_render_error(e: AgentError) -> Seq<char> {
    match e {
        AgentError::Configuration => "OpenAI API key is not set in the configuration file."@,
        AgentError::ToolNotFound { tool_name } => "Tool '"@ + tool_name@ + "' not found."@,
        AgentError::BackendUnavailable { server_name } => "MCP client for server '"@
            + server_name@ + "' not found or not running."@,
        AgentError::IterationsExhausted => "Agent exceeded maximum iterations."@,
        AgentError::Transport { detail } => detail@,
    }
}

impl AgentError {
    /// The error as the caller-facing text.
    pub fn render(&self) -> (r: String)
        ensures
            r@ == spec_render_error(*self),
    {
        match self {
            AgentError::Configuration => String::from_str(
                "OpenAI API key is not set in the configuration file.",
            ),
            AgentError::ToolNotFound { tool_name } => String::from_str("Tool '").concat(
                tool_name.as_str(),
            ).concat("' not found."),
            AgentError::BackendUnavailable { server_name } => String::from_str(
                "MCP client for server '",
            ).concat(server_name.as_str()).concat("' not found or not running."),
            AgentError::IterationsExhausted => String::from_str(
                "Agent exceeded maximum iterations.",
            ),
            AgentError::Transport { detail } => detail.clone(),
        }
    }
}

/// The turns of `msgs` that are not system turns, in order.
pub open spec fn non_system_turns(msgs: Seq<ChatMessage>) -> Seq<ChatMessage>
    decreases msgs.len(),
{
    if msgs.len() == 0 {
        Seq::empty()
    } else if msgs.last().role == Role::System {
        non_system_turns(msgs.drop_last())
    } else {
        non_system_turns(msgs.drop_last()).push(msgs.last())
    }
}

/// The first descriptor whose tool name matches, in descriptor order.
pub open spec fn spec_find_tool(ts: Seq<Tool>, name: Seq<char>) -> Option<Tool>
    decreases ts.len(),
{
    if ts.len() == 0 {
        None
    } else if ts[0].tool_name@ == name {
        Some(ts[0])
    } else {
        spec_find_tool(ts.subrange(1, ts.len() as int), name)
    }
}

/// Whether a connected backend carries this name.
pub open spec fn spec_has_backend(bs: Seq<String>, name: Seq<char>) -> bool {
    exists|k: int| 0 <= k < bs.len() && bs[k]@ == name
}

proof fn lemma_find_tool_skip(ts: Seq<Tool>, name: Seq<char>, i: int)
    requires
        0 <= i <= ts.len(),
        forall|k: int| 0 <= k < i ==> ts[k].tool_name@ != name,
    ensures
        i < ts.len() && ts[i].tool_name@ == name ==> spec_find_tool(ts, name) == Some(ts[i]),
        i == ts.len() ==> spec_find_tool(ts, name) is None,
    decreases i,
{
    if i > 0 {
        let t = ts.subrange(1, ts.len() as int);
        assert(forall|k: int| 0 <= k < i - 1 ==> t[k] == ts[k + 1]);
        lemma_find_tool_skip(t, name, i - 1);
        if i < ts.len() {
            assert(t[i - 1] == ts[i]);
        }
    }
}

/// Index of the first descriptor whose tool name matches.
fn find_tool_index(tools: &Vec<Tool>, name: &String) -> (r: Option<usize>)
    ensures
        match r {
            Some(i) => i < tools@.len() && spec_find_tool(tools@, name@) == Some(
                tools@[i as int],
            ),
            None => spec_find_tool(tools@, name@) is None,
        },
{
    let n = tools.len();
    let mut i: usize = 0;
    while i < n && !(tools[i].tool_name == *name)
        invariant
            0 <= i <= n,
            n == tools@.len(),
            forall|k: int| 0 <= k < i ==> tools@[k].tool_name@ != name@,
        decreases n - i,
    {
        i = i + 1;
    }
    proof {
        lemma_find_tool_skip(tools@, name@, i as int);
    }
    if i < n {
        Some(i)
    } else {
        None
    }
}

/// Whether the connected backends include this name.
fn has_backend(backends: &Vec<String>, name: &String) -> (r: bool)
    ensures
        r == spec_has_backend(backends@, name@),
{
    let n = backends.len();
    let mut i: usize = 0;
    while i < n
        invariant
            0 <= i <= n,
            n == backends@.len(),
            forall|k: int| 0 <= k < i ==> backends@[k]@ != name@,
        decreases n - i,
    {
        if backends[i] == *name {
            return true;
        }
        i = i + 1;
    }
    false
}

/// The synthetic turn content that carries a tool's outcome back into the
/// conversation, with attribution.
pub open spec fn spec_tool_result_content(tool_name: Seq<char>, result: Seq<char>) -> Seq<char> {
    "Tool result for '"@ + tool_name + "':\n"@ + result
}

/// A directive the machine is waiting on: the raw reply that carried it,
/// to be appended once the tool's outcome is in, and the tool's name for
/// the attribution text.
pub struct PendingTool {
    pub raw_reply: String,
    pub tool_name: String,
}

/// What the caller must do with one absorbed reply.
#[derive(Debug)]
pub enum ReplyDisposition {
    /// The reply is the final answer, verbatim; the run is over.
    Finished { answer: String },
    /// The run ends in error; no tool call is to be made.
    Failed { error: AgentError },
    /// Invoke `tool_name` on the backend `server_name`; the decoded JSON
    /// block carries the arguments. Emit the event, perform the call, and
    /// feed the outcome to [`AgentRun::absorb_tool_result`].
    /// `via_heuristic` reports a format-compliance violation: the directive
    /// was recovered by the fallback tier, not the instructed grammar.
    RunTool {
        event: AgentEvent,
        server_name: String,
        tool_name: String,
        args: ArgShape,
        block: String,
        via_heuristic: bool,
    },
}

/// Whether the run may enter another round.
#[derive(Clone, Copy, Debug, PartialEq, Eq, Structural)]
pub enum RoundEnd {
    Continue,
    Exhausted,
}

/// The agent facade; one run is driven through an [`AgentRun`].
pub struct Agent {}

impl Agent {
    pub fn new() -> (a: Agent) {
        Agent {  }
    }
}

/// One run of the loop: the growing transcript, the tool catalog and
/// backend registry snapshot taken at the start, and the round budget.
pub struct AgentRun {
    pub transcript: Vec<ChatMessage>,
    pub tools: Vec<Tool>,
    pub backends: Vec<String>,
    pub rounds_completed: u32,
    pub max_rounds: u32,
    pub window: usize,
    pub pending: Option<PendingTool>,
}

impl AgentRun {
    /// The machine's bookkeeping invariant: completed rounds never exceed
    /// the budget, and a pending tool call only exists mid-round.
    pub open spec fn wf(&self) -> bool {
        &&& self.rounds_completed <= self.max_rounds
        &&& (self.pending is Some ==> self.rounds_completed < self.max_rounds)
    }

    /// Start a run: fail fast when no credential is configured; otherwise
    /// seed the transcript with the synthesized system turn followed by
    /// the caller's history, its own system turns left out.
    pub fn start(
        history: &[ChatMessage],
        tools: Vec<Tool>,
        backends: Vec<String>,
        api_key: &str,
        now: u64,
    ) -> (r: Result<AgentRun, AgentError>)
        ensures
            r is Err <==> api_key@.len() == 0,
            r matches Err(e) ==> e is Configuration,
            r matches Ok(run) ==> {
                &&& run.wf()
                &&& run.transcript@.len() == 1 + non_system_turns(history@).len()
                &&& run.transcript@[0].role == Role::System
                &&& run.transcript@[0].content@ == spec_system_prompt(run.tools@)
                &&& run.transcript@[0].timestamp == now
                &&& run.transcript@.subrange(1, run.transcript@.len() as int)
                    == non_system_turns(history@)
                &&& run.tools == tools
                &&& run.backends == backends
                &&& run.rounds_completed == 0
                &&& run.max_rounds == MAX_ITERATIONS
                &&& run.window == CONTEXT_WINDOW_SIZE
                &&& run.pending is None
            },
    {
        if api_key.is_empty() {
            return Err(AgentError::Configuration);
        }
        let prompt = compose_system_prompt(&tools);
        let mut transcript: Vec<ChatMessage> = Vec::new();
        transcript.push(ChatMessage { role: Role::System, content: prompt, timestamp: now });
        let n = history.len();
        let mut i: usize = 0;
        while i < n
            invariant
                0 <= i <= n,
                n == history@.len(),
                transcript@.len() >= 1,
                transcript@.subrange(1, transcript@.len() as int) == non_system_turns(
                    history@.subrange(0, i as int),
                ),
                transcript@[0].role == Role::System,
                transcript@[0].content@ == spec_system_prompt(tools@),
                transcript@[0].timestamp == now,
            decreases n - i,
        {
            let m = &history[i];
            proof {
                let pre = history@.subrange(0, i as int);
                let cur = history@.subrange(0, i + 1);
                assert(cur.drop_last() =~= pre);
                assert(cur.last() == history@[i as int]);
            }
            if !(m.role == Role::System) {
                transcript.push(
                    ChatMessage { role: m.role, content: m.content.clone(), timestamp: m.timestamp },
                );
            }
            assert(transcript@.subrange(1, transcript@.len() as int) =~= non_system_turns(
                history@.subrange(0, i + 1),
            ));
            i = i + 1;
        }
        assert(history@.subrange(0, n as int) =~= history@);
        Ok(
            AgentRun {
                transcript,
                tools,
                backends,
                rounds_completed: 0,
                max_rounds: MAX_ITERATIONS,
                window: CONTEXT_WINDOW_SIZE,
                pending: None,
            },
        )
    }

    /// Open a round: the status to notify, and the bounded message list to
    /// submit to the completion endpoint.
    pub fn begin_round(&self) -> (r: (AgentEvent, Vec<ChatMessage>))
        requires
            self.wf(),
            self.pending is None,
            self.rounds_completed < self.max_rounds,
        ensures
            r.0.status is Thinking,
            r.1@ == spec_select_window(self.transcript@, self.window as int),
    {
        (
            AgentEvent { status: AgentStatus::Thinking },
            select_context_messages(self.transcript.as_slice(), Some(self.window)),
        )
    }

    /// Absorb the completion endpoint's reply for the open round and
    /// decide what happens next.
    ///
    /// A reply that is not a directive is the final answer, returned to
    /// the caller verbatim, the transcript untouched. A directive is
    /// routed: an unknown tool name or a missing backend ends the run in
    /// error before any backend is contacted; otherwise the caller is told
    /// to perform exactly that one tool call, and the machine holds the
    /// raw reply to append alongside the outcome.
    pub fn absorb_reply(&mut self, reply: &str) -> (d: ReplyDisposition)
        requires
            old(self).wf(),
            old(self).pending is None,
            old(self).rounds_completed < old(self).max_rounds,
        ensures
            final(self).wf(),
            final(self).transcript == old(self).transcript,
            final(self).tools == old(self).tools,
            final(self).backends == old(self).backends,
            final(self).rounds_completed == old(self).rounds_completed,
            final(self).max_rounds == old(self).max_rounds,
            final(self).window == old(self).window,
            (spec_parse_reply(reply@) matches ReplySpec::FinalAnswer(t) ==> {
                &&& d matches ReplyDisposition::Finished { answer } && answer@ == reply@
                &&& final(self).pending is None
            }),
            (spec_parse_reply(reply@) matches ReplySpec::Directive {
                tool_name,
                args,
                via_heuristic,
                block,
            } ==> match spec_find_tool(old(self).tools@, tool_name) {
                None => {
                    &&& d matches ReplyDisposition::Failed { error }
                        && (error matches AgentError::ToolNotFound { tool_name: n } && n@
                        == tool_name)
                    &&& final(self).pending is None
                },
                Some(t) => if !spec_has_backend(old(self).backends@, t.server_name@) {
                    &&& d matches ReplyDisposition::Failed { error }
                        && (error matches AgentError::BackendUnavailable { server_name: sn }
                        && sn@ == t.server_name@)
                    &&& final(self).pending is None
                } else {
                    &&& d matches ReplyDisposition::RunTool {
                        event,
                        server_name,
                        tool_name: tn,
                        args: a,
                        block: b,
                        via_heuristic: h,
                    } && {
                        &&& (event.status matches AgentStatus::UsingTool { tool_name: etn }
                            && etn@ == tool_name)
                        &&& server_name@ == t.server_name@
                        &&& tn@ == tool_name
                        &&& a == args
                        &&& b@ == block
                        &&& h == via_heuristic
                    }
                    &&& (final(self).pending matches Some(p) && p.raw_reply@ == reply@
                        && p.tool_name@ == tool_name)
                },
            }),
    {
        let parsed = parse_reply(reply);
        match parsed {
            ParsedReply::FinalAnswer(answer) => ReplyDisposition::Finished { answer },
            ParsedReply::Directive { tool_name, args, via_heuristic, block } => {
                match find_tool_index(&self.tools, &tool_name) {
                    None => ReplyDisposition::Failed {
                        error: AgentError::ToolNotFound { tool_name },
                    },
                    Some(i) => {
                        let server_name = self.tools[i].server_name.clone();
                        if !has_backend(&self.backends, &server_name) {
                            ReplyDisposition::Failed {
                                error: AgentError::BackendUnavailable { server_name },
                            }
                        } else {
                            self.pending = Some(
                                PendingTool {
                                    raw_reply: String::from_str(reply),
                                    tool_name: tool_name.clone(),
                                },
                            );
                            ReplyDisposition::RunTool {
                                event: AgentEvent {
                                    status: AgentStatus::UsingTool {
                                        tool_name: tool_name.clone(),
                                    },
                                },
                                server_name,
                                tool_name,
                                args,
                                block,
                                via_heuristic,
                            }
                        }
                    },
                }
            },
        }
    }

    /// Absorb the outcome of the tool call the open round asked for: the
    /// raw directive reply and the attributed outcome text join the
    /// transcript as one assistant turn and one synthetic user turn, the
    /// round is complete, and the run either continues or has exhausted
    /// its budget. Backend-reported failure is data: the caller renders it
    /// into `result_text` and the model reacts to it next round.
    pub fn absorb_tool_result(&mut self, result_text: &str, now: u64) -> (r: RoundEnd)
        requires
            old(self).wf(),
            old(self).pending is Some,
        ensures
            final(self).wf(),
            final(self).pending is None,
            final(self).tools == old(self).tools,
            final(self).backends == old(self).backends,
            final(self).max_rounds == old(self).max_rounds,
            final(self).window == old(self).window,
            final(self).rounds_completed == old(self).rounds_completed + 1,
            final(self).transcript@.len() == old(self).transcript@.len() + 2,
            final(self).transcript@.subrange(0, old(self).transcript@.len() as int) == old(
                self,
            ).transcript@,
            final(self).transcript@[old(self).transcript@.len() as int].role == Role::Assistant,
            final(self).transcript@[old(self).transcript@.len() as int].content@ == old(
                self,
            ).pending.unwrap().raw_reply@,
            final(self).transcript@[old(self).transcript@.len() as int].timestamp == now,
            final(self).transcript@.last().role == Role::User,
            final(self).transcript@.last().content@ == spec_tool_result_content(
                old(self).pending.unwrap().tool_name@,
                result_text@,
            ),
            final(self).transcript@.last().timestamp == now,
            r is Exhausted <==> old(self).rounds_completed + 1 == old(self).max_rounds,
    {
        let p = self.pending.take().unwrap();
        let mut content = String::from_str("Tool result for '");
        content.append(p.tool_name.as_str());
        content.append("':\n");
        content.append(result_text);
        self.transcript.push(
            ChatMessage { role: Role::Assistant, content: p.raw_reply, timestamp: now },
        );
        self.transcript.push(ChatMessage { role: Role::User, content, timestamp: now });
        assert(self.transcript@.subrange(0, old(self).transcript@.len() as int) =~= old(
            self,
        ).transcript@);
        self.rounds_completed = self.rounds_completed + 1;
        if self.rounds_completed == self.max_rounds {
            RoundEnd::Exhausted
        } else {
            RoundEnd::Continue
        }
    }
}

} // verus!
