//! The prompt composer: the system instruction sent as the first turn,
//! embedding the tool catalog and the required tool-call output grammar.

use vstd::prelude::*;

use crate::agent::Tool;

verus! {

/// The output-format instruction appended after the tool catalog: the model
/// must answer with exactly one JSON directive object, or with plain text.
pub const TOOL_CALL_FORMAT_INSTRUCTION: &'static str = "To use a tool, you MUST respond with ONLY a single, valid JSON object containing two keys: 'tool_name' (string) and 'arguments' (object or null). Do not include any other text, markdown, or explanation, either before or after the JSON. Example: {\"tool_name\": \"read_file\", \"arguments\": {\"path\": \"/path/to/file.txt\"}}";

/// One catalog line for a tool.
pub open spec fn spec_tool_line(t: Tool) -> Seq<char> {
    "- "@ + t.tool_name@ + ": "@ + t.description@
}

/// The tool catalog: one line per tool, input order, joined by newlines.
pub open spec fn spec_tool_lines(ts: Seq<Tool>) -> Seq<char>
    decreases ts.len(),
{
    if ts.len() == 0 {
        Seq::empty()
    } else if ts.len() == 1 {
        spec_tool_line(ts[0])
    } else {
        spec_tool_lines(ts.drop_last()) + "\n"@ + spec_tool_line(ts.last())
    }
}

/// The system prompt for a run: a generic assistant instruction when no
/// tools are available, otherwise the tool catalog framed by the preamble
/// and the output-format instruction.
pub open spec fn spec_system_prompt(ts: Seq<Tool>) -> Seq<char> {
    if ts.len() == 0 {
        "You are a helpful AI assistant."@
    } else {
        "You are a powerful AI assistant capable of using tools to answer questions. You have access to the following tools:\n\n"@
            + spec_tool_lines(ts) + "\n\n"@ + TOOL_CALL_FORMAT_INSTRUCTION@
    }
}

/// Build the system prompt for the given tool catalog. A pure function of
/// the tool list.
pub fn compose_system_prompt(tools: &[Tool]) -> (r: String)
    ensures
        r@ == spec_system_prompt(tools@),
{
    let n = tools.len();
    if n == 0 {
        return String::from_str("You are a helpful AI assistant.");
    }
    let mut body = String::new();
    let mut i: usize = 0;
    while i < n
        invariant
            0 <= i <= n,
            n == tools@.len(),
            body@ == spec_tool_lines(tools@.subrange(0, i as int)),
        decreases n - i,
    {
        if i > 0 {
            body.append("\n");
        }
        body.append("- ");
        body.append(tools[i].tool_name.as_str());
        body.append(": ");
        body.append(tools[i].description.as_str());
        proof {
            let pre = tools@.subrange(0, i as int);
            let cur = tools@.subrange(0, i + 1);
            assert(cur.drop_last() =~= pre);
            assert(cur.last() == tools@[i as int]);
            if i == 0 {
                assert(body@ =~= spec_tool_line(tools@[0]));
                assert(spec_tool_lines(cur) == spec_tool_line(cur[0]));
            } else {
                assert(body@ =~= spec_tool_lines(pre) + "\n"@ + spec_tool_line(
                    tools@[i as int],
                ));
            }
        }
        i = i + 1;
    }
    assert(tools@.subrange(0, n as int) =~= tools@);
    let mut out = String::from_str(
        "You are a powerful AI assistant capable of using tools to answer questions. You have access to the following tools:\n\n",
    );
    out.append(body.as_str());
    out.append("\n\n");
    out.append(TOOL_CALL_FORMAT_INSTRUCTION);
    out
}

} // verus!
