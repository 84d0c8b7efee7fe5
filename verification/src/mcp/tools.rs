//! The tools and the resource that the MCP adapter offers.
use vstd::prelude::*;

use crate::text::str_eq;

verus! {

/// The URI of the session resource (the same payload as `gate_status`).
pub const SESSION_RESOURCE_URI: &'static str = "recallgate://session";

/// The tools an agent may call: it may freeze, add cards and read the phase, but never unlock,
/// answer or abort.
pub open spec fn tool_name_list() -> Seq<Seq<char>> {
    seq!["gate_lock"@, "gate_push_prompt"@, "gate_status"@, "gate_due"@]
}

/// The tool names, in the order listed.
pub fn tool_names() -> (r: Vec<&'static str>)
    ensures
        r@.len() == 4,
        forall|i: int| 0 <= i < 4 ==> (#[trigger] r@[i])@ == tool_name_list()[i],
{
    let mut v: Vec<&'static str> = Vec::new();
    v.push("gate_lock");
    v.push("gate_push_prompt");
    v.push("gate_status");
    v.push("gate_due");
    v
}

/// Whether a name is one of the offered tools.
pub fn is_tool_name(name: &str) -> (r: bool)
    ensures
        r == tool_name_list().contains(name@),
{
    let names = tool_names();
    let mut i: usize = 0;
    while i < names.len()
        invariant
            names@.len() == 4,
            forall|k: int| 0 <= k < 4 ==> (#[trigger] names@[k])@ == tool_name_list()[k],
            i <= 4,
            forall|k: int| 0 <= k < i ==> tool_name_list()[k] != name@,
        decreases 4 - i,
    {
        if str_eq(names[i], name) {
            assert(tool_name_list()[i as int] == name@);
            return true;
        }
        i = i + 1;
    }
    assert forall|k: int| 0 <= k < tool_name_list().len() implies tool_name_list()[k] != name@ by {}
    false
}

/// A tool as `tools/list` describes it: name, description, and the JSON schema of its arguments.
pub struct ToolSpec {
    pub name: &'static str,
    pub description: &'static str,
    pub input_schema: &'static str,
}

/// The description of each tool.
pub open spec fn tool_description(i: int) -> Seq<char> {
    if i == 0 {
        "Start a session freeze when cadence and lock backend allow."@
    } else if i == 1 {
        "Add a multiple-choice card to the deck without locking."@
    } else if i == 2 {
        "Read gate phase, capability, and cooldown."@
    } else {
        "List prompt ids that may appear on the lock surface."@
    }
}

/// The JSON schema of each tool's arguments (keys in serde_json's sorted order).
pub open spec fn tool_schema(i: int) -> Seq<char> {
    if i == 0 {
        "{\"additionalProperties\":false,\"properties\":{\"prompt_id\":{\"type\":\"string\"},\"reason\":{\"enum\":[\"idle\",\"manual\",\"rpc\"],\"type\":\"string\"}},\"type\":\"object\"}"@
    } else if i == 1 {
        "{\"additionalProperties\":false,\"properties\":{\"choices\":{\"items\":{\"type\":\"string\"},\"maxItems\":4,\"minItems\":4,\"type\":\"array\"},\"correct_index\":{\"maximum\":3,\"minimum\":0,\"type\":\"integer\"},\"external_ref\":{\"type\":\"string\"},\"stem\":{\"type\":\"string\"}},\"required\":[\"stem\",\"choices\",\"correct_index\"],\"type\":\"object\"}"@
    } else {
        "{\"additionalProperties\":false,\"properties\":{},\"type\":\"object\"}"@
    }
}

/// The four tools with their descriptions and argument schemas, in the order of `tool_names`.
pub fn tool_specs() -> (r: Vec<ToolSpec>)
    ensures
        r@.len() == 4,
        forall|i: int| 0 <= i < 4 ==> (#[trigger] r@[i]).name@ == tool_name_list()[i]
            && r@[i].description@ == tool_description(i) && r@[i].input_schema@ == tool_schema(i),
{
    let mut v: Vec<ToolSpec> = Vec::new();
    v.push(ToolSpec {
        name: "gate_lock",
        description: "Start a session freeze when cadence and lock backend allow.",
        input_schema: "{\"additionalProperties\":false,\"properties\":{\"prompt_id\":{\"type\":\"string\"},\"reason\":{\"enum\":[\"idle\",\"manual\",\"rpc\"],\"type\":\"string\"}},\"type\":\"object\"}",
    });
    v.push(ToolSpec {
        name: "gate_push_prompt",
        description: "Add a multiple-choice card to the deck without locking.",
        input_schema: "{\"additionalProperties\":false,\"properties\":{\"choices\":{\"items\":{\"type\":\"string\"},\"maxItems\":4,\"minItems\":4,\"type\":\"array\"},\"correct_index\":{\"maximum\":3,\"minimum\":0,\"type\":\"integer\"},\"external_ref\":{\"type\":\"string\"},\"stem\":{\"type\":\"string\"}},\"required\":[\"stem\",\"choices\",\"correct_index\"],\"type\":\"object\"}",
    });
    v.push(ToolSpec {
        name: "gate_status",
        description: "Read gate phase, capability, and cooldown.",
        input_schema: "{\"additionalProperties\":false,\"properties\":{},\"type\":\"object\"}",
    });
    v.push(ToolSpec {
        name: "gate_due",
        description: "List prompt ids that may appear on the lock surface.",
        input_schema: "{\"additionalProperties\":false,\"properties\":{},\"type\":\"object\"}",
    });
    v
}

/// No tool unlocks a freeze, answers a prompt or aborts a freeze.
pub proof fn law_tools_never_unlock()
    ensures
        !tool_name_list().contains("gate_unlock"@),
        !tool_name_list().contains("gate_submit_choice"@),
        !tool_name_list().contains("gate_abort"@),
{
    reveal_strlit("gate_lock");
    reveal_strlit("gate_push_prompt");
    reveal_strlit("gate_status");
    reveal_strlit("gate_due");
    reveal_strlit("gate_unlock");
    reveal_strlit("gate_submit_choice");
    reveal_strlit("gate_abort");
    assert(tool_name_list()[0][5] == 'l' && tool_name_list()[1][5] == 'p' && tool_name_list()[2][5] == 's'
        && tool_name_list()[3][5] == 'd');
    assert("gate_unlock"@[5] == 'u' && "gate_submit_choice"@[5] == 's' && "gate_abort"@[5] == 'a');
    assert("gate_submit_choice"@.len() != tool_name_list()[2].len());
}

} // verus!
