//! Items of a thread as `thread/read` returns them: an id, a kind, and a
//! payload read by kind (agent messages and command executions have typed
//! fields, other kinds keep their members as they are).
use vstd::prelude::*;
use crate::api_types::{spec_item_type_wire, ThreadItemType};
use crate::json::{spec_as_i64, spec_field, JsonNumber, JsonValue};
use crate::text::owned;
use vstd::string::*;

verus! {

/// An agent message item: its text and any other members.
#[derive(Debug)]
pub struct ThreadAgentMessageItemView {
    pub text: String,
    pub extra: Vec<(String, JsonValue)>,
}

/// A command execution item: its command, actions, directory and status,
/// the optional output details, and any other members.
#[derive(Debug)]
pub struct ThreadCommandExecutionItemView {
    pub command: String,
    pub command_actions: Vec<JsonValue>,
    pub cwd: String,
    pub status: String,
    pub aggregated_output: Option<String>,
    pub duration_ms: Option<i64>,
    pub exit_code: Option<i32>,
    pub process_id: Option<String>,
    pub extra: Vec<(String, JsonValue)>,
}

/// The payload of an item, by kind.
#[derive(Debug)]
pub enum ThreadItemPayloadView {
    AgentMessage(ThreadAgentMessageItemView),
    CommandExecution(ThreadCommandExecutionItemView),
    Unknown(Vec<(String, JsonValue)>),
}

/// One item of a thread.
#[derive(Debug)]
pub struct ThreadItemView {
    pub id: String,
    pub item_type: ThreadItemType,
    pub payload: ThreadItemPayloadView,
}

/// `s` without the members whose key is `k`, in order.
pub open spec fn drop_key(s: Seq<(String, JsonValue)>, k: Seq<char>) -> Seq<(String, JsonValue)>
    decreases s.len(),
{
    if s.len() == 0 {
        s
    } else {
        let p = drop_key(s.drop_last(), k);
        if s.last().0@ == k { p } else { p.push(s.last()) }
    }
}

/// `s` without the members of the listed keys.
pub open spec fn drop_keys(s: Seq<(String, JsonValue)>, ks: Seq<Seq<char>>) -> Seq<(String, JsonValue)>
    decreases ks.len(),
{
    if ks.len() == 0 {
        s
    } else {
        drop_key(drop_keys(s, ks.drop_last()), ks.last())
    }
}

/// Takes the value of the first member `key` out of `fields`, removing
/// every member of that key.
pub fn take_member(fields: &mut Vec<(String, JsonValue)>, key: &str) -> (r: Option<JsonValue>)
    ensures
        r == spec_field(old(fields)@, key@),
        final(fields)@ == drop_key(old(fields)@, key@),
{
    let ghost all = fields@;
    let mut rest: Vec<(String, JsonValue)> = Vec::new();
    std::mem::swap(&mut rest, fields);
    let mut found: Option<JsonValue> = None;
    assert(all.skip(0) =~= all);
    assert(all.take(0) =~= Seq::<(String, JsonValue)>::empty());
    while rest.len() > 0
        invariant
            rest@.len() <= all.len(),
            rest@ == all.skip(all.len() - rest@.len()),
            fields@ == drop_key(all.take(all.len() - rest@.len()), key@),
            found is None ==> spec_field(all, key@) == spec_field(rest@, key@),
            found is Some ==> found == spec_field(all, key@),
        decreases rest@.len(),
    {
        let ghost done = all.len() - rest@.len();
        let ghost before = rest@;
        let member = rest.remove(0);
        proof {
            assert(member == all[done]);
            assert(rest@ =~= all.skip(done + 1));
            assert(before.drop_first() =~= rest@);
            assert(all.take(done + 1).drop_last() =~= all.take(done));
            assert(all.take(done + 1).last() == all[done]);
        }
        if crate::text::str_eq(member.0.as_str(), key) {
            if found.is_none() {
                found = Some(member.1);
            }
        } else {
            fields.push(member);
        }
    }
    assert(all.take(all.len() as int) =~= all);
    found
}

/// An optional text member: absent or null is none; text is itself;
/// anything else is refused (outer `None`).
pub open spec fn opt_text(v: Option<JsonValue>) -> Option<Option<Seq<char>>> {
    match v {
        None => Some(None),
        Some(JsonValue::Null) => Some(None),
        Some(JsonValue::String(s)) => Some(Some(s@)),
        _ => None,
    }
}

/// An optional 64-bit integer member (see `opt_text`).
pub open spec fn opt_i64(v: Option<JsonValue>) -> Option<Option<i64>> {
    match v {
        None => Some(None),
        Some(JsonValue::Null) => Some(None),
        _ => match spec_as_i64(v) {
            Some(n) => Some(Some(n)),
            None => None,
        },
    }
}

/// An optional 32-bit integer member (see `opt_text`).
pub open spec fn opt_i32(v: Option<JsonValue>) -> Option<Option<i32>> {
    match opt_i64(v) {
        Some(Some(n)) => if i32::MIN <= n <= i32::MAX { Some(Some(n as i32)) } else { None },
        Some(None) => Some(None),
        None => None,
    }
}

/// Reads an optional text member.
fn read_opt_text(v: Option<JsonValue>) -> (r: Option<Option<String>>)
    ensures
        match opt_text(v) {
            Some(Some(s)) => r matches Some(Some(x)) && x@ == s,
            Some(None) => r == Some(None::<String>),
            None => r is None,
        },
{
    match v {
        None => Some(None),
        Some(JsonValue::Null) => Some(None),
        Some(JsonValue::String(s)) => Some(Some(s)),
        _ => None,
    }
}

/// Reads an optional 64-bit integer member.
fn read_opt_i64(v: Option<JsonValue>) -> (r: Option<Option<i64>>)
    ensures
        r == opt_i64(v),
{
    match v {
        None => Some(None),
        Some(JsonValue::Null) => Some(None),
        Some(x) => match x.as_i64() {
            Some(n) => Some(Some(n)),
            None => None,
        },
    }
}

/// Reads an optional 32-bit integer member.
fn read_opt_i32(v: Option<JsonValue>) -> (r: Option<Option<i32>>)
    ensures
        r == opt_i32(v),
{
    match read_opt_i64(v) {
        Some(Some(n)) => if -2147483648 <= n && n <= 2147483647 { Some(Some(n as i32)) } else { None },
        Some(None) => Some(None),
        None => None,
    }
}

/// Keys of the typed fields of a command execution item.
pub open spec fn command_keys() -> Seq<Seq<char>> {
    seq!["command"@, "commandActions"@, "cwd"@, "status"@, "aggregatedOutput"@, "durationMs"@, "exitCode"@, "processId"@]
}

/// Why the members `m` of a command execution item are refused, if they
/// are: the first typed field that is missing or of the wrong kind.
pub open spec fn command_error(m: Seq<(String, JsonValue)>) -> Option<Seq<char>> {
    if !(spec_field(m, "command"@) matches Some(JsonValue::String(_))) {
        Some("commandExecution item needs a string command"@)
    } else if !(spec_field(m, "commandActions"@) matches Some(JsonValue::Array(_))) {
        Some("commandExecution item needs an array commandActions"@)
    } else if !(spec_field(m, "cwd"@) matches Some(JsonValue::String(_))) {
        Some("commandExecution item needs a string cwd"@)
    } else if !(spec_field(m, "status"@) matches Some(JsonValue::String(_))) {
        Some("commandExecution item needs a string status"@)
    } else if opt_text(spec_field(m, "aggregatedOutput"@)) is None {
        Some("commandExecution item has a non-string aggregatedOutput"@)
    } else if opt_i64(spec_field(m, "durationMs"@)) is None {
        Some("commandExecution item has a non-integer durationMs"@)
    } else if opt_i32(spec_field(m, "exitCode"@)) is None {
        Some("commandExecution item has an exitCode that is not a 32-bit integer"@)
    } else if opt_text(spec_field(m, "processId"@)) is None {
        Some("commandExecution item has a non-string processId"@)
    } else {
        None
    }
}

/// `c` holds the typed fields of members `m` and the rest of them.
pub open spec fn command_view_of(m: Seq<(String, JsonValue)>, c: ThreadCommandExecutionItemView) -> bool {
    &&& spec_field(m, "command"@) matches Some(JsonValue::String(s)) && c.command@ == s@
    &&& spec_field(m, "commandActions"@) == Some(JsonValue::Array(c.command_actions))
    &&& spec_field(m, "cwd"@) matches Some(JsonValue::String(s)) && c.cwd@ == s@
    &&& spec_field(m, "status"@) matches Some(JsonValue::String(s)) && c.status@ == s@
    &&& opt_text(spec_field(m, "aggregatedOutput"@)) == Some(match c.aggregated_output { Some(s) => Some(s@), None => None })
    &&& opt_i64(spec_field(m, "durationMs"@)) == Some(c.duration_ms)
    &&& opt_i32(spec_field(m, "exitCode"@)) == Some(c.exit_code)
    &&& opt_text(spec_field(m, "processId"@)) == Some(match c.process_id { Some(s) => Some(s@), None => None })
    &&& c.extra@ == drop_keys(m, command_keys())
}

/// `r` is the item `value` describes, or why it is refused: it must be an
/// object with a string `id` and a string `type`; the other members are
/// the payload, read by kind (an agent message needs a string `text`, a
/// command execution its typed fields, see `command_error`).
pub open spec fn item_outcome(value: JsonValue, r: Result<ThreadItemView, String>) -> bool {
    match value {
        JsonValue::Object(fields) => {
            let f = fields@;
            let rest = drop_key(drop_key(f, "id"@), "type"@);
            if !(spec_field(f, "id"@) matches Some(JsonValue::String(_))) {
                r matches Err(m) && m@ == "thread item missing string id"@
            } else if !(spec_field(f, "type"@) matches Some(JsonValue::String(_))) {
                r matches Err(m) && m@ == "thread item missing string type"@
            } else {
                let id = spec_field(f, "id"@)->0->String_0@;
                let ty = spec_field(f, "type"@)->0->String_0@;
                if ty == "agentMessage"@ {
                    if spec_field(rest, "text"@) matches Some(JsonValue::String(_)) {
                        &&& r matches Ok(v)
                        &&& v.id@ == id
                        &&& v.item_type == ThreadItemType::AgentMessage
                        &&& v.payload matches ThreadItemPayloadView::AgentMessage(a)
                        &&& a.text@ == spec_field(rest, "text"@)->0->String_0@
                        &&& a.extra@ == drop_key(rest, "text"@)
                    } else {
                        r matches Err(m) && m@ == "agentMessage item needs a string text"@
                    }
                } else if ty == "commandExecution"@ {
                    match command_error(rest) {
                        Some(e) => r matches Err(m) && m@ == e,
                        None => {
                            &&& r matches Ok(v)
                            &&& v.id@ == id
                            &&& v.item_type == ThreadItemType::CommandExecution
                            &&& v.payload matches ThreadItemPayloadView::CommandExecution(c)
                            &&& command_view_of(rest, c)
                        },
                    }
                } else {
                    &&& r matches Ok(v)
                    &&& v.id@ == id
                    &&& spec_item_type_wire(v.item_type) == ty
                    &&& v.payload matches ThreadItemPayloadView::Unknown(u)
                    &&& u@ == rest
                }
            }
        },
        _ => r matches Err(m) && m@ == "thread item must be an object"@,
    }
}

/// Reads the members of a command execution item.
fn read_command(fields: Vec<(String, JsonValue)>) -> (r: Result<ThreadCommandExecutionItemView, String>)
    ensures
        match command_error(fields@) {
            Some(e) => r matches Err(m) && m@ == e,
            None => r matches Ok(c) && command_view_of(fields@, c),
        },
{
    let ghost m = fields@;
    let ghost ks = command_keys();
    proof {
        reveal_strlit("command");
        reveal_strlit("commandActions");
        reveal_strlit("cwd");
        reveal_strlit("status");
        reveal_strlit("aggregatedOutput");
        reveal_strlit("durationMs");
        reveal_strlit("exitCode");
        reveal_strlit("processId");
        lemma_command_keys_prefixes(m);
    }
    let mut fields = fields;
    assert(fields@ == drop_keys(m, ks.take(0)));
    let command = match take_member(&mut fields, "command") {
        Some(JsonValue::String(s)) => s,
        _ => return Err(owned("commandExecution item needs a string command")),
    };
    proof { lemma_take_step(m, ks, 0); }
    let command_actions = match take_member(&mut fields, "commandActions") {
        Some(JsonValue::Array(a)) => a,
        _ => return Err(owned("commandExecution item needs an array commandActions")),
    };
    proof { lemma_take_step(m, ks, 1); }
    let cwd = match take_member(&mut fields, "cwd") {
        Some(JsonValue::String(s)) => s,
        _ => return Err(owned("commandExecution item needs a string cwd")),
    };
    proof { lemma_take_step(m, ks, 2); }
    let status = match take_member(&mut fields, "status") {
        Some(JsonValue::String(s)) => s,
        _ => return Err(owned("commandExecution item needs a string status")),
    };
    proof { lemma_take_step(m, ks, 3); }
    let aggregated_output = match read_opt_text(take_member(&mut fields, "aggregatedOutput")) {
        Some(v) => v,
        None => return Err(owned("commandExecution item has a non-string aggregatedOutput")),
    };
    proof { lemma_take_step(m, ks, 4); }
    let duration_ms = match read_opt_i64(take_member(&mut fields, "durationMs")) {
        Some(v) => v,
        None => return Err(owned("commandExecution item has a non-integer durationMs")),
    };
    proof { lemma_take_step(m, ks, 5); }
    let exit_code = match read_opt_i32(take_member(&mut fields, "exitCode")) {
        Some(v) => v,
        None => return Err(owned("commandExecution item has an exitCode that is not a 32-bit integer")),
    };
    proof { lemma_take_step(m, ks, 6); }
    let process_id = match read_opt_text(take_member(&mut fields, "processId")) {
        Some(v) => v,
        None => return Err(owned("commandExecution item has a non-string processId")),
    };
    proof {
        lemma_take_step(m, ks, 7);
        assert(ks.take(8) =~= ks);
    }
    Ok(ThreadCommandExecutionItemView {
        command, command_actions, cwd, status, aggregated_output, duration_ms, exit_code, process_id, extra: fields,
    })
}

/// The keys of a command execution item are distinct, so each is found in
/// the members left after taking the keys before it.
proof fn lemma_command_keys_prefixes(m: Seq<(String, JsonValue)>)
    ensures
        forall|i: int| 0 <= i < 8 ==> #[trigger] spec_field(drop_keys(m, command_keys().take(i)), command_keys()[i])
            == spec_field(m, command_keys()[i]),
{
    reveal_strlit("command");
    reveal_strlit("commandActions");
    reveal_strlit("cwd");
    reveal_strlit("status");
    reveal_strlit("aggregatedOutput");
    reveal_strlit("durationMs");
    reveal_strlit("exitCode");
    reveal_strlit("processId");
    let ks = command_keys();
    assert forall|i: int| 0 <= i < 8 implies #[trigger] spec_field(drop_keys(m, ks.take(i)), ks[i]) == spec_field(m, ks[i]) by {
        assert(!ks.take(i).contains(ks[i])) by {
            if ks.take(i).contains(ks[i]) {
                let j = choose|j: int| 0 <= j < ks.take(i).len() && ks.take(i)[j] == ks[i];
                assert(ks[j] == ks[i]);
                assert(ks[j].len() != ks[i].len());
            }
        }
        lemma_field_after_drops(m, ks.take(i), ks[i]);
    }
}

/// Taking key `i` from the members left after the keys before it leaves
/// the members without the first `i + 1` keys.
proof fn lemma_take_step(m: Seq<(String, JsonValue)>, ks: Seq<Seq<char>>, i: int)
    requires
        0 <= i < ks.len(),
    ensures
        drop_key(drop_keys(m, ks.take(i)), ks[i]) == drop_keys(m, ks.take(i + 1)),
{
    assert(ks.take(i + 1).drop_last() =~= ks.take(i));
    assert(ks.take(i + 1).last() == ks[i]);
}

/// `drop_key` seen from the front of the sequence.
proof fn lemma_drop_key_first(s: Seq<(String, JsonValue)>, k: Seq<char>)
    requires
        s.len() > 0,
    ensures
        drop_key(s, k) == if s[0].0@ == k { drop_key(s.drop_first(), k) } else { seq![s[0]] + drop_key(s.drop_first(), k) },
    decreases s.len(),
{
    if s.len() == 1 {
        assert(s.drop_last() =~= Seq::<(String, JsonValue)>::empty());
        assert(s.drop_first() =~= Seq::<(String, JsonValue)>::empty());
        assert(seq![s[0]] + Seq::<(String, JsonValue)>::empty() =~= seq![s[0]]);
        assert(Seq::<(String, JsonValue)>::empty().push(s[0]) =~= seq![s[0]]);
    } else {
        lemma_drop_key_first(s.drop_last(), k);
        assert(s.drop_last().drop_first() =~= s.drop_first().drop_last());
        assert(s.drop_first().last() == s.last());
        assert(s.drop_last()[0] == s[0]);
        let t = drop_key(s.drop_first().drop_last(), k);
        if s[0].0@ != k {
            assert((seq![s[0]] + t).push(s.last()) =~= seq![s[0]] + t.push(s.last()));
        }
    }
}

/// Dropping another key keeps the first member of a key.
pub proof fn lemma_field_after_drop(s: Seq<(String, JsonValue)>, dropped: Seq<char>, k: Seq<char>)
    requires
        dropped != k,
    ensures
        spec_field(drop_key(s, dropped), k) == spec_field(s, k),
    decreases s.len(),
{
    if s.len() > 0 {
        lemma_drop_key_first(s, dropped);
        lemma_field_after_drop(s.drop_first(), dropped, k);
        if s[0].0@ != dropped {
            let t = drop_key(s.drop_first(), dropped);
            assert((seq![s[0]] + t)[0] == s[0]);
            assert((seq![s[0]] + t).drop_first() =~= t);
        }
    }
}

/// Dropping keys other than `k` keeps the first member of `k`.
pub proof fn lemma_field_after_drops(s: Seq<(String, JsonValue)>, ks: Seq<Seq<char>>, k: Seq<char>)
    requires
        !ks.contains(k),
    ensures
        spec_field(drop_keys(s, ks), k) == spec_field(s, k),
    decreases ks.len(),
{
    if ks.len() > 0 {
        assert(!ks.drop_last().contains(k)) by {
            if ks.drop_last().contains(k) {
                let i = choose|i: int| 0 <= i < ks.drop_last().len() && ks.drop_last()[i] == k;
                assert(ks[i] == k);
            }
        }
        assert(ks.last() != k) by {
            assert(ks[ks.len() - 1] == ks.last());
        }
        lemma_field_after_drops(s, ks.drop_last(), k);
        lemma_field_after_drop(drop_keys(s, ks.drop_last()), ks.last(), k);
    }
}

/// Dropping the `id` members keeps the first `type` member.
proof fn lemma_id_type_fields(f: Seq<(String, JsonValue)>)
    ensures
        spec_field(drop_key(f, "id"@), "type"@) == spec_field(f, "type"@),
{
    reveal_strlit("id");
    reveal_strlit("type");
    assert("id"@.len() == 2);
    assert("type"@.len() == 4);
    lemma_field_after_drop(f, "id"@, "type"@);
}

/// Reads one thread item (see `item_outcome`).
pub fn thread_item_from_json(value: JsonValue) -> (r: Result<ThreadItemView, String>)
    ensures
        item_outcome(value, r),
{
    let mut fields = match value {
        JsonValue::Object(f) => f,
        _ => return Err(owned("thread item must be an object")),
    };
    let ghost f = fields@;
    let id = match take_member(&mut fields, "id") {
        Some(JsonValue::String(s)) => s,
        _ => return Err(owned("thread item missing string id")),
    };
    let raw_type = match take_member(&mut fields, "type") {
        Some(JsonValue::String(s)) => s,
        _ => {
            proof { lemma_id_type_fields(f); }
            return Err(owned("thread item missing string type"));
        },
    };
    proof { lemma_id_type_fields(f); }
    if crate::text::str_eq(raw_type.as_str(), "agentMessage") {
        let text = match take_member(&mut fields, "text") {
            Some(JsonValue::String(t)) => t,
            _ => return Err(owned("agentMessage item needs a string text")),
        };
        Ok(ThreadItemView {
            id,
            item_type: ThreadItemType::AgentMessage,
            payload: ThreadItemPayloadView::AgentMessage(ThreadAgentMessageItemView { text, extra: fields }),
        })
    } else if crate::text::str_eq(raw_type.as_str(), "commandExecution") {
        match read_command(fields) {
            Ok(c) => Ok(ThreadItemView { id, item_type: ThreadItemType::CommandExecution, payload: ThreadItemPayloadView::CommandExecution(c) }),
            Err(e) => Err(e),
        }
    } else {
        let item_type = ThreadItemType::from_wire(raw_type.as_str());
        Ok(ThreadItemView { id, item_type, payload: ThreadItemPayloadView::Unknown(fields) })
    }
}

} // verus!
