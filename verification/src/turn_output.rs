//! Assistant text of one turn, collected from its event stream, and the
//! thread and turn ids of RPC results.
use vstd::prelude::*;
use crate::events::Envelope;
use crate::json::{
    get_opt, opt_as_str, opt_str_view, opt_string, spec_as_str, spec_get, spec_get_opt, str_views,
    JsonValue,
};
use crate::rpc_contract::{parse_result_thread_id, parse_result_turn_id, result_thread_id, result_turn_id};
use crate::profile::clone_names;
use crate::text::{has_prefix, has_suffix, owned, push_char, push_str, str_ends_with, str_eq, str_starts_with};

verus! {

/// The texts held by `v`, as a set.
pub open spec fn str_set(v: Seq<String>) -> Set<Seq<char>> {
    Set::new(|x: Seq<char>| str_views(v).contains(x))
}

/// True when some element of `v` is `s`.
pub fn contains_text(v: &Vec<String>, s: &str) -> (r: bool)
    ensures
        r == str_set(v@).contains(s@),
{
    let mut i: usize = 0;
    while i < v.len()
        invariant
            i <= v.len(),
            forall|j: int| 0 <= j < i ==> (#[trigger] str_views(v@)[j]) != s@,
        decreases v.len() - i,
    {
        if str_eq(v[i].as_str(), s) {
            assert(str_views(v@)[i as int] == s@);
            return true;
        }
        i += 1;
    }
    false
}

/// Adds `s` to the set held by `v`.
pub fn insert_text(v: &mut Vec<String>, s: &str)
    ensures
        str_set(final(v)@) == str_set(old(v)@).insert(s@),
{
    if !contains_text(v, s) {
        let ghost before = v@;
        v.push(owned(s));
        assert(str_views(v@) =~= str_views(before).push(s@));
        assert forall|x: Seq<char>| str_set(v@).contains(x) <==> str_set(before).insert(s@).contains(x) by {
            if str_views(before).contains(x) {
                let j = choose|j: int| 0 <= j < str_views(before).len() && str_views(before)[j] == x;
                assert(str_views(v@)[j] == x);
            }
            if x == s@ {
                assert(str_views(v@)[str_views(before).len() as int] == x);
            }
            if str_views(v@).contains(x) {
                let j = choose|j: int| 0 <= j < str_views(v@).len() && str_views(v@)[j] == x;
                if j < str_views(before).len() {
                    assert(str_views(before)[j] == x);
                }
            }
        }
        assert(str_set(v@) =~= str_set(before).insert(s@));
    } else {
        assert(str_set(v@) =~= str_set(v@).insert(s@));
    }
}

/// Thread id of a result: the object shapes of `result_thread_id`, then the
/// value itself when it is a string.
pub open spec fn spec_parse_thread_id(v: JsonValue) -> Option<Seq<char>> {
    if result_thread_id(v) is Some { result_thread_id(v) } else { spec_as_str(Some(v)) }
}

/// Turn id of a result: the object shapes of `result_turn_id`, then the
/// value itself when it is a string.
pub open spec fn spec_parse_turn_id(v: JsonValue) -> Option<Seq<char>> {
    if result_turn_id(v) is Some { result_turn_id(v) } else { spec_as_str(Some(v)) }
}

/// Thread id of a result (`/thread/id`, `threadId`, `id`, or a bare string).
pub fn parse_thread_id(value: &JsonValue) -> (r: Option<String>)
    ensures
        opt_str_view(r) == spec_parse_thread_id(*value),
{
    let found = parse_result_thread_id(value);
    if found.is_some() {
        return found;
    }
    opt_string(Some(value))
}

/// Turn id of a result (`/turn/id`, `turnId`, `id`, or a bare string).
pub fn parse_turn_id(value: &JsonValue) -> (r: Option<String>)
    ensures
        opt_str_view(r) == spec_parse_turn_id(*value),
{
    let found = parse_result_turn_id(value);
    if found.is_some() {
        return found;
    }
    opt_string(Some(value))
}

/// The joined `text` members of the parts of a content array.
pub open spec fn content_text(parts: Seq<JsonValue>) -> Seq<char>
    decreases parts.len(),
{
    if parts.len() == 0 {
        Seq::empty()
    } else {
        content_text(parts.drop_last()) + match spec_as_str(spec_get(parts.last(), "text"@)) {
            Some(t) => t,
            None => Seq::empty(),
        }
    }
}

/// Text of an event's params: `item.text`, `text`, `outputText`,
/// `output.text`, then the joined texts of `item.content` when not empty.
pub open spec fn spec_extract_text(p: JsonValue) -> Option<Seq<char>> {
    if spec_as_str(spec_get_opt(spec_get(p, "item"@), "text"@)) is Some {
        spec_as_str(spec_get_opt(spec_get(p, "item"@), "text"@))
    } else if spec_as_str(spec_get(p, "text"@)) is Some {
        spec_as_str(spec_get(p, "text"@))
    } else if spec_as_str(spec_get(p, "outputText"@)) is Some {
        spec_as_str(spec_get(p, "outputText"@))
    } else if spec_as_str(spec_get_opt(spec_get(p, "output"@), "text"@)) is Some {
        spec_as_str(spec_get_opt(spec_get(p, "output"@), "text"@))
    } else if spec_get_opt(spec_get(p, "item"@), "content"@) matches Some(JsonValue::Array(parts))
        && content_text(parts@).len() > 0 {
        Some(content_text(spec_get_opt(spec_get(p, "item"@), "content"@)->0->Array_0@))
    } else {
        None
    }
}

/// Joined `text` members of `parts`.
fn join_content_text(parts: &Vec<JsonValue>) -> (r: String)
    ensures
        r@ == content_text(parts@),
{
    let mut joined = String::new();
    let mut i: usize = 0;
    assert(parts@.take(0) =~= Seq::<JsonValue>::empty());
    while i < parts.len()
        invariant
            i <= parts.len(),
            joined@ == content_text(parts@.take(i as int)),
        decreases parts.len() - i,
    {
        assert(parts@.take(i + 1 as int).drop_last() =~= parts@.take(i as int));
        assert(parts@.take(i + 1 as int).last() == parts@[i as int]);
        match opt_as_str(parts[i].get("text")) {
            Some(t) => push_str(&mut joined, t),
            None => {
                assert(joined@ + Seq::<char>::empty() =~= joined@);
            },
        }
        i += 1;
    }
    assert(parts@.take(parts.len() as int) =~= parts@);
    joined
}

/// The text carried by an event's params (see `spec_extract_text`).
pub fn extract_text_from_params(params: &JsonValue) -> (r: Option<String>)
    ensures
        opt_str_view(r) == spec_extract_text(*params),
{
    let item = params.get("item");
    let t = opt_string(get_opt(item, "text"));
    if t.is_some() {
        return t;
    }
    let t = opt_string(params.get("text"));
    if t.is_some() {
        return t;
    }
    let t = opt_string(params.get("outputText"));
    if t.is_some() {
        return t;
    }
    let t = opt_string(get_opt(params.get("output"), "text"));
    if t.is_some() {
        return t;
    }
    match get_opt(item, "content") {
        Some(c) => match c {
            JsonValue::Array(parts) => {
                let joined = join_content_text(parts);
                if joined.as_str().is_empty() {
                    None
                } else {
                    Some(joined)
                }
            },
            _ => None,
        },
        None => None,
    }
}

/// `out` after taking in the text of `turn/completed`: a prefix collected
/// from deltas is replaced by the full text, text already at the end is not
/// repeated, other text is appended on a new line.
pub open spec fn spec_merge_turn_text(out: Seq<char>, text: Seq<char>) -> Seq<char> {
    if text.len() == 0 {
        out
    } else if out.len() == 0 {
        text
    } else if out == text {
        out
    } else if has_prefix(text, out) {
        text
    } else if has_suffix(out, text) {
        out
    } else {
        out.push('\n') + text
    }
}

/// Merges the text of `turn/completed` into `out` (see `spec_merge_turn_text`).
pub fn merge_turn_completed_text(out: &mut String, text: &str)
    ensures
        final(out)@ == spec_merge_turn_text(old(out)@, text@),
{
    if text.is_empty() {
        return;
    }
    if out.as_str().is_empty() {
        push_str(out, text);
        assert(out@ =~= text@);
        return;
    }
    if str_eq(out.as_str(), text) {
        return;
    }
    if str_starts_with(text, out.as_str()) {
        *out = owned(text);
        return;
    }
    if str_ends_with(out.as_str(), text) {
        return;
    }
    push_char(out, '\n');
    push_str(out, text);
}

/// Item kinds that carry assistant text.
pub open spec fn is_agent_message_type(t: Seq<char>) -> bool {
    t == "agentMessage"@ || t == "agent_message"@
}

/// The params of an event.
pub open spec fn env_params(e: Envelope) -> Option<JsonValue> {
    spec_get(e.json, "params"@)
}

/// The method of an event.
pub open spec fn env_method(e: Envelope) -> Option<Seq<char>> {
    opt_str_view(e.method)
}

/// The item id of an event.
pub open spec fn env_item(e: Envelope) -> Option<Seq<char>> {
    opt_str_view(e.item_id)
}

/// Assistant item ids after `e`: an `item/started` of an agent message
/// adds its item id.
pub open spec fn track_step(ids: Set<Seq<char>>, e: Envelope) -> Set<Seq<char>> {
    let item_type = match spec_as_str(spec_get_opt(env_params(e), "itemType"@)) {
        Some(t) => t,
        None => Seq::empty(),
    };
    if env_method(e) == Some("item/started"@) && is_agent_message_type(item_type) && env_item(e) is Some {
        ids.insert(env_item(e)->0)
    } else {
        ids
    }
}

/// The item of `e` is an assistant message: by its id or by its type.
pub open spec fn is_assistant_completion(ids: Set<Seq<char>>, e: Envelope) -> bool {
    ||| (env_item(e) is Some && ids.contains(env_item(e)->0))
    ||| (spec_as_str(spec_get_opt(spec_get_opt(env_params(e), "item"@), "type"@)) matches Some(t)
        && is_agent_message_type(t))
}

/// Text of the params of `e`, when there are params and they carry text.
pub open spec fn env_text(e: Envelope) -> Option<Seq<char>> {
    match env_params(e) {
        Some(p) => spec_extract_text(p),
        None => None,
    }
}

/// Collected text and ids of items that streamed deltas, after `e`:
/// deltas are appended; a completed assistant item that streamed no delta
/// adds its text on a new line; `turn/completed` text is merged.
pub open spec fn append_step(text: Seq<char>, ids: Set<Seq<char>>, deltas: Set<Seq<char>>, e: Envelope)
    -> (Seq<char>, Set<Seq<char>>)
{
    if env_method(e) == Some("item/agentMessage/delta"@) {
        match spec_as_str(spec_get_opt(env_params(e), "delta"@)) {
            Some(d) => (text + d, if env_item(e) is Some { deltas.insert(env_item(e)->0) } else { deltas }),
            None => (text, deltas),
        }
    } else if env_method(e) == Some("item/completed"@) {
        if !is_assistant_completion(ids, e) || (env_item(e) is Some && deltas.contains(env_item(e)->0)) {
            (text, deltas)
        } else {
            match env_text(e) {
                Some(t) => if t.len() == 0 {
                    (text, deltas)
                } else if text.len() == 0 {
                    (t, deltas)
                } else {
                    (text.push('\n') + t, deltas)
                },
                None => (text, deltas),
            }
        }
    } else if env_method(e) == Some("turn/completed"@) {
        match env_text(e) {
            Some(t) => (spec_merge_turn_text(text, t), deltas),
            None => (text, deltas),
        }
    } else {
        (text, deltas)
    }
}

/// Assistant text of one turn, gathered event by event so that text seen
/// both as deltas and in completion payloads is kept once.
#[derive(Debug)]
pub struct AssistantTextCollector {
    assistant_item_ids: Vec<String>,
    assistant_items_with_delta: Vec<String>,
    text: String,
}

impl View for AssistantTextCollector {
    /// Assistant item ids, ids of items that streamed deltas, and the text.
    type V = (Set<Seq<char>>, Set<Seq<char>>, Seq<char>);

    closed spec fn view(&self) -> Self::V {
        (str_set(self.assistant_item_ids@), str_set(self.assistant_items_with_delta@), self.text@)
    }
}

/// The collector after `e`.
pub open spec fn collector_step(c: (Set<Seq<char>>, Set<Seq<char>>, Seq<char>), e: Envelope)
    -> (Set<Seq<char>>, Set<Seq<char>>, Seq<char>)
{
    let ids = track_step(c.0, e);
    let (text, deltas) = append_step(c.2, ids, c.1, e);
    (ids, deltas, text)
}

impl Clone for AssistantTextCollector {
    /// A copy that has seen what this collector has seen: same item ids,
    /// same text.
    fn clone(&self) -> (r: Self)
        ensures
            r@ == self@,
    {
        AssistantTextCollector {
            assistant_item_ids: clone_names(&self.assistant_item_ids),
            assistant_items_with_delta: clone_names(&self.assistant_items_with_delta),
            text: owned(self.text.as_str()),
        }
    }
}

impl AssistantTextCollector {
    /// An empty collector.
    pub fn new() -> (c: Self)
        ensures
            c@ == (Set::<Seq<char>>::empty(), Set::<Seq<char>>::empty(), Seq::<char>::empty()),
    {
        let c = AssistantTextCollector {
            assistant_item_ids: Vec::new(),
            assistant_items_with_delta: Vec::new(),
            text: String::new(),
        };
        assert(str_set(c.assistant_item_ids@) =~= Set::<Seq<char>>::empty());
        assert(str_set(c.assistant_items_with_delta@) =~= Set::<Seq<char>>::empty());
        c
    }

    /// Takes in one event (see `collector_step`).
    pub fn push_envelope(&mut self, envelope: &Envelope)
        ensures
            final(self)@ == collector_step(old(self)@, *envelope),
    {
        track_assistant_item(&mut self.assistant_item_ids, envelope);
        append_text_from_envelope(&mut self.text, &self.assistant_item_ids, &mut self.assistant_items_with_delta, envelope);
    }

    /// The text collected so far.
    pub fn text(&self) -> (r: &str)
        ensures
            r@ == self@.2,
    {
        self.text.as_str()
    }

    /// The text collected, taking the collector.
    pub fn into_text(self) -> (r: String)
        ensures
            r@ == self@.2,
    {
        self.text
    }
}

/// Records the item id of an `item/started` agent message.
fn track_assistant_item(ids: &mut Vec<String>, envelope: &Envelope)
    ensures
        str_set(final(ids)@) == track_step(str_set(old(ids)@), *envelope),
{
    let is_started = match &envelope.method {
        Some(m) => str_eq(m.as_str(), "item/started"),
        None => false,
    };
    if !is_started {
        return;
    }
    proof {
        reveal_strlit("");
    }
    let item_type = match opt_as_str(get_opt(envelope.json.get("params"), "itemType")) {
        Some(t) => t,
        None => "",
    };
    let ghost spec_type = match spec_as_str(spec_get_opt(env_params(*envelope), "itemType"@)) {
        Some(t) => t,
        None => Seq::<char>::empty(),
    };
    assert(item_type@ == spec_type);
    if !str_eq(item_type, "agentMessage") && !str_eq(item_type, "agent_message") {
        assert(!is_agent_message_type(spec_type));
        return;
    }
    match &envelope.item_id {
        Some(id) => insert_text(ids, id.as_str()),
        None => {},
    }
}

/// Updates the text and the delta-item ids for one event (see `append_step`).
fn append_text_from_envelope(out: &mut String, ids: &Vec<String>, deltas: &mut Vec<String>, envelope: &Envelope)
    ensures
        (final(out)@, str_set(final(deltas)@)) == append_step(old(out)@, str_set(ids@), str_set(old(deltas)@), *envelope),
{
    let params = envelope.json.get("params");
    let method: &str = match &envelope.method {
        Some(m) => m.as_str(),
        None => "",
    };
    let has_method = envelope.method.is_some();
    if has_method && str_eq(method, "item/agentMessage/delta") {
        match opt_as_str(get_opt(params, "delta")) {
            Some(delta) => {
                match &envelope.item_id {
                    Some(id) => insert_text(deltas, id.as_str()),
                    None => {},
                }
                push_str(out, delta);
            },
            None => {},
        }
    } else if has_method && str_eq(method, "item/completed") {
        let by_id = match &envelope.item_id {
            Some(id) => contains_text(ids, id.as_str()),
            None => false,
        };
        let by_type = match opt_as_str(get_opt(get_opt(params, "item"), "type")) {
            Some(t) => str_eq(t, "agent_message") || str_eq(t, "agentMessage"),
            None => false,
        };
        if !(by_id || by_type) {
            return;
        }
        let streamed = match &envelope.item_id {
            Some(id) => contains_text(deltas, id.as_str()),
            None => false,
        };
        if streamed {
            return;
        }
        let text = match params {
            Some(p) => extract_text_from_params(p),
            None => None,
        };
        match text {
            Some(t) => {
                if !t.as_str().is_empty() {
                    if !out.as_str().is_empty() {
                        push_char(out, '\n');
                    }
                    push_str(out, t.as_str());
                }
            },
            None => {},
        }
    } else if has_method && str_eq(method, "turn/completed") {
        let text = match params {
            Some(p) => extract_text_from_params(p),
            None => None,
        };
        match text {
            Some(t) => merge_turn_completed_text(out, t.as_str()),
            None => {},
        }
    }
}

/// After merging, the collected text ends with the merged text.
pub proof fn lemma_merge_ends_with_text(out: Seq<char>, text: Seq<char>)
    requires
        text.len() > 0,
    ensures
        has_suffix(spec_merge_turn_text(out, text), text),
{
    let r = spec_merge_turn_text(out, text);
    if out.len() == 0 || out == text || has_prefix(text, out) {
        assert(r == text);
        assert(r.subrange(0, r.len() as int) =~= r);
    } else if has_suffix(out, text) {
    } else {
        assert(r.subrange(r.len() - text.len(), r.len() as int) =~= text);
    }
}

/// Merging the same completed text twice changes nothing the second time.
pub proof fn lemma_merge_idempotent(out: Seq<char>, text: Seq<char>)
    ensures
        spec_merge_turn_text(spec_merge_turn_text(out, text), text) == spec_merge_turn_text(out, text),
{
    if text.len() > 0 {
        let r = spec_merge_turn_text(out, text);
        lemma_merge_ends_with_text(out, text);
        if r != text && has_prefix(text, r) {
            assert(r.len() <= text.len());
            assert(r.len() >= text.len());
            assert(r =~= text);
        }
    }
}

/// Text already collected is never lost: it stays a prefix of the text
/// after any further event.
pub proof fn lemma_collected_text_only_grows(c: (Set<Seq<char>>, Set<Seq<char>>, Seq<char>), e: Envelope)
    ensures
        has_prefix(collector_step(c, e).2, c.2),
{
    let t = c.2;
    let r = collector_step(c, e).2;
    assert(t.subrange(0, t.len() as int) =~= t);
    if r != t {
        if env_method(e) == Some("item/agentMessage/delta"@) {
            assert(r.subrange(0, t.len() as int) =~= t);
        } else if env_method(e) == Some("item/completed"@) {
            if t.len() == 0 {
                assert(r.subrange(0, 0) =~= t);
            } else {
                assert(r.subrange(0, t.len() as int) =~= t);
            }
        } else {
            let m = env_text(e)->0;
            if t.len() == 0 {
                assert(r.subrange(0, 0) =~= t);
            } else if has_prefix(m, t) && t != m {
            } else {
                assert(r.subrange(0, t.len() as int) =~= t);
            }
        }
    }
}

/// A completed item whose text already streamed as deltas adds nothing.
pub proof fn lemma_completed_after_delta_adds_nothing(c: (Set<Seq<char>>, Set<Seq<char>>, Seq<char>), e: Envelope)
    requires
        env_method(e) == Some("item/completed"@),
        env_item(e) is Some,
        c.1.contains(env_item(e)->0),
    ensures
        collector_step(c, e) == (c.0, c.1, c.2),
{
    reveal_strlit("item/completed");
    reveal_strlit("item/started");
    reveal_strlit("item/agentMessage/delta");
    assert("item/completed"@[5] != "item/started"@[5]);
    assert("item/completed"@.len() != "item/agentMessage/delta"@.len());
}

/// A completed assistant message (an `item/completed` whose item is of
/// type `agent_message` and carries non-empty `text`) that streamed no
/// delta is added after what was collected, on a new line: two completed
/// messages stay apart. Nothing else of the collector changes.
pub proof fn lemma_completed_message_starts_a_new_line(
    c: (Set<Seq<char>>, Set<Seq<char>>, Seq<char>),
    e: Envelope,
    t: Seq<char>,
)
    requires
        e.method matches Some(m) && m@ == "item/completed"@,
        e.item_id matches Some(id) ==> !c.1.contains(id@),
        spec_as_str(spec_get_opt(spec_get_opt(spec_get(e.json, "params"@), "item"@), "type"@)) == Some("agent_message"@),
        spec_as_str(spec_get_opt(spec_get_opt(spec_get(e.json, "params"@), "item"@), "text"@)) == Some(t),
        t.len() > 0,
        c.2.len() > 0,
    ensures
        collector_step(c, e).2 == c.2 + seq!['\n'] + t,
        collector_step(c, e).1 == c.1,
{
    reveal_strlit("item/completed");
    reveal_strlit("item/agentMessage/delta");
    assert("item/completed"@.len() != "item/agentMessage/delta"@.len());
    assert(env_method(e) == Some("item/completed"@));
    assert(is_assistant_completion(track_step(c.0, e), e));
    assert(!(env_item(e) is Some && c.1.contains(env_item(e)->0)));
    let p = spec_get(e.json, "params"@)->0;
    assert(spec_get(e.json, "params"@) is Some);
    assert(spec_get_opt(spec_get(p, "item"@), "text"@) == spec_get_opt(spec_get_opt(spec_get(e.json, "params"@), "item"@), "text"@));
    assert(env_text(e) == Some(t));
    assert(c.2.push('\n') + t =~= c.2 + seq!['\n'] + t);
}

/// The first completed assistant message of a turn, when nothing was
/// collected yet, is the collected text.
pub proof fn lemma_first_completed_message_is_the_text(
    c: (Set<Seq<char>>, Set<Seq<char>>, Seq<char>),
    e: Envelope,
    t: Seq<char>,
)
    requires
        e.method matches Some(m) && m@ == "item/completed"@,
        e.item_id matches Some(id) ==> !c.1.contains(id@),
        spec_as_str(spec_get_opt(spec_get_opt(spec_get(e.json, "params"@), "item"@), "type"@)) == Some("agent_message"@),
        spec_as_str(spec_get_opt(spec_get_opt(spec_get(e.json, "params"@), "item"@), "text"@)) == Some(t),
        c.2.len() == 0,
    ensures
        collector_step(c, e).2 == t,
{
    reveal_strlit("item/completed");
    reveal_strlit("item/agentMessage/delta");
    assert("item/completed"@.len() != "item/agentMessage/delta"@.len());
    assert(env_method(e) == Some("item/completed"@));
    assert(is_assistant_completion(track_step(c.0, e), e));
    assert(!(env_item(e) is Some && c.1.contains(env_item(e)->0)));
    assert(spec_get(e.json, "params"@) is Some);
    assert(env_text(e) == Some(t));
}

/// A delta of an assistant message is appended to the collected text as
/// it is.
pub proof fn lemma_delta_is_appended(c: (Set<Seq<char>>, Set<Seq<char>>, Seq<char>), e: Envelope, d: Seq<char>)
    requires
        e.method matches Some(m) && m@ == "item/agentMessage/delta"@,
        spec_as_str(spec_get_opt(spec_get(e.json, "params"@), "delta"@)) == Some(d),
    ensures
        collector_step(c, e).2 == c.2 + d,
{
}

} // verus!
