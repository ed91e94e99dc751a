//! Prompt inputs and their wire form: attachments become `@path` mentions
//! with byte ranges, and thread/turn parameters become JSON params.
use vstd::prelude::*;
use vstd::utf8::*;
use crate::api_types::{
    sandbox_wire_error, summarize_sandbox_policy_wire_value, clone_sandbox_policy, policy_same, spec_approval_wire, spec_effort_wire, spec_network_wire,
    spec_preset_type_wire, ApprovalPolicy, ExternalNetworkAccess, ReasoningEffort, SandboxPolicy,
    SandboxPreset,
};
use crate::errors::{is_invalid_request_with, PromptRunError, RpcError};
use crate::json::{clone_json, json_same, json_string, push_member, push_str_member, spec_as_str, spec_get, str_member, str_views, JsonNumber, JsonValue};
use crate::text::{
    chars_of, is_blank, last_char, lemma_encode_utf8_concat, lemma_utf8_len_ascii_char, lemma_utf8_len_concat, owned, push_char,
    push_str, str_byte_len, str_eq, str_is_blank, utf8_len,
};

verus! {

/// A byte range `[start, end)` of a prompt's UTF-8 text.
#[derive(Clone, Debug, PartialEq, Eq)]
pub struct ByteRange {
    pub start: u64,
    pub end: u64,
}

/// A marked span of the prompt text, such as an `@path` mention.
#[derive(Clone, Debug, PartialEq, Eq)]
pub struct TextElement {
    pub byte_range: ByteRange,
    pub placeholder: Option<String>,
}

/// One input item of a turn.
#[derive(Clone, Debug, PartialEq, Eq)]
pub enum InputItem {
    Text { text: String },
    TextWithElements { text: String, text_elements: Vec<TextElement> },
    ImageUrl { url: String },
    LocalImage { path: String },
    Skill { name: String, path: String },
}

/// Something attached to a prompt.
#[derive(Clone, Debug, PartialEq, Eq)]
pub enum PromptAttachment {
    AtPath { path: String, placeholder: Option<String> },
    ImageUrl { url: String },
    LocalImage { path: String },
    Skill { name: String, path: String },
}

/// A text element as plain values: start, end, placeholder.
pub open spec fn element_view(e: TextElement) -> (u64, u64, Option<Seq<char>>) {
    (e.byte_range.start, e.byte_range.end, match e.placeholder { Some(p) => Some(p@), None => None })
}

/// Text elements as plain values.
pub open spec fn elements_view(es: Seq<TextElement>) -> Seq<(u64, u64, Option<Seq<char>>)> {
    es.map_values(|e: TextElement| element_view(e))
}

/// An input item as plain values: kind tag and its strings.
pub open spec fn item_view(i: InputItem) -> (nat, Seq<Seq<char>>, Seq<(u64, u64, Option<Seq<char>>)>) {
    match i {
        InputItem::Text { text } => (0, seq![text@], Seq::empty()),
        InputItem::TextWithElements { text, text_elements } => (1, seq![text@], elements_view(text_elements@)),
        InputItem::ImageUrl { url } => (2, seq![url@], Seq::empty()),
        InputItem::LocalImage { path } => (3, seq![path@], Seq::empty()),
        InputItem::Skill { name, path } => (4, seq![name@, path@], Seq::empty()),
    }
}

/// Input items as plain values.
pub open spec fn items_view(items: Seq<InputItem>) -> Seq<(nat, Seq<Seq<char>>, Seq<(u64, u64, Option<Seq<char>>)>)> {
    items.map_values(|i: InputItem| item_view(i))
}

/// `text` with a line break added unless it is empty or already ends with one.
pub open spec fn mention_base(text: Seq<char>) -> Seq<char> {
    if text.len() > 0 && text.last() != '\n' { text.push('\n') } else { text }
}

/// `text` with the mention `@path` appended on its own line.
pub open spec fn append_mention(text: Seq<char>, path: Seq<char>) -> Seq<char> {
    mention_base(text).push('@') + path
}

/// The text and text elements after the `@path` attachments among `atts`,
/// and the other attachments as input items, in order.
pub open spec fn prompt_fold(prompt: Seq<char>, atts: Seq<PromptAttachment>)
    -> (Seq<char>, Seq<(int, int, Option<Seq<char>>)>, Seq<(nat, Seq<Seq<char>>, Seq<(u64, u64, Option<Seq<char>>)>)>)
    decreases atts.len(),
{
    if atts.len() == 0 {
        (prompt, Seq::empty(), Seq::empty())
    } else {
        let prev = prompt_fold(prompt, atts.drop_last());
        let (text, els, tail) = prev;
        match atts.last() {
            PromptAttachment::AtPath { path, placeholder } => {
                let base = mention_base(text);
                let next = append_mention(text, path@);
                (next, els.push((utf8_len(base) as int, utf8_len(next) as int,
                    match placeholder { Some(p) => Some(p@), None => None })), tail)
            },
            PromptAttachment::ImageUrl { url } => (text, els, tail.push((2, seq![url@], Seq::empty()))),
            PromptAttachment::LocalImage { path } => (text, els, tail.push((3, seq![path@], Seq::empty()))),
            PromptAttachment::Skill { name, path } => (text, els, tail.push((4, seq![name@, path@], Seq::empty()))),
        }
    }
}

/// The paths of the `@path` attachments among `atts`, in order.
pub open spec fn at_paths(atts: Seq<PromptAttachment>) -> Seq<Seq<char>>
    decreases atts.len(),
{
    if atts.len() == 0 {
        Seq::empty()
    } else {
        let prev = at_paths(atts.drop_last());
        match atts.last() {
            PromptAttachment::AtPath { path, .. } => prev.push(path@),
            _ => prev,
        }
    }
}

/// The mentions recorded for `atts` over the prompt text `text`: one per
/// `@path` attachment, in order, each a byte range of the UTF-8 text that
/// holds exactly `@` and the attachment's path.
pub open spec fn mentions_cover(text: Seq<char>, els: Seq<(int, int, Option<Seq<char>>)>, paths: Seq<Seq<char>>) -> bool {
    &&& els.len() == paths.len()
    &&& forall|k: int| 0 <= k < els.len() ==> {
        &&& 0 <= #[trigger] els[k].0 <= els[k].1 <= utf8_len(text)
        &&& encode_utf8(text).subrange(els[k].0, els[k].1) == encode_utf8(seq!['@'] + paths[k])
    }
}

/// Every mention that a prompt run's text records points, in the UTF-8
/// bytes of that text, at exactly `@` followed by the path of its `@path`
/// attachment; the mentions follow those attachments in order, and the
/// prompt itself is kept at the start of the text.
pub proof fn lemma_mentions_point_at_paths(prompt: Seq<char>, atts: Seq<PromptAttachment>)
    ensures
        mentions_cover(prompt_fold(prompt, atts).0, prompt_fold(prompt, atts).1, at_paths(atts)),
        prompt_fold(prompt, atts).0.take(prompt.len() as int) == prompt,
        prompt.len() <= prompt_fold(prompt, atts).0.len(),
    decreases atts.len(),
{
    if atts.len() == 0 {
        assert(prompt.take(prompt.len() as int) =~= prompt);
    } else {
        let prev_atts = atts.drop_last();
        lemma_mentions_point_at_paths(prompt, prev_atts);
        let (text, els, tail) = prompt_fold(prompt, prev_atts);
        let paths = at_paths(prev_atts);
        match atts.last() {
            PromptAttachment::AtPath { path, placeholder } => {
                let base = mention_base(text);
                let at = seq!['@'] + path@;
                let next = append_mention(text, path@);
                let suffix = next.subrange(text.len() as int, next.len() as int);
                assert(base.push('@') + path@ =~= base + at);
                assert(text + suffix =~= next);
                lemma_encode_utf8_concat(text, suffix);
                lemma_encode_utf8_concat(base, at);
                lemma_utf8_len_concat(text, suffix);
                lemma_utf8_len_concat(base, at);
                let new_els = els.push((utf8_len(base) as int, utf8_len(next) as int,
                    match placeholder { Some(p) => Some(p@), None => None }));
                assert(prompt_fold(prompt, atts).0 == next);
                assert(prompt_fold(prompt, atts).1 == new_els);
                assert(at_paths(atts) == paths.push(path@));
                if text.len() > 0 && text.last() != '\n' {
                    assert(base =~= text + seq!['\n']);
                    lemma_utf8_len_concat(text, seq!['\n']);
                } else {
                    assert(base == text);
                }
                assert forall|k: int| 0 <= k < new_els.len() implies {
                    &&& 0 <= #[trigger] new_els[k].0 <= new_els[k].1 <= utf8_len(next)
                    &&& encode_utf8(next).subrange(new_els[k].0, new_els[k].1) == encode_utf8(seq!['@'] + paths.push(path@)[k])
                } by {
                    if k < els.len() {
                        assert(new_els[k] == els[k]);
                        assert(encode_utf8(next).subrange(els[k].0, els[k].1)
                            =~= encode_utf8(text).subrange(els[k].0, els[k].1));
                    } else {
                        assert(encode_utf8(next).subrange(utf8_len(base) as int, utf8_len(next) as int) =~= encode_utf8(at));
                    }
                }
                assert(next.take(prompt.len() as int) =~= text.take(prompt.len() as int));
            },
            _ => {
                assert(prompt_fold(prompt, atts).0 == text);
                assert(prompt_fold(prompt, atts).1 == els);
                assert(at_paths(atts) == paths);
            },
        }
    }
}

/// Byte ranges as plain integers.
pub open spec fn ranges_int(es: Seq<(u64, u64, Option<Seq<char>>)>) -> Seq<(int, int, Option<Seq<char>>)> {
    es.map_values(|e: (u64, u64, Option<Seq<char>>)| (e.0 as int, e.1 as int, e.2))
}

/// The input items of a prompt run: the text (with its elements when there
/// are mentions) first, then the other attachments in order.
pub open spec fn spec_prompt_inputs(prompt: Seq<char>, atts: Seq<PromptAttachment>, items: Seq<InputItem>) -> bool {
    let (text, els, tail) = prompt_fold(prompt, atts);
    &&& items.len() == tail.len() + 1
    &&& if els.len() == 0 {
        item_view(items[0]) == (0nat, seq![text], Seq::<(u64, u64, Option<Seq<char>>)>::empty())
    } else {
        &&& item_view(items[0]).0 == 1
        &&& item_view(items[0]).1 == seq![text]
        &&& ranges_int(item_view(items[0]).2) == els
    }
    &&& items_view(items).skip(1) == tail
}

/// Appends the mention `@path` on its own line and records its byte range.
fn append_at_path_mention(text: &mut String, elements: &mut Vec<TextElement>, path: &str, placeholder: &Option<String>)
    ensures
        final(text)@ == append_mention(old(text)@, path@),
        ranges_int(elements_view(final(elements)@)) == ranges_int(elements_view(old(elements)@)).push((
            utf8_len(mention_base(old(text)@)) as int,
            utf8_len(append_mention(old(text)@, path@)) as int,
            match *placeholder { Some(p) => Some(p@), None => None },
        )),
{
    let ghost t0 = text@;
    match last_char(text.as_str()) {
        Some(c) => {
            if c != '\n' {
                push_char(text, '\n');
            }
        },
        None => {},
    }
    assert(text@ == mention_base(t0));
    proof {
        lemma_utf8_len_concat(t0, seq!['\n']);
        lemma_utf8_len_ascii_char('\n');
        lemma_utf8_len_ascii_char('@');
        lemma_utf8_len_concat(text@, seq!['@']);
        lemma_utf8_len_concat(text@.push('@'), path@);
        assert(t0.push('\n') =~= t0 + seq!['\n']);
        assert(text@.push('@') =~= text@ + seq!['@']);
    }
    let start = str_byte_len(text.as_str()) as u64;
    push_char(text, '@');
    push_str(text, path);
    let end = str_byte_len(text.as_str()) as u64;
    let ph = match placeholder {
        Some(p) => Some(p.clone()),
        None => None,
    };
    let ghost before = elements@;
    elements.push(TextElement { byte_range: ByteRange { start, end }, placeholder: ph });
    assert(ranges_int(elements_view(elements@)) =~= ranges_int(elements_view(before)).push((start as int, end as int,
        match *placeholder { Some(p) => Some(p@), None => None })));
}

/// The input items of one prompt run (see `spec_prompt_inputs`).
pub fn build_prompt_inputs(prompt: &str, attachments: &Vec<PromptAttachment>) -> (r: Vec<InputItem>)
    ensures
        spec_prompt_inputs(prompt@, attachments@, r@),
{
    let mut text = owned(prompt);
    let mut text_elements: Vec<TextElement> = Vec::new();
    let mut tail_items: Vec<InputItem> = Vec::new();
    let mut i: usize = 0;
    assert(attachments@.take(0) =~= Seq::<PromptAttachment>::empty());
    assert(ranges_int(elements_view(text_elements@)) =~= Seq::<(int, int, Option<Seq<char>>)>::empty());
    assert(items_view(tail_items@) =~= Seq::<(nat, Seq<Seq<char>>, Seq<(u64, u64, Option<Seq<char>>)>)>::empty());
    while i < attachments.len()
        invariant
            i <= attachments.len(),
            (text@, ranges_int(elements_view(text_elements@)), items_view(tail_items@))
                == prompt_fold(prompt@, attachments@.take(i as int)),
        decreases attachments.len() - i,
    {
        assert(attachments@.take(i + 1 as int).drop_last() =~= attachments@.take(i as int));
        assert(attachments@.take(i + 1 as int).last() == attachments@[i as int]);
        let ghost tail_before = tail_items@;
        match &attachments[i] {
            PromptAttachment::AtPath { path, placeholder } => {
                append_at_path_mention(&mut text, &mut text_elements, path.as_str(), placeholder);
            },
            PromptAttachment::ImageUrl { url } => {
                tail_items.push(InputItem::ImageUrl { url: url.clone() });
                assert(items_view(tail_items@) =~= items_view(tail_before).push((2, seq![url@], Seq::empty())));
            },
            PromptAttachment::LocalImage { path } => {
                tail_items.push(InputItem::LocalImage { path: path.clone() });
                assert(items_view(tail_items@) =~= items_view(tail_before).push((3, seq![path@], Seq::empty())));
            },
            PromptAttachment::Skill { name, path } => {
                tail_items.push(InputItem::Skill { name: name.clone(), path: path.clone() });
                assert(items_view(tail_items@) =~= items_view(tail_before).push((4, seq![name@, path@], Seq::empty())));
            },
        }
        i += 1;
    }
    assert(attachments@.take(attachments.len() as int) =~= attachments@);
    let ghost els = ranges_int(elements_view(text_elements@));
    let mut input: Vec<InputItem> = Vec::new();
    if text_elements.len() == 0 {
        assert(els.len() == 0);
        input.push(InputItem::Text { text });
    } else {
        input.push(InputItem::TextWithElements { text, text_elements });
    }
    let ghost first = input@;
    let ghost tail = tail_items@;
    input.append(&mut tail_items);
    assert(items_view(input@).skip(1) =~= items_view(tail));
    input
}

/// `v` is the wire form of the text element `e`: `byteRange` with `start`
/// and `end`, then `placeholder` when there is one.
pub open spec fn element_wire(e: TextElement, v: JsonValue) -> bool {
    &&& v matches JsonValue::Object(f)
    &&& f@.len() == (if e.placeholder is Some { 2int } else { 1int })
    &&& f@[0].0@ == "byteRange"@
    &&& f@[0].1 matches JsonValue::Object(br)
    &&& br@.len() == 2
    &&& br@[0].0@ == "start"@
    &&& br@[0].1 == JsonValue::Number(JsonNumber::PosInt(e.byte_range.start))
    &&& br@[1].0@ == "end"@
    &&& br@[1].1 == JsonValue::Number(JsonNumber::PosInt(e.byte_range.end))
    &&& e.placeholder matches Some(p) ==> str_member(f@, 1, "placeholder"@, p@)
}

/// `v` is the wire form of the input item `i`: a `type` tag and the item's
/// strings, with text elements for text that has them.
pub open spec fn item_wire(i: InputItem, v: JsonValue) -> bool {
    &&& v matches JsonValue::Object(f)
    &&& match i {
        InputItem::Text { text } => f@.len() == 2 && str_member(f@, 0, "type"@, "text"@) && str_member(f@, 1, "text"@, text@),
        InputItem::TextWithElements { text, text_elements } => {
            &&& f@.len() == 3
            &&& str_member(f@, 0, "type"@, "text"@)
            &&& str_member(f@, 1, "text"@, text@)
            &&& f@[2].0@ == "text_elements"@
            &&& f@[2].1 matches JsonValue::Array(a)
            &&& a@.len() == text_elements@.len()
            &&& forall|k: int| 0 <= k < a@.len() ==> #[trigger] element_wire(text_elements@[k], a@[k])
        },
        InputItem::ImageUrl { url } => f@.len() == 2 && str_member(f@, 0, "type"@, "image"@) && str_member(f@, 1, "url"@, url@),
        InputItem::LocalImage { path } => f@.len() == 2 && str_member(f@, 0, "type"@, "localImage"@) && str_member(f@, 1, "path"@, path@),
        InputItem::Skill { name, path } => f@.len() == 3 && str_member(f@, 0, "type"@, "skill"@)
            && str_member(f@, 1, "name"@, name@) && str_member(f@, 2, "path"@, path@),
    }
}

/// Wire form of a text element.
pub fn text_element_to_wire(element: &TextElement) -> (r: JsonValue)
    ensures
        element_wire(*element, r),
{
    let mut br: Vec<(String, JsonValue)> = Vec::new();
    push_member(&mut br, "start", JsonValue::Number(JsonNumber::PosInt(element.byte_range.start)));
    push_member(&mut br, "end", JsonValue::Number(JsonNumber::PosInt(element.byte_range.end)));
    let mut obj: Vec<(String, JsonValue)> = Vec::new();
    push_member(&mut obj, "byteRange", JsonValue::Object(br));
    match &element.placeholder {
        Some(p) => push_str_member(&mut obj, "placeholder", p.as_str()),
        None => {},
    }
    JsonValue::Object(obj)
}

/// Wire form of an input item.
pub fn input_item_to_wire(item: &InputItem) -> (r: JsonValue)
    ensures
        item_wire(*item, r),
{
    let mut value: Vec<(String, JsonValue)> = Vec::new();
    match item {
        InputItem::Text { text } => {
            push_str_member(&mut value, "type", "text");
            push_str_member(&mut value, "text", text.as_str());
        },
        InputItem::TextWithElements { text, text_elements } => {
            push_str_member(&mut value, "type", "text");
            push_str_member(&mut value, "text", text.as_str());
            let mut arr: Vec<JsonValue> = Vec::new();
            let mut k: usize = 0;
            while k < text_elements.len()
                invariant
                    k <= text_elements.len(),
                    arr@.len() == k,
                    forall|j: int| 0 <= j < k ==> #[trigger] element_wire(text_elements@[j], arr@[j]),
                decreases text_elements.len() - k,
            {
                arr.push(text_element_to_wire(&text_elements[k]));
                k += 1;
            }
            push_member(&mut value, "text_elements", JsonValue::Array(arr));
        },
        InputItem::ImageUrl { url } => {
            push_str_member(&mut value, "type", "image");
            push_str_member(&mut value, "url", url.as_str());
        },
        InputItem::LocalImage { path } => {
            push_str_member(&mut value, "type", "localImage");
            push_str_member(&mut value, "path", path.as_str());
        },
        InputItem::Skill { name, path } => {
            push_str_member(&mut value, "type", "skill");
            push_str_member(&mut value, "name", name.as_str());
            push_str_member(&mut value, "path", path.as_str());
        },
    }
    JsonValue::Object(value)
}

/// `v` is the wire form of the preset `p`: its `type` tag, then writable
/// roots and network access where the preset has them.
pub open spec fn preset_wire(p: SandboxPreset, v: JsonValue) -> bool {
    &&& v matches JsonValue::Object(f)
    &&& f@.len() >= 1
    &&& str_member(f@, 0, "type"@, spec_preset_type_wire(p))
    &&& match p {
        SandboxPreset::WorkspaceWrite { writable_roots, network_access } => {
            &&& f@.len() == 3
            &&& f@[1].0@ == "writableRoots"@
            &&& f@[1].1 matches JsonValue::Array(a)
            &&& a@.len() == writable_roots@.len()
            &&& forall|k: int| 0 <= k < a@.len() ==> spec_as_str(Some(#[trigger] a@[k])) == Some(writable_roots@[k]@)
            &&& f@[2].0@ == "networkAccess"@
            &&& f@[2].1 == JsonValue::Bool(network_access)
        },
        SandboxPreset::ExternalSandbox { network_access } => f@.len() == 2
            && str_member(f@, 1, "networkAccess"@, spec_network_wire(network_access)),
        _ => f@.len() == 1,
    }
}

/// `v` is the wire form of the policy `p`: a preset's object, or the raw
/// value itself.
pub open spec fn policy_wire(p: SandboxPolicy, v: JsonValue) -> bool {
    match p {
        SandboxPolicy::Preset(x) => preset_wire(x, v),
        SandboxPolicy::Raw(x) => json_same(v, x),
    }
}

/// Wire form of a sandbox preset.
pub fn sandbox_preset_to_wire(preset: &SandboxPreset) -> (r: JsonValue)
    ensures
        preset_wire(*preset, r),
{
    let mut value: Vec<(String, JsonValue)> = Vec::new();
    push_str_member(&mut value, "type", preset.as_type_wire());
    match preset {
        SandboxPreset::WorkspaceWrite { writable_roots, network_access } => {
            let mut roots: Vec<JsonValue> = Vec::new();
            let mut k: usize = 0;
            while k < writable_roots.len()
                invariant
                    k <= writable_roots.len(),
                    roots@.len() == k,
                    forall|j: int| 0 <= j < k ==> spec_as_str(Some(#[trigger] roots@[j])) == Some(writable_roots@[j]@),
                decreases writable_roots.len() - k,
            {
                roots.push(json_string(writable_roots[k].as_str()));
                k += 1;
            }
            push_member(&mut value, "writableRoots", JsonValue::Array(roots));
            push_member(&mut value, "networkAccess", JsonValue::Bool(*network_access));
        },
        SandboxPreset::ExternalSandbox { network_access } => {
            push_str_member(&mut value, "networkAccess", network_access.as_wire());
        },
        _ => {},
    }
    JsonValue::Object(value)
}

/// Wire form of a sandbox policy.
pub fn sandbox_policy_to_wire_value(policy: &SandboxPolicy) -> (r: JsonValue)
    ensures
        policy_wire(*policy, r),
{
    match policy {
        SandboxPolicy::Preset(preset) => sandbox_preset_to_wire(preset),
        SandboxPolicy::Raw(value) => clone_json(value),
    }
}

/// Thread-level overrides of `thread/start` and `thread/resume`.
#[derive(Debug, Default)]
pub struct ThreadStartParams {
    pub model: Option<String>,
    pub cwd: Option<String>,
    pub approval_policy: Option<ApprovalPolicy>,
    pub sandbox_policy: Option<SandboxPolicy>,
    /// Explicit opt-in to privileged sandbox use.
    pub privileged_escalation_approved: bool,
}

/// One when `b` holds.
pub open spec fn count(b: bool) -> int {
    if b { 1 } else { 0 }
}

/// `f` holds the members of the present overrides of `p`, in the order
/// model, cwd, approval policy, sandbox policy.
pub open spec fn overrides_wire(p: ThreadStartParams, f: Seq<(String, JsonValue)>) -> bool {
    let i_cwd = count(p.model is Some);
    let i_approval = i_cwd + count(p.cwd is Some);
    let i_sandbox = i_approval + count(p.approval_policy is Some);
    &&& f.len() == i_sandbox + count(p.sandbox_policy is Some)
    &&& p.model matches Some(m) ==> str_member(f, 0, "model"@, m@)
    &&& p.cwd matches Some(c) ==> str_member(f, i_cwd, "cwd"@, c@)
    &&& p.approval_policy matches Some(a) ==> str_member(f, i_approval, "approvalPolicy"@, spec_approval_wire(a))
    &&& p.sandbox_policy matches Some(sp) ==> f[i_sandbox].0@ == "sandboxPolicy"@ && policy_wire(sp, f[i_sandbox].1)
}

/// Members of the thread-level overrides (see `overrides_wire`).
pub fn thread_overrides_to_wire(p: &ThreadStartParams) -> (r: Vec<(String, JsonValue)>)
    ensures
        overrides_wire(*p, r@),
{
    let mut params: Vec<(String, JsonValue)> = Vec::new();
    match &p.model {
        Some(model) => push_str_member(&mut params, "model", model.as_str()),
        None => {},
    }
    let ghost after_model = params@;
    match &p.cwd {
        Some(cwd) => push_str_member(&mut params, "cwd", cwd.as_str()),
        None => {},
    }
    let ghost after_cwd = params@;
    match p.approval_policy {
        Some(approval_policy) => push_str_member(&mut params, "approvalPolicy", approval_policy.as_wire()),
        None => {},
    }
    let ghost after_approval = params@;
    match &p.sandbox_policy {
        Some(sandbox_policy) => push_member(&mut params, "sandboxPolicy", sandbox_policy_to_wire_value(sandbox_policy)),
        None => {},
    }
    proof {
        if p.sandbox_policy is Some {
            assert(params@.drop_last() == after_approval);
        }
        assert(after_approval.len() == count(p.model is Some) + count(p.cwd is Some) + count(p.approval_policy is Some));
        assert(forall|i: int| 0 <= i < after_approval.len() ==> params@[i] == after_approval[i]);
        assert(forall|i: int| 0 <= i < after_cwd.len() ==> after_approval[i] == after_cwd[i]);
        assert(forall|i: int| 0 <= i < after_model.len() ==> after_cwd[i] == after_model[i]);
    }
    params
}

/// Wire params of `thread/start`.
pub fn thread_start_params_to_wire(p: &ThreadStartParams) -> (r: JsonValue)
    ensures
        r matches JsonValue::Object(f) && overrides_wire(*p, f@),
{
    JsonValue::Object(thread_overrides_to_wire(p))
}

/// Wire params of `thread/resume`: the thread's id, then the overrides
/// when there are any.
pub fn thread_resume_params_to_wire(thread_id: &str, p: &ThreadStartParams) -> (r: JsonValue)
    ensures
        r matches JsonValue::Object(f) && f.len() >= 1 && str_member(f@, 0, "threadId"@, thread_id@)
            && ({
                let n = count(p.model is Some) + count(p.cwd is Some) + count(p.approval_policy is Some) + count(p.sandbox_policy is Some);
                if n == 0 {
                    f.len() == 1
                } else {
                    f.len() == 2 && f@[1].0@ == "overrides"@
                        && (f@[1].1 matches JsonValue::Object(o) && overrides_wire(*p, o@))
                }
            }),
{
    let mut params: Vec<(String, JsonValue)> = Vec::new();
    push_str_member(&mut params, "threadId", thread_id);
    let overrides = thread_overrides_to_wire(p);
    if overrides.len() > 0 {
        push_member(&mut params, "overrides", JsonValue::Object(overrides));
    }
    JsonValue::Object(params)
}

/// Wire params naming one thread: `{"threadId": thread_id}` (for
/// `thread/fork` and `thread/archive`).
pub fn thread_id_params(thread_id: &str) -> (r: JsonValue)
    ensures
        r matches JsonValue::Object(f) && f.len() == 1 && str_member(f@, 0, "threadId"@, thread_id@),
{
    let mut params: Vec<(String, JsonValue)> = Vec::new();
    push_str_member(&mut params, "threadId", thread_id);
    JsonValue::Object(params)
}

/// Wire params naming one turn of a thread (for `turn/interrupt`).
pub fn turn_id_params(thread_id: &str, turn_id: &str) -> (r: JsonValue)
    ensures
        r matches JsonValue::Object(f) && f.len() == 2 && str_member(f@, 0, "threadId"@, thread_id@)
            && str_member(f@, 1, "turnId"@, turn_id@),
{
    let mut params: Vec<(String, JsonValue)> = Vec::new();
    push_str_member(&mut params, "threadId", thread_id);
    push_str_member(&mut params, "turnId", turn_id);
    JsonValue::Object(params)
}

/// Parameters of `turn/start`.
#[derive(Debug, Default)]
pub struct TurnStartParams {
    pub input: Vec<InputItem>,
    pub cwd: Option<String>,
    pub approval_policy: Option<ApprovalPolicy>,
    pub sandbox_policy: Option<SandboxPolicy>,
    /// Explicit opt-in to privileged sandbox use.
    pub privileged_escalation_approved: bool,
    pub model: Option<String>,
    pub effort: Option<ReasoningEffort>,
    pub summary: Option<String>,
    pub output_schema: Option<JsonValue>,
}

/// `f` holds `threadId`, the wire form of every input item, then the
/// present options in the order cwd, approval policy, sandbox policy,
/// model, effort, summary, output schema.
pub open spec fn turn_start_wire(thread_id: Seq<char>, p: TurnStartParams, f: Seq<(String, JsonValue)>) -> bool {
    let i_cwd = 2int;
    let i_approval = i_cwd + count(p.cwd is Some);
    let i_sandbox = i_approval + count(p.approval_policy is Some);
    let i_model = i_sandbox + count(p.sandbox_policy is Some);
    let i_effort = i_model + count(p.model is Some);
    let i_summary = i_effort + count(p.effort is Some);
    let i_schema = i_summary + count(p.summary is Some);
    &&& f.len() == i_schema + count(p.output_schema is Some)
    &&& str_member(f, 0, "threadId"@, thread_id)
    &&& f[1].0@ == "input"@
    &&& f[1].1 matches JsonValue::Array(a)
    &&& a@.len() == p.input@.len()
    &&& forall|k: int| 0 <= k < a@.len() ==> #[trigger] item_wire(p.input@[k], a@[k])
    &&& p.cwd matches Some(c) ==> str_member(f, i_cwd, "cwd"@, c@)
    &&& p.approval_policy matches Some(x) ==> str_member(f, i_approval, "approvalPolicy"@, spec_approval_wire(x))
    &&& p.sandbox_policy matches Some(sp) ==> f[i_sandbox].0@ == "sandboxPolicy"@ && policy_wire(sp, f[i_sandbox].1)
    &&& p.model matches Some(m) ==> str_member(f, i_model, "model"@, m@)
    &&& p.effort matches Some(e) ==> str_member(f, i_effort, "effort"@, spec_effort_wire(e))
    &&& p.summary matches Some(t) ==> str_member(f, i_summary, "summary"@, t@)
    &&& p.output_schema matches Some(o) ==> f[i_schema].0@ == "outputSchema"@ && json_same(f[i_schema].1, o)
}

/// Wire params of `turn/start` (see `turn_start_wire`).
pub fn turn_start_params_to_wire(thread_id: &str, p: &TurnStartParams) -> (r: JsonValue)
    ensures
        r matches JsonValue::Object(f) && turn_start_wire(thread_id@, *p, f@),
{
    let mut params: Vec<(String, JsonValue)> = Vec::new();
    push_str_member(&mut params, "threadId", thread_id);
    let mut items: Vec<JsonValue> = Vec::new();
    let mut k: usize = 0;
    while k < p.input.len()
        invariant
            k <= p.input.len(),
            items@.len() == k,
            forall|j: int| 0 <= j < k ==> #[trigger] item_wire(p.input@[j], items@[j]),
        decreases p.input.len() - k,
    {
        items.push(input_item_to_wire(&p.input[k]));
        k += 1;
    }
    push_member(&mut params, "input", JsonValue::Array(items));
    let ghost s1 = params@;
    match &p.cwd {
        Some(cwd) => push_str_member(&mut params, "cwd", cwd.as_str()),
        None => {},
    }
    let ghost s2 = params@;
    match p.approval_policy {
        Some(a) => push_str_member(&mut params, "approvalPolicy", a.as_wire()),
        None => {},
    }
    let ghost s3 = params@;
    match &p.sandbox_policy {
        Some(sp) => push_member(&mut params, "sandboxPolicy", sandbox_policy_to_wire_value(sp)),
        None => {},
    }
    let ghost s4 = params@;
    match &p.model {
        Some(m) => push_str_member(&mut params, "model", m.as_str()),
        None => {},
    }
    let ghost s5 = params@;
    match p.effort {
        Some(e) => push_str_member(&mut params, "effort", e.as_wire()),
        None => {},
    }
    let ghost s6 = params@;
    match &p.summary {
        Some(t) => push_str_member(&mut params, "summary", t.as_str()),
        None => {},
    }
    let ghost s7 = params@;
    match &p.output_schema {
        Some(o) => push_member(&mut params, "outputSchema", clone_json(o)),
        None => {},
    }
    proof {
        assert(forall|i: int| 0 <= i < s7.len() ==> params@[i] == s7[i]);
        assert(forall|i: int| 0 <= i < s6.len() ==> s7[i] == s6[i]);
        assert(forall|i: int| 0 <= i < s5.len() ==> s6[i] == s5[i]);
        assert(forall|i: int| 0 <= i < s4.len() ==> s5[i] == s4[i]);
        assert(forall|i: int| 0 <= i < s3.len() ==> s4[i] == s3[i]);
        assert(forall|i: int| 0 <= i < s2.len() ==> s3[i] == s2[i]);
        assert(forall|i: int| 0 <= i < s1.len() ==> s2[i] == s1[i]);
    }
    JsonValue::Object(params)
}

/// A prompt run: the prompt, where it runs, and how.
#[derive(Debug)]
pub struct PromptRunParams {
    pub cwd: String,
    pub prompt: String,
    pub model: Option<String>,
    pub effort: Option<ReasoningEffort>,
    pub approval_policy: ApprovalPolicy,
    pub sandbox_policy: SandboxPolicy,
    /// Explicit opt-in to privileged sandbox use.
    pub privileged_escalation_approved: bool,
    pub attachments: Vec<PromptAttachment>,
    /// Run timeout in milliseconds.
    pub timeout_ms: u64,
}

/// A copy of an optional string.
pub fn clone_opt_string(o: &Option<String>) -> (r: Option<String>)
    ensures
        r == *o,
{
    match o {
        Some(s) => Some(s.clone()),
        None => None,
    }
}

/// `r` holds the thread overrides of the prompt run `p`.
pub open spec fn thread_start_from_prompt(p: PromptRunParams, r: ThreadStartParams) -> bool {
    &&& r.model == p.model
    &&& r.cwd == Some(p.cwd)
    &&& r.approval_policy == Some(p.approval_policy)
    &&& r.sandbox_policy matches Some(sp) && policy_same(sp, p.sandbox_policy)
    &&& r.privileged_escalation_approved == p.privileged_escalation_approved
}

/// `r` holds the turn parameters of the prompt run `p` with `effort`.
pub open spec fn turn_start_from_prompt(p: PromptRunParams, effort: ReasoningEffort, r: TurnStartParams) -> bool {
    &&& spec_prompt_inputs(p.prompt@, p.attachments@, r.input@)
    &&& r.cwd == Some(p.cwd)
    &&& r.approval_policy == Some(p.approval_policy)
    &&& r.sandbox_policy matches Some(sp) && policy_same(sp, p.sandbox_policy)
    &&& r.privileged_escalation_approved == p.privileged_escalation_approved
    &&& r.model == p.model
    &&& r.effort == Some(effort)
    &&& r.summary is None
    &&& r.output_schema is None
}

/// Thread overrides of a prompt run: its model, cwd, approval and sandbox
/// policies and escalation opt-in.
pub fn thread_start_params_from_prompt(p: &PromptRunParams) -> (r: ThreadStartParams)
    ensures
        r.model == p.model,
        r.cwd == Some(p.cwd),
        r.approval_policy == Some(p.approval_policy),
        r.sandbox_policy matches Some(sp) && policy_same(sp, p.sandbox_policy),
        r.privileged_escalation_approved == p.privileged_escalation_approved,
        thread_start_from_prompt(*p, r),
{
    ThreadStartParams {
        model: clone_opt_string(&p.model),
        cwd: Some(p.cwd.clone()),
        approval_policy: Some(p.approval_policy),
        sandbox_policy: Some(clone_sandbox_policy(&p.sandbox_policy)),
        privileged_escalation_approved: p.privileged_escalation_approved,
    }
}

/// Turn parameters of a prompt run with the given effort: its prompt and
/// attachments as input items, and its cwd, policies and model.
pub fn turn_start_params_from_prompt(p: &PromptRunParams, effort: ReasoningEffort) -> (r: TurnStartParams)
    ensures
        spec_prompt_inputs(p.prompt@, p.attachments@, r.input@),
        r.cwd == Some(p.cwd),
        r.approval_policy == Some(p.approval_policy),
        r.sandbox_policy matches Some(sp) && policy_same(sp, p.sandbox_policy),
        r.privileged_escalation_approved == p.privileged_escalation_approved,
        r.model == p.model,
        r.effort == Some(effort),
        r.summary is None,
        r.output_schema is None,
        turn_start_from_prompt(*p, effort, r),
{
    TurnStartParams {
        input: build_prompt_inputs(p.prompt.as_str(), &p.attachments),
        cwd: Some(p.cwd.clone()),
        approval_policy: Some(p.approval_policy),
        sandbox_policy: Some(clone_sandbox_policy(&p.sandbox_policy)),
        privileged_escalation_approved: p.privileged_escalation_approved,
        model: clone_opt_string(&p.model),
        effort: Some(effort),
        summary: None,
        output_schema: None,
    }
}

/// A scope is explicit when a non-blank cwd is given or writable roots are.
pub fn has_explicit_scope(cwd: Option<&str>, has_non_empty_writable_roots: bool) -> (r: bool)
    ensures
        r == ((cwd matches Some(c) && !is_blank(c@)) || has_non_empty_writable_roots),
{
    match cwd {
        Some(c) => {
            if !str_is_blank(c) {
                return true;
            }
        },
        None => {},
    }
    has_non_empty_writable_roots
}

/// Why the privileged-sandbox gate refuses a request, if it does. A
/// privileged sandbox needs the explicit escalation opt-in, an approval
/// policy other than `never` (an absent policy counts as `never`), and an
/// explicit scope; an unprivileged one passes.
pub open spec fn privileged_gate_error(
    privileged: bool,
    has_non_empty_writable_roots: bool,
    escalation_approved: bool,
    approval: Option<ApprovalPolicy>,
    cwd: Option<Seq<char>>,
) -> Option<Seq<char>> {
    if !privileged {
        None
    } else if !escalation_approved {
        Some("privileged sandbox requires explicit escalation approval"@)
    } else if approval is None || approval == Some(ApprovalPolicy::Never) {
        Some("privileged sandbox requires non-never approval policy"@)
    } else if !((cwd matches Some(c) && !is_blank(c)) || has_non_empty_writable_roots) {
        Some("privileged sandbox requires explicit scope via cwd or writable roots"@)
    } else {
        None
    }
}

/// The privileged-sandbox escalation gate applied before a session or a
/// turn starts, given whether the sandbox policy is privileged and whether
/// it names writable roots; a refusal is an invalid request.
pub fn privileged_sandbox_gate(
    privileged: bool,
    has_non_empty_writable_roots: bool,
    escalation_approved: bool,
    approval: Option<ApprovalPolicy>,
    cwd: Option<&str>,
) -> (r: Result<(), RpcError>)
    ensures
        r is Ok <==> privileged_gate_error(
            privileged, has_non_empty_writable_roots, escalation_approved, approval,
            opt_str_seq(cwd),
        ) is None,
        r matches Err(e) ==> privileged_gate_error(
            privileged, has_non_empty_writable_roots, escalation_approved, approval,
            opt_str_seq(cwd),
        ) matches Some(m) && is_invalid_request_with(e, m),
        r is Ok && privileged ==> escalation_approved
            && (approval matches Some(p) && p != ApprovalPolicy::Never)
            && ((cwd matches Some(c) && !is_blank(c@)) || has_non_empty_writable_roots),
{
    if !privileged {
        return Ok(());
    }
    if !escalation_approved {
        return Err(RpcError::InvalidRequest(owned("privileged sandbox requires explicit escalation approval")));
    }
    let never = match approval {
        Some(ApprovalPolicy::Never) => true,
        Some(_) => false,
        None => true,
    };
    if never {
        return Err(RpcError::InvalidRequest(owned("privileged sandbox requires non-never approval policy")));
    }
    if !has_explicit_scope(cwd, has_non_empty_writable_roots) {
        return Err(RpcError::InvalidRequest(owned("privileged sandbox requires explicit scope via cwd or writable roots")));
    }
    Ok(())
}

/// The view of an optional text.
pub open spec fn opt_str_seq(s: Option<&str>) -> Option<Seq<char>> {
    match s {
        Some(c) => Some(c@),
        None => None,
    }
}

/// The view of an optional owned text.
pub open spec fn opt_string_seq(s: Option<String>) -> Option<Seq<char>> {
    match s {
        Some(c) => Some(c@),
        None => None,
    }
}

/// What the escalation gate needs to know of a sandbox policy.
#[derive(Clone, Copy, Debug, PartialEq, Eq, Structural)]
pub struct SandboxSummary {
    /// The policy leaves the managed workspace sandbox.
    pub privileged: bool,
    /// The policy names at least one writable root.
    pub has_non_empty_writable_roots: bool,
}

/// Sandbox types that leave the managed workspace sandbox: full access and
/// an external sandbox.
pub open spec fn privileged_type(t: Seq<char>) -> bool {
    t == "dangerFullAccess"@ || t == "externalSandbox"@
}

/// The summary of a sandbox policy: full access and external sandboxes are
/// privileged, a workspace-write preset names its writable roots; a raw
/// policy must be an object with a non-blank `type`, which decides whether
/// it is privileged.
pub open spec fn spec_sandbox_summary(p: SandboxPolicy) -> Result<SandboxSummary, Seq<char>> {
    match p {
        SandboxPolicy::Preset(SandboxPreset::ReadOnly) =>
            Ok(SandboxSummary { privileged: false, has_non_empty_writable_roots: false }),
        SandboxPolicy::Preset(SandboxPreset::WorkspaceWrite { writable_roots, .. }) =>
            Ok(SandboxSummary { privileged: false, has_non_empty_writable_roots: writable_roots@.len() > 0 }),
        SandboxPolicy::Preset(SandboxPreset::DangerFullAccess) =>
            Ok(SandboxSummary { privileged: true, has_non_empty_writable_roots: false }),
        SandboxPolicy::Preset(SandboxPreset::ExternalSandbox { .. }) =>
            Ok(SandboxSummary { privileged: true, has_non_empty_writable_roots: false }),
        SandboxPolicy::Raw(v) => match sandbox_wire_error(v, "sandboxPolicy"@) {
            Some(m) => Err(m),
            None => Ok(SandboxSummary {
                privileged: spec_as_str(spec_get(v, "type"@)) matches Some(t) && privileged_type(t),
                has_non_empty_writable_roots: false,
            }),
        },
    }
}

/// Summarises a sandbox policy for the escalation gate (see
/// `spec_sandbox_summary`).
pub fn summarize_sandbox_policy(p: &SandboxPolicy) -> (r: Result<SandboxSummary, String>)
    ensures
        match spec_sandbox_summary(*p) {
            Ok(x) => r == Ok::<SandboxSummary, String>(x),
            Err(m) => r matches Err(e) && e@ == m,
        },
{
    match p {
        SandboxPolicy::Preset(SandboxPreset::ReadOnly) =>
            Ok(SandboxSummary { privileged: false, has_non_empty_writable_roots: false }),
        SandboxPolicy::Preset(SandboxPreset::WorkspaceWrite { writable_roots, .. }) =>
            Ok(SandboxSummary { privileged: false, has_non_empty_writable_roots: writable_roots.len() > 0 }),
        SandboxPolicy::Preset(SandboxPreset::DangerFullAccess) =>
            Ok(SandboxSummary { privileged: true, has_non_empty_writable_roots: false }),
        SandboxPolicy::Preset(SandboxPreset::ExternalSandbox { .. }) =>
            Ok(SandboxSummary { privileged: true, has_non_empty_writable_roots: false }),
        SandboxPolicy::Raw(v) => match summarize_sandbox_policy_wire_value(v, "sandboxPolicy") {
            Err(m) => Err(m),
            Ok(t) => {
                let privileged = str_eq(t.as_str(), "dangerFullAccess") || str_eq(t.as_str(), "externalSandbox");
                Ok(SandboxSummary { privileged, has_non_empty_writable_roots: false })
            },
        },
    }
}

/// Why parameters with the given sandbox policy, escalation opt-in,
/// approval policy and cwd are refused, if they are: no policy passes; a
/// policy without a summary is refused with the reason why; otherwise
/// `privileged_gate_error` of its summary applies.
pub open spec fn security_error(
    sandbox_policy: Option<SandboxPolicy>,
    escalation_approved: bool,
    approval: Option<ApprovalPolicy>,
    cwd: Option<Seq<char>>,
) -> Option<Seq<char>> {
    match sandbox_policy {
        None => None,
        Some(sp) => match spec_sandbox_summary(sp) {
            Err(m) => Some(m),
            Ok(x) => privileged_gate_error(x.privileged, x.has_non_empty_writable_roots, escalation_approved, approval, cwd),
        },
    }
}

/// Checks sandbox, escalation and approval settings (see `security_error`).
fn check_security(
    sandbox_policy: &Option<SandboxPolicy>,
    escalation_approved: bool,
    approval: Option<ApprovalPolicy>,
    cwd: &Option<String>,
) -> (r: Result<(), RpcError>)
    ensures
        r is Ok <==> security_error(*sandbox_policy, escalation_approved, approval, opt_string_seq(*cwd)) is None,
        r matches Err(e) ==> security_error(*sandbox_policy, escalation_approved, approval, opt_string_seq(*cwd)) matches Some(m)
            && is_invalid_request_with(e, m),
{
    match sandbox_policy {
        None => Ok(()),
        Some(sp) => match summarize_sandbox_policy(sp) {
            Err(m) => Err(RpcError::InvalidRequest(m)),
            Ok(x) => {
                let c: Option<&str> = match cwd {
                    Some(c) => Some(c.as_str()),
                    None => None,
                };
                privileged_sandbox_gate(x.privileged, x.has_non_empty_writable_roots, escalation_approved, approval, c)
            },
        },
    }
}

/// The escalation gate on `thread/start` and `thread/resume` (see
/// `security_error`).
pub fn validate_thread_start_security(p: &ThreadStartParams) -> (r: Result<(), RpcError>)
    ensures
        r is Ok <==> security_error(p.sandbox_policy, p.privileged_escalation_approved, p.approval_policy, opt_string_seq(p.cwd)) is None,
        r matches Err(e) ==> security_error(p.sandbox_policy, p.privileged_escalation_approved, p.approval_policy, opt_string_seq(p.cwd))
            matches Some(m) && is_invalid_request_with(e, m),
{
    check_security(&p.sandbox_policy, p.privileged_escalation_approved, p.approval_policy, &p.cwd)
}

/// The escalation gate on `turn/start` (see `security_error`).
pub fn validate_turn_start_security(p: &TurnStartParams) -> (r: Result<(), RpcError>)
    ensures
        r is Ok <==> security_error(p.sandbox_policy, p.privileged_escalation_approved, p.approval_policy, opt_string_seq(p.cwd)) is None,
        r matches Err(e) ==> security_error(p.sandbox_policy, p.privileged_escalation_approved, p.approval_policy, opt_string_seq(p.cwd))
            matches Some(m) && is_invalid_request_with(e, m),
{
    check_security(&p.sandbox_policy, p.privileged_escalation_approved, p.approval_policy, &p.cwd)
}

/// `path` resolved against `cwd`: an absolute path stays as it is; a
/// relative one is joined to `cwd` with one `/` between them.
pub open spec fn spec_resolve_path(cwd: Seq<char>, path: Seq<char>) -> Seq<char> {
    if path.len() > 0 && path[0] == '/' {
        path
    } else if cwd.len() == 0 {
        path
    } else if cwd.last() == '/' {
        cwd + path
    } else {
        cwd.push('/') + path
    }
}

/// `path` resolved against `cwd` (see `spec_resolve_path`).
pub fn resolve_attachment_path(cwd: &str, path: &str) -> (r: String)
    ensures
        r@ == spec_resolve_path(cwd@, path@),
{
    let pc = chars_of(path);
    if pc.len() > 0 && pc[0] == '/' {
        return owned(path);
    }
    match last_char(cwd) {
        None => owned(path),
        Some(c) => {
            let mut out = owned(cwd);
            if c != '/' {
                push_char(&mut out, '/');
            }
            push_str(&mut out, path);
            out
        },
    }
}

/// The path an attachment refers to on disk, if it refers to one.
pub open spec fn attachment_path(a: PromptAttachment) -> Option<Seq<char>> {
    match a {
        PromptAttachment::AtPath { path, .. } => Some(path@),
        PromptAttachment::LocalImage { path } => Some(path@),
        PromptAttachment::Skill { path, .. } => Some(path@),
        PromptAttachment::ImageUrl { .. } => None,
    }
}

/// Attachment `i` refers to a path that is not present.
pub open spec fn is_missing(atts: Seq<PromptAttachment>, present: Seq<bool>, i: int) -> bool {
    attachment_path(atts[i]) is Some && !present[i]
}

/// Outcome of the presence check: the first attachment whose path is not
/// present is reported by its resolved path.
pub open spec fn presence_outcome(cwd: Seq<char>, atts: Seq<PromptAttachment>, present: Seq<bool>, r: Result<(), PromptRunError>) -> bool {
    match r {
        Ok(()) => forall|i: int| 0 <= i < atts.len() ==> !#[trigger] is_missing(atts, present, i),
        Err(PromptRunError::AttachmentNotFound(p)) => exists|i: int| 0 <= i < atts.len()
            && #[trigger] is_missing(atts, present, i)
            && (forall|j: int| 0 <= j < i ==> !#[trigger] is_missing(atts, present, j))
            && p@ == spec_resolve_path(cwd, attachment_path(atts[i])->0),
        Err(_) => false,
    }
}

/// Reports the first attachment whose resolved path is not present;
/// `present[i]` tells whether attachment `i`'s path exists.
pub fn check_attachment_presence(cwd: &str, attachments: &Vec<PromptAttachment>, present: &Vec<bool>) -> (r: Result<(), PromptRunError>)
    requires
        present@.len() == attachments@.len(),
    ensures
        presence_outcome(cwd@, attachments@, present@, r),
{
    let mut i: usize = 0;
    while i < attachments.len()
        invariant
            i <= attachments.len(),
            present@.len() == attachments@.len(),
            forall|j: int| 0 <= j < i ==> !#[trigger] is_missing(attachments@, present@, j),
        decreases attachments.len() - i,
    {
        let path: Option<&str> = match &attachments[i] {
            PromptAttachment::AtPath { path, .. } => Some(path.as_str()),
            PromptAttachment::LocalImage { path } => Some(path.as_str()),
            PromptAttachment::Skill { path, .. } => Some(path.as_str()),
            PromptAttachment::ImageUrl { .. } => None,
        };
        match path {
            Some(p) => {
                if !present[i] {
                    let resolved = resolve_attachment_path(cwd, p);
                    assert(is_missing(attachments@, present@, i as int));
                    return Err(PromptRunError::AttachmentNotFound(resolved));
                }
            },
            None => {},
        }
        assert(!is_missing(attachments@, present@, i as int));
        i += 1;
    }
    Ok(())
}

/// `std::path::Path::exists` on `path`. What it returns depends on the
/// file system at the time of the call, so nothing is stated of it.
#[verifier::external_body]
pub(crate) fn path_exists(path: &str) -> bool {
    std::path::Path::new(path).exists()
}

/// Given which attachment paths exist, the first attachment that refers
/// to a path that does not exist (an `@path`, a local image or a skill) is
/// reported as not found, by its path resolved against `cwd`; a missing
/// path is never let through.
pub proof fn lemma_first_missing_path_is_reported(
    cwd: Seq<char>,
    atts: Seq<PromptAttachment>,
    present: Seq<bool>,
    r: Result<(), PromptRunError>,
    i: int,
)
    requires
        present.len() == atts.len(),
        presence_outcome(cwd, atts, present, r),
        0 <= i < atts.len(),
        !(atts[i] is ImageUrl),
        !present[i],
        forall|j: int| 0 <= j < i ==> present[j] || atts[j] is ImageUrl,
    ensures
        r matches Err(PromptRunError::AttachmentNotFound(p)) && p@ == spec_resolve_path(cwd, match atts[i] {
            PromptAttachment::AtPath { path, .. } => path@,
            PromptAttachment::LocalImage { path } => path@,
            PromptAttachment::Skill { path, .. } => path@,
            PromptAttachment::ImageUrl { .. } => Seq::empty(),
        }),
{
    assert(is_missing(atts, present, i));
    if let Err(PromptRunError::AttachmentNotFound(p)) = r {
        let k = choose|k: int| 0 <= k < atts.len()
            && #[trigger] is_missing(atts, present, k)
            && (forall|j: int| 0 <= j < k ==> !#[trigger] is_missing(atts, present, j))
            && p@ == spec_resolve_path(cwd, attachment_path(atts[k])->0);
        if k < i {
            assert(present[k] || atts[k] is ImageUrl);
        }
        if k > i {
            assert(!is_missing(atts, present, i));
        }
    }
}

/// `present[i]` is an answer of the existence check `probe` for the path
/// of attachment `i` resolved against `cwd`, for every attachment that
/// refers to a path; other attachments count as present.
pub open spec fn presence_from<F: Fn(&str) -> bool>(cwd: Seq<char>, atts: Seq<PromptAttachment>, probe: F, present: Seq<bool>) -> bool {
    &&& present.len() == atts.len()
    &&& forall|i: int| 0 <= i < atts.len() ==> match #[trigger] attachment_path(atts[i]) {
        Some(path) => exists|s: &str| s@ == spec_resolve_path(cwd, path) && call_ensures(probe, (s,), present[i]),
        None => present[i],
    }
}

/// Checks, with the existence check `probe`, that every attachment that
/// refers to a path refers to one that exists, asking about each such
/// path resolved against `cwd`, and reports the first that does not by its
/// resolved path.
pub fn check_attachments_with<F: Fn(&str) -> bool>(cwd: &str, attachments: &Vec<PromptAttachment>, probe: &F) -> (r: Result<(), PromptRunError>)
    requires
        forall|s: &str| call_requires(*probe, (s,)),
    ensures
        exists|present: Seq<bool>| #[trigger] presence_from(cwd@, attachments@, *probe, present)
            && presence_outcome(cwd@, attachments@, present, r),
{
    let mut present: Vec<bool> = Vec::new();
    let mut i: usize = 0;
    while i < attachments.len()
        invariant
            i <= attachments.len(),
            present@.len() == i,
            forall|s: &str| call_requires(*probe, (s,)),
            forall|j: int| 0 <= j < i ==> match #[trigger] attachment_path(attachments@[j]) {
                Some(path) => exists|s: &str| s@ == spec_resolve_path(cwd@, path) && call_ensures(*probe, (s,), present@[j]),
                None => present@[j],
            },
        decreases attachments.len() - i,
    {
        let path: Option<&str> = match &attachments[i] {
            PromptAttachment::AtPath { path, .. } => Some(path.as_str()),
            PromptAttachment::LocalImage { path } => Some(path.as_str()),
            PromptAttachment::Skill { path, .. } => Some(path.as_str()),
            PromptAttachment::ImageUrl { .. } => None,
        };
        let found = match path {
            Some(p) => {
                let resolved = resolve_attachment_path(cwd, p);
                let rs = resolved.as_str();
                let b = probe(rs);
                assert(rs@ == spec_resolve_path(cwd@, attachment_path(attachments@[i as int])->0));
                b
            },
            None => true,
        };
        present.push(found);
        i += 1;
    }
    let r = check_attachment_presence(cwd, attachments, &present);
    assert(presence_from(cwd@, attachments@, *probe, present@));
    r
}

/// When the existence check says the resolved path of attachment `i` (an
/// `@path`, a local image or a skill) does not exist, and says every
/// earlier attachment's path exists, the attachments are refused with
/// attachment `i`'s resolved path as not found.
pub proof fn lemma_probe_missing_path_is_reported<F: Fn(&str) -> bool>(
    cwd: Seq<char>,
    atts: Seq<PromptAttachment>,
    probe: F,
    present: Seq<bool>,
    r: Result<(), PromptRunError>,
    i: int,
)
    requires
        presence_from(cwd, atts, probe, present),
        presence_outcome(cwd, atts, present, r),
        0 <= i < atts.len(),
        attachment_path(atts[i]) matches Some(path) && forall|s: &str, b: bool|
            s@ == spec_resolve_path(cwd, path) && #[trigger] call_ensures(probe, (s,), b) ==> !b,
        forall|j: int, s: &str, b: bool|
            #![trigger attachment_path(atts[j]), call_ensures(probe, (s,), b)]
            0 <= j < i && attachment_path(atts[j]) is Some
            && s@ == spec_resolve_path(cwd, attachment_path(atts[j])->0) && call_ensures(probe, (s,), b) ==> b,
    ensures
        r matches Err(PromptRunError::AttachmentNotFound(p)) && p@ == spec_resolve_path(cwd, attachment_path(atts[i])->0),
{
    assert(attachment_path(atts[i]) is Some);
    assert(!present[i]);
    assert forall|j: int| 0 <= j < i implies present[j] || atts[j] is ImageUrl by {
        if attachment_path(atts[j]) is Some {
            let path = attachment_path(atts[j])->0;
            let s = choose|s: &str| s@ == spec_resolve_path(cwd, path) && call_ensures(probe, (s,), present[j]);
            assert(call_ensures(probe, (s,), present[j]));
        }
    }
    lemma_first_missing_path_is_reported(cwd, atts, present, r, i);
}

/// Checks that every attachment that refers to a path refers to one that
/// exists on disk (see `check_attachments_with`), reporting the first that
/// does not by its resolved path.
pub fn validate_prompt_attachments(cwd: &str, attachments: &Vec<PromptAttachment>) -> (r: Result<(), PromptRunError>)
    ensures
        exists|present: Seq<bool>| present.len() == attachments@.len() && #[trigger] presence_outcome(cwd@, attachments@, present, r),
{
    let on_disk = |p: &str| -> (b: bool) { path_exists(p) };
    let r = check_attachments_with(cwd, attachments, &on_disk);
    proof {
        let present = choose|present: Seq<bool>| #[trigger] presence_from(cwd@, attachments@, on_disk, present)
            && presence_outcome(cwd@, attachments@, present, r);
        assert(present.len() == attachments@.len());
    }
    r
}

} // verus!
